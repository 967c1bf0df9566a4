//! Desktop notifications for finished workflow runs: what they say and how
//! urgent they are. Showing them is left to the caller.
use crate::text::{push_char, str_eq};
use vstd::prelude::*;

verus! {

/// Whether `c` has the Unicode White_Space property, which is what
/// `char::is_whitespace` tests: the ASCII tab, line feed, vertical tab, form
/// feed, carriage return and space, and the twenty-five code points of
/// PropList's White_Space list in all.
pub open spec fn unicode_whitespace(c: char) -> bool {
    let u = c as u32;
    (9 <= u <= 13) || u == 32 || u == 0x85 || u == 0xA0 || u == 0x1680 || (0x2000 <= u <= 0x200A)
        || u == 0x2028 || u == 0x2029 || u == 0x202F || u == 0x205F || u == 0x3000
}

/// What `char::to_uppercase` yields for `c` (one or more characters, by the
/// Unicode case tables).
pub uninterp spec fn unicode_uppercase(c: char) -> Seq<char>;

/// The upper case of a character: for ASCII, the capital of a lower-case
/// letter and any other character unchanged; beyond ASCII, what the Unicode
/// case tables give.
pub open spec fn uppercased(c: char) -> Seq<char> {
    if 'a' <= c <= 'z' {
        seq![((c as u32) - 32) as char]
    } else if (c as u32) < 128 {
        seq![c]
    } else {
        unicode_uppercase(c)
    }
}

/// Whether `c` is whitespace as `char::is_whitespace` answers: whether it
/// has the White_Space property.
fn is_whitespace_char(c: char) -> (ws: bool)
    ensures
        ws == unicode_whitespace(c),
{
    let u = c as u32;
    (9 <= u && u <= 13) || u == 32 || u == 0x85 || u == 0xA0 || u == 0x1680 || (0x2000 <= u && u
        <= 0x200A) || u == 0x2028 || u == 0x2029 || u == 0x202F || u == 0x205F || u == 0x3000
}

/// Collects `char::to_uppercase` of `c` into a string. Of ASCII characters
/// it is stated that a lower-case letter becomes its capital and every
/// other one stays as it is; beyond ASCII the result is the name
/// `unicode_uppercase` of the character, the case tables behind it left
/// unstated.
#[verifier::external_body]
fn uppercase_of(c: char) -> (up: String)
    ensures
        up@ == uppercased(c),
        (c as u32) >= 128 ==> up@ == unicode_uppercase(c),
{
    c.to_uppercase().collect()
}

/// Underscores read as spaces.
pub open spec fn underscore_as_space(c: char) -> char {
    if c == '_' {
        ' '
    } else {
        c
    }
}

/// The maximal runs of non-whitespace characters of `t`, in order.
pub open spec fn words(t: Seq<char>) -> Seq<Seq<char>>
    decreases t.len(),
{
    if t.len() == 0 {
        Seq::empty()
    } else {
        let p = t.drop_last();
        let c = t.last();
        let w = words(p);
        if unicode_whitespace(c) {
            w
        } else if p.len() > 0 && !unicode_whitespace(p.last()) {
            w.update(w.len() - 1, w.last().push(c))
        } else {
            w.push(seq![c])
        }
    }
}

/// A word with its first character upper-cased.
pub open spec fn capitalized(w: Seq<char>) -> Seq<char> {
    uppercased(w[0]) + w.drop_first()
}

/// The words joined by single spaces.
pub open spec fn joined_by_space(ws: Seq<Seq<char>>) -> Seq<char>
    decreases ws.len(),
{
    if ws.len() == 0 {
        Seq::empty()
    } else if ws.len() == 1 {
        ws[0]
    } else {
        joined_by_space(ws.drop_last()) + seq![' '] + ws.last()
    }
}

/// `snake_case` text as a title: underscores become spaces, and the
/// whitespace-separated words are capitalized and joined by single spaces.
pub open spec fn title_cased(s: Seq<char>) -> Seq<char> {
    joined_by_space(
        words(s.map_values(|c: char| underscore_as_space(c))).map_values(
            |w: Seq<char>| capitalized(w),
        ),
    )
}

/// The human-readable label of a run conclusion.
pub open spec fn conclusion_label(conclusion: Option<Seq<char>>) -> Seq<char> {
    match conclusion {
        None => "Completed"@,
        Some(c) => if c == "success"@ {
            "Success ✓"@
        } else if c == "failure"@ {
            "Failed ✗"@
        } else if c == "cancelled"@ {
            "Cancelled"@
        } else if c == "skipped"@ {
            "Skipped"@
        } else if c == "timed_out"@ {
            "Timed Out"@
        } else if c == "action_required"@ {
            "Action Required"@
        } else if c == "neutral"@ {
            "Neutral"@
        } else {
            title_cased(c)
        },
    }
}

pub open spec fn opt_str_view(o: Option<&str>) -> Option<Seq<char>> {
    match o {
        Some(s) => Some(s@),
        None => None,
    }
}

/// Every word is non-empty, and there is a last word exactly when the text
/// ends in a non-whitespace character or some earlier word exists.
proof fn lemma_words_shape(t: Seq<char>)
    ensures
        forall|i: int| 0 <= i < words(t).len() ==> (#[trigger] words(t)[i]).len() > 0,
        t.len() > 0 && !unicode_whitespace(t.last()) ==> words(t).len() > 0,
    decreases t.len(),
{
    if t.len() > 0 {
        let p = t.drop_last();
        lemma_words_shape(p);
        let w = words(p);
        let c = t.last();
        if unicode_whitespace(c) {
        } else if p.len() > 0 && !unicode_whitespace(p.last()) {
            assert forall|i: int| 0 <= i < words(t).len() implies (#[trigger] words(t)[i]).len() > 0 by {
                if i < w.len() - 1 {
                    assert(words(t)[i] == w[i]);
                }
            }
        } else {
            assert forall|i: int| 0 <= i < words(t).len() implies (#[trigger] words(t)[i]).len() > 0 by {
                if i < w.len() {
                    assert(words(t)[i] == w[i]);
                }
            }
        }
    }
}

proof fn lemma_join_push(ws: Seq<Seq<char>>, x: Seq<char>)
    ensures
        joined_by_space(ws.push(x)) == if ws.len() == 0 {
            x
        } else {
            joined_by_space(ws) + seq![' '] + x
        },
{
    assert(ws.push(x).drop_last() =~= ws);
}

proof fn lemma_join_extend_last(ws: Seq<Seq<char>>, c: char)
    requires
        ws.len() > 0,
    ensures
        joined_by_space(ws.update(ws.len() - 1, ws.last().push(c))) == joined_by_space(ws).push(c),
{
    let u = ws.update(ws.len() - 1, ws.last().push(c));
    if ws.len() == 1 {
    } else {
        assert(u.drop_last() =~= ws.drop_last());
        assert(joined_by_space(u) =~= joined_by_space(ws).push(c));
    }
}

/// Title-cases `snake_case` text as the notification body does for
/// conclusions it has no fixed label for.
pub fn title_case(s: &str) -> (out: String)
    ensures
        out@ == title_cased(s@),
{
    let n = s.unicode_len();
    let ghost t = s@.map_values(|c: char| underscore_as_space(c));
    let mut out = String::new();
    let mut in_word = false;
    let mut started = false;
    let mut i: usize = 0;
    while i < n
        invariant
            i <= n,
            n == s@.len(),
            t == s@.map_values(|c: char| underscore_as_space(c)),
            out@ == joined_by_space(
                words(t.take(i as int)).map_values(|w: Seq<char>| capitalized(w)),
            ),
            in_word == (i > 0 && !unicode_whitespace(t[i - 1])),
            started == (words(t.take(i as int)).len() > 0),
        decreases n - i,
    {
        let raw = s.get_char(i);
        let c = if raw == '_' {
            ' '
        } else {
            raw
        };
        let ghost p = t.take(i as int);
        let ghost q = t.take(i + 1);
        let ghost w = words(p);
        let ghost caps = w.map_values(|x: Seq<char>| capitalized(x));
        assert(q.drop_last() =~= p);
        assert(q.last() == c);
        proof {
            lemma_words_shape(p);
            if i > 0 {
                assert(p.last() == t[i - 1]);
            }
        }
        if is_whitespace_char(c) {
            in_word = false;
            assert(words(q) == w);
        } else if in_word {
            push_char(&mut out, c);
            proof {
                assert(w.len() > 0);
                let last = w.last();
                assert(last.len() > 0);
                assert(capitalized(last.push(c)) =~= capitalized(last).push(c));
                assert(words(q).map_values(|x: Seq<char>| capitalized(x)) =~= caps.update(
                    caps.len() - 1,
                    caps.last().push(c),
                ));
                lemma_join_extend_last(caps, c);
            }
        } else {
            if started {
                push_char(&mut out, ' ');
            }
            let up = uppercase_of(c);
            out.append(up.as_str());
            proof {
                assert(words(q) =~= w.push(seq![c]));
                assert(capitalized(seq![c]) =~= uppercased(c));
                assert(words(q).map_values(|x: Seq<char>| capitalized(x)) =~= caps.push(
                    uppercased(c),
                ));
                lemma_join_push(caps, uppercased(c));
            }
            started = true;
            in_word = true;
        }
        i = i + 1;
    }
    assert(t.take(n as int) =~= t);
    out
}

/// How urgent a desktop notification is.
#[derive(Debug, Clone, Copy, PartialEq, Eq, Structural)]
pub enum NotificationUrgency {
    Low,
    Normal,
    Critical,
}

/// How long a notification stays on screen, in milliseconds.
pub const NOTIFICATION_TIMEOUT_MS: u32 = 8000;

/// The urgency level a numeric urgency stands for: 0 is low, 2 critical and
/// anything else normal.
pub open spec fn urgency_for(level: u8) -> NotificationUrgency {
    if level == 0 {
        NotificationUrgency::Low
    } else if level == 2 {
        NotificationUrgency::Critical
    } else {
        NotificationUrgency::Normal
    }
}

/// Maps a numeric urgency onto an urgency level.
pub fn urgency_level(level: u8) -> (u: NotificationUrgency)
    ensures
        u == urgency_for(level),
{
    match level {
        0 => NotificationUrgency::Low,
        2 => NotificationUrgency::Critical,
        _ => NotificationUrgency::Normal,
    }
}

/// A notification ready to be shown.
pub struct Notice {
    pub app_name: String,
    pub summary: String,
    pub body: String,
    pub urgency: NotificationUrgency,
    pub timeout_ms: u32,
}

/// Builds the notifications shown when a workflow run completes.
#[derive(Clone)]
pub struct NotificationManager {
    app_name: String,
}

impl NotificationManager {
    pub closed spec fn spec_app_name(&self) -> Seq<char> {
        self.app_name@
    }

    pub fn new(app_name: &str) -> (m: NotificationManager)
        ensures
            m.spec_app_name() == app_name@,
    {
        NotificationManager { app_name: String::from_str(app_name) }
    }

    /// The label of a run conclusion: fixed labels for the conclusions GitHub
    /// reports, `Completed` when there is none, and the title-cased text
    /// otherwise.
    pub fn conclusion_text(&self, conclusion: Option<&str>) -> (label: String)
        ensures
            label@ == conclusion_label(opt_str_view(conclusion)),
    {
        match conclusion {
            None => String::from_str("Completed"),
            Some(c) => {
                if str_eq(c, "success") {
                    String::from_str("Success ✓")
                } else if str_eq(c, "failure") {
                    String::from_str("Failed ✗")
                } else if str_eq(c, "cancelled") {
                    String::from_str("Cancelled")
                } else if str_eq(c, "skipped") {
                    String::from_str("Skipped")
                } else if str_eq(c, "timed_out") {
                    String::from_str("Timed Out")
                } else if str_eq(c, "action_required") {
                    String::from_str("Action Required")
                } else if str_eq(c, "neutral") {
                    String::from_str("Neutral")
                } else {
                    title_case(c)
                }
            },
        }
    }

    /// The notification for a completed workflow run: summary
    /// `Workflow Completed: <workflow>`, body `<run title> - <conclusion
    /// label>`, critical when the run failed and normal otherwise.
    pub fn workflow_completed_notice(
        &self,
        workflow_name: &str,
        run_title: &str,
        _status: &str,
        conclusion: Option<&str>,
    ) -> (n: Notice)
        ensures
            n.app_name@ == self.spec_app_name(),
            n.summary@ == "Workflow Completed: "@ + workflow_name@,
            n.body@ == run_title@ + " - "@ + conclusion_label(opt_str_view(conclusion)),
            n.urgency == (if opt_str_view(conclusion) == Some("failure"@) {
                NotificationUrgency::Critical
            } else {
                NotificationUrgency::Normal
            }),
            n.timeout_ms == NOTIFICATION_TIMEOUT_MS,
    {
        let mut summary = String::from_str("Workflow Completed: ");
        summary.append(workflow_name);
        let mut body = String::from_str(run_title);
        body.append(" - ");
        let label = self.conclusion_text(conclusion);
        body.append(label.as_str());
        let failed = match conclusion {
            Some(c) => str_eq(c, "failure"),
            None => false,
        };
        let level: u8 = if failed {
            2
        } else {
            1
        };
        Notice {
            app_name: self.app_name.clone(),
            summary,
            body,
            urgency: urgency_level(level),
            timeout_ms: NOTIFICATION_TIMEOUT_MS,
        }
    }
}

} // verus!
