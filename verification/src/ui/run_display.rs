//! What the detail view shows for workflows, runs and jobs: titles, status
//! icons and style classes, and the naming of workflow expanders.
use crate::api::models::{field_is, is_pending_status, text_is, Job, Workflow, WorkflowRun};
use crate::text::{
    decimal_text, law_decimal_roundtrip, lemma_decimal_text_ends_in_digit, parse_i64, parsed_i64,
    push_decimal, str_eq,
};
use vstd::prelude::*;

verus! {

/// The title of a run: its display title, else its name, else
/// `Workflow Run`, followed by ` #<number>` when the run is numbered.
pub open spec fn run_title(run: WorkflowRun) -> Seq<char> {
    let base = match run.display_title {
        Some(t) => t@,
        None => match run.name {
            Some(n) => n@,
            None => "Workflow Run"@,
        },
    };
    match run.run_number {
        Some(num) => base + " #"@ + decimal_text(num as int),
        None => base,
    }
}

/// The icon for a run or job: by conclusion once there is one, else by
/// status. Success shows `emblem-ok-symbolic`, failure and cancellation
/// `process-stop-symbolic`, a run in progress `emblem-synchronizing-symbolic`
/// and a queued or waiting one `alarm-symbolic`.
pub open spec fn status_icon(conclusion: Option<String>, status: Option<String>) -> Seq<char> {
    if conclusion is Some {
        if text_is(conclusion, "success"@) {
            "emblem-ok-symbolic"@
        } else if text_is(conclusion, "failure"@) || text_is(conclusion, "cancelled"@) {
            "process-stop-symbolic"@
        } else {
            "dialog-question-symbolic"@
        }
    } else if text_is(status, "queued"@) || text_is(status, "waiting"@) {
        "alarm-symbolic"@
    } else if text_is(status, "in_progress"@) {
        "emblem-synchronizing-symbolic"@
    } else {
        "dialog-question-symbolic"@
    }
}

/// The style class for a run or job: by conclusion once there is one
/// (`success`, `error`, `warning` for a cancellation), else `accent` while in
/// progress and `warning` while queued, else none.
pub open spec fn status_class(conclusion: Option<String>, status: Option<String>) -> Seq<char> {
    if conclusion is Some {
        if text_is(conclusion, "success"@) {
            "success"@
        } else if text_is(conclusion, "failure"@) {
            "error"@
        } else if text_is(conclusion, "cancelled"@) {
            "warning"@
        } else {
            ""@
        }
    } else if text_is(status, "in_progress"@) {
        "accent"@
    } else if text_is(status, "queued"@) {
        "warning"@
    } else {
        ""@
    }
}

fn icon_for(conclusion: &Option<String>, status: &Option<String>) -> (icon: &'static str)
    ensures
        icon@ == status_icon(*conclusion, *status),
{
    if conclusion.is_some() {
        if field_is(conclusion, "success") {
            "emblem-ok-symbolic"
        } else if field_is(conclusion, "failure") || field_is(conclusion, "cancelled") {
            "process-stop-symbolic"
        } else {
            "dialog-question-symbolic"
        }
    } else if field_is(status, "queued") || field_is(status, "waiting") {
        "alarm-symbolic"
    } else if field_is(status, "in_progress") {
        "emblem-synchronizing-symbolic"
    } else {
        "dialog-question-symbolic"
    }
}

fn class_for(conclusion: &Option<String>, status: &Option<String>) -> (class: &'static str)
    ensures
        class@ == status_class(*conclusion, *status),
{
    if conclusion.is_some() {
        if field_is(conclusion, "success") {
            "success"
        } else if field_is(conclusion, "failure") {
            "error"
        } else if field_is(conclusion, "cancelled") {
            "warning"
        } else {
            ""
        }
    } else if field_is(status, "in_progress") {
        "accent"
    } else if field_is(status, "queued") {
        "warning"
    } else {
        ""
    }
}

/// The title shown for a run.
pub fn format_run_title(run: &WorkflowRun) -> (title: String)
    ensures
        title@ == run_title(*run),
{
    let mut title = match &run.display_title {
        Some(t) => t.clone(),
        None => match &run.name {
            Some(n) => n.clone(),
            None => String::from_str("Workflow Run"),
        },
    };
    match run.run_number {
        Some(num) => {
            title.append(" #");
            push_decimal(&mut title, num as i128);
        },
        None => {},
    }
    title
}

/// The status icon of a run.
pub fn get_run_status_icon(run: &WorkflowRun) -> (icon: &'static str)
    ensures
        icon@ == status_icon(run.conclusion, run.status),
{
    icon_for(&run.conclusion, &run.status)
}

/// The style class of a run's status icon.
pub fn get_run_status_class(run: &WorkflowRun) -> (class: &'static str)
    ensures
        class@ == status_class(run.conclusion, run.status),
{
    class_for(&run.conclusion, &run.status)
}

/// The status icon of a job.
pub fn get_job_status_icon(job: &Job) -> (icon: &'static str)
    ensures
        icon@ == status_icon(job.conclusion, job.status),
{
    icon_for(&job.conclusion, &job.status)
}

/// The style class of a job's status icon.
pub fn get_job_status_class(job: &Job) -> (class: &'static str)
    ensures
        class@ == status_class(job.conclusion, job.status),
{
    class_for(&job.conclusion, &job.status)
}

/// The name shown for a job: its name, or `Unnamed job`.
pub fn job_display_name(job: &Job) -> (name: String)
    ensures
        name@ == match job.name {
            Some(n) => n@,
            None => "Unnamed job"@,
        },
{
    match &job.name {
        Some(n) => n.clone(),
        None => String::from_str("Unnamed job"),
    }
}

/// Icon and style class of a row in the run list window: keyed on a
/// completed run's conclusion, or on a run in progress or queued, with the
/// same icons and classes as the detail view.
pub open spec fn run_row_icon(run: WorkflowRun) -> (Seq<char>, Seq<char>) {
    if text_is(run.status, "completed"@) && text_is(run.conclusion, "success"@) {
        ("emblem-ok-symbolic"@, "success"@)
    } else if text_is(run.status, "completed"@) && text_is(run.conclusion, "failure"@) {
        ("process-stop-symbolic"@, "error"@)
    } else if text_is(run.status, "completed"@) && text_is(run.conclusion, "cancelled"@) {
        ("process-stop-symbolic"@, "warning"@)
    } else if text_is(run.status, "in_progress"@) {
        ("emblem-synchronizing-symbolic"@, "accent"@)
    } else if text_is(run.status, "queued"@) {
        ("alarm-symbolic"@, "warning"@)
    } else {
        ("help-about-symbolic"@, ""@)
    }
}

/// A run row shows the success icon, and the success class, exactly for a
/// completed run that succeeded; a completed run that failed is marked as an
/// error, and a completed cancelled run shows the stop icon with a warning.
pub proof fn law_run_row_success_only_for_success(run: WorkflowRun)
    ensures
        run_row_icon(run).0 == "emblem-ok-symbolic"@ <==> (text_is(run.status, "completed"@)
            && text_is(run.conclusion, "success"@)),
        run_row_icon(run).1 == "success"@ <==> (text_is(run.status, "completed"@) && text_is(
            run.conclusion,
            "success"@,
        )),
        run_row_icon(run).1 == "error"@ <==> (text_is(run.status, "completed"@) && text_is(
            run.conclusion,
            "failure"@,
        )),
        (text_is(run.status, "completed"@) && text_is(run.conclusion, "cancelled"@)) ==> run_row_icon(
            run,
        ) == ("process-stop-symbolic"@, "warning"@),
{
    reveal_strlit("emblem-ok-symbolic");
    reveal_strlit("process-stop-symbolic");
    reveal_strlit("emblem-synchronizing-symbolic");
    reveal_strlit("alarm-symbolic");
    reveal_strlit("help-about-symbolic");
    reveal_strlit("success");
    reveal_strlit("error");
    reveal_strlit("warning");
    reveal_strlit("accent");
    reveal_strlit("");
    reveal_strlit("completed");
    reveal_strlit("failure");
    reveal_strlit("cancelled");
    reveal_strlit("in_progress");
    reveal_strlit("queued");
    assert("emblem-ok-symbolic"@.len() == 18);
    assert("process-stop-symbolic"@.len() == 21);
    assert("emblem-synchronizing-symbolic"@.len() == 29);
    assert("alarm-symbolic"@.len() == 14);
    assert("help-about-symbolic"@.len() == 19);
    assert("success"@.len() == 7);
    assert("error"@.len() == 5);
    assert("warning"@.len() == 7);
    assert("accent"@.len() == 6);
    assert("completed"@.len() == 9);
    assert("failure"@.len() == 7);
    assert("cancelled"@.len() == 9);
    assert("in_progress"@.len() == 11);
    assert("queued"@.len() == 6);
    assert(""@.len() == 0);
    assert("success"@[0] == 's' && "failure"@[0] == 'f' && "warning"@[0] == 'w');
    assert("success"@ != "failure"@ && "success"@ != "cancelled"@ && "failure"@ != "cancelled"@);
    assert("completed"@ != "in_progress"@ && "completed"@ != "queued"@);
    assert("emblem-ok-symbolic"@ != "process-stop-symbolic"@);
    assert("emblem-ok-symbolic"@ != "emblem-synchronizing-symbolic"@);
    assert("emblem-ok-symbolic"@ != "alarm-symbolic"@);
    assert("emblem-ok-symbolic"@ != "help-about-symbolic"@);
    assert("success"@ != "error"@ && "success"@ != "warning"@ && "success"@ != "accent"@
        && "success"@ != ""@);
    assert("error"@ != "warning"@ && "error"@ != "accent"@ && "error"@ != ""@);
}

/// In the detail view the success icon and class belong to runs and jobs
/// that concluded in success alone, the error class to those that failed,
/// and a cancellation shows the stop icon with a warning.
pub proof fn law_status_success_only_for_success(conclusion: Option<String>, status: Option<String>)
    ensures
        status_icon(conclusion, status) == "emblem-ok-symbolic"@ <==> text_is(conclusion, "success"@),
        status_class(conclusion, status) == "success"@ <==> text_is(conclusion, "success"@),
        status_class(conclusion, status) == "error"@ <==> text_is(conclusion, "failure"@),
        text_is(conclusion, "cancelled"@) ==> status_icon(conclusion, status)
            == "process-stop-symbolic"@ && status_class(conclusion, status) == "warning"@,
{
    reveal_strlit("emblem-ok-symbolic");
    reveal_strlit("process-stop-symbolic");
    reveal_strlit("emblem-synchronizing-symbolic");
    reveal_strlit("alarm-symbolic");
    reveal_strlit("dialog-question-symbolic");
    reveal_strlit("success");
    reveal_strlit("error");
    reveal_strlit("warning");
    reveal_strlit("accent");
    reveal_strlit("");
    reveal_strlit("failure");
    reveal_strlit("cancelled");
    assert("emblem-ok-symbolic"@.len() == 18);
    assert("process-stop-symbolic"@.len() == 21);
    assert("emblem-synchronizing-symbolic"@.len() == 29);
    assert("alarm-symbolic"@.len() == 14);
    assert("dialog-question-symbolic"@.len() == 24);
    assert("success"@.len() == 7);
    assert("error"@.len() == 5);
    assert("warning"@.len() == 7);
    assert("accent"@.len() == 6);
    assert("failure"@.len() == 7);
    assert("cancelled"@.len() == 9);
    assert(""@.len() == 0);
    assert("success"@[0] == 's' && "failure"@[0] == 'f' && "warning"@[0] == 'w');
    assert("success"@ != "failure"@ && "success"@ != "cancelled"@ && "failure"@ != "cancelled"@);
    assert("emblem-ok-symbolic"@ != "process-stop-symbolic"@);
    assert("emblem-ok-symbolic"@ != "emblem-synchronizing-symbolic"@);
    assert("emblem-ok-symbolic"@ != "alarm-symbolic"@);
    assert("emblem-ok-symbolic"@ != "dialog-question-symbolic"@);
    assert("success"@ != "error"@ && "success"@ != "warning"@ && "success"@ != "accent"@
        && "success"@ != ""@);
    assert("error"@ != "warning"@ && "error"@ != "accent"@ && "error"@ != ""@);
}

/// The icon and style class of a run row in the run list window.
pub fn run_row_status(run: &WorkflowRun) -> (r: (&'static str, &'static str))
    ensures
        (r.0@, r.1@) == run_row_icon(*run),
{
    let completed = field_is(&run.status, "completed");
    if completed && field_is(&run.conclusion, "success") {
        ("emblem-ok-symbolic", "success")
    } else if completed && field_is(&run.conclusion, "failure") {
        ("process-stop-symbolic", "error")
    } else if completed && field_is(&run.conclusion, "cancelled") {
        ("process-stop-symbolic", "warning")
    } else if field_is(&run.status, "in_progress") {
        ("emblem-synchronizing-symbolic", "accent")
    } else if field_is(&run.status, "queued") {
        ("alarm-symbolic", "warning")
    } else {
        ("help-about-symbolic", "")
    }
}

/// The detail items of a run row: branch, triggering event and run number,
/// each when known.
pub open spec fn run_detail_items(run: WorkflowRun) -> Seq<Seq<char>> {
    let a = match run.head_branch {
        Some(b) => seq!["Branch: "@ + b@],
        None => Seq::empty(),
    };
    let b = match run.event {
        Some(e) => seq!["Event: "@ + e@],
        None => Seq::empty(),
    };
    let c = match run.run_number {
        Some(n) => seq!["Run #"@ + decimal_text(n as int)],
        None => Seq::empty(),
    };
    a + b + c
}

/// Items joined by ` • `.
pub open spec fn joined_by_bullet(items: Seq<Seq<char>>) -> Seq<char>
    decreases items.len(),
{
    if items.len() == 0 {
        Seq::empty()
    } else if items.len() == 1 {
        items[0]
    } else {
        joined_by_bullet(items.drop_last()) + " • "@ + items.last()
    }
}

/// Appends an item to a ` • `-separated line.
fn push_item(line: &mut String, count: &mut usize, item: &str, Ghost(items): Ghost<Seq<Seq<char>>>)
    requires
        *old(count) == items.len(),
        old(line)@ == joined_by_bullet(items),
        *old(count) < usize::MAX,
    ensures
        *final(count) == *old(count) + 1,
        final(line)@ == joined_by_bullet(items.push(item@)),
{
    if *count > 0 {
        line.append(" • ");
    }
    line.append(item);
    *count = *count + 1;
    assert(items.push(item@).drop_last() =~= items);
}

/// The detail line of a run row, or nothing when no detail is known.
pub fn run_row_details(run: &WorkflowRun) -> (line: Option<String>)
    ensures
        run_detail_items(*run).len() == 0 ==> line is None,
        run_detail_items(*run).len() > 0 ==> (line matches Some(l) && l@ == joined_by_bullet(
            run_detail_items(*run),
        )),
{
    let mut line = String::new();
    let mut count: usize = 0;
    let ghost mut items: Seq<Seq<char>> = Seq::empty();
    assert(line@ =~= joined_by_bullet(items));
    match &run.head_branch {
        Some(b) => {
            let mut item = String::from_str("Branch: ");
            item.append(b.as_str());
            push_item(&mut line, &mut count, item.as_str(), Ghost(items));
            proof {
                items = items.push(item@);
            }
        },
        None => {},
    }
    match &run.event {
        Some(e) => {
            let mut item = String::from_str("Event: ");
            item.append(e.as_str());
            push_item(&mut line, &mut count, item.as_str(), Ghost(items));
            proof {
                items = items.push(item@);
            }
        },
        None => {},
    }
    match run.run_number {
        Some(n) => {
            let mut item = String::from_str("Run #");
            push_decimal(&mut item, n as i128);
            push_item(&mut line, &mut count, item.as_str(), Ghost(items));
            proof {
                items = items.push(item@);
            }
        },
        None => {},
    }
    assert(items =~= run_detail_items(*run));
    if count == 0 {
        None
    } else {
        Some(line)
    }
}

/// The ids of a list of workflows.
pub open spec fn workflow_ids(ws: Seq<Workflow>) -> Set<i64> {
    Set::new(|id: i64| exists|i: int| 0 <= i < ws.len() && (#[trigger] ws[i]).id == id)
}

/// Two workflow lists differ when their lengths or their sets of ids differ.
pub open spec fn workflow_lists_differ(a: Seq<Workflow>, b: Seq<Workflow>) -> bool {
    a.len() != b.len() || workflow_ids(a) != workflow_ids(b)
}

/// A refreshed list equal to the shown one never causes a rebuild, and
/// whether two lists differ does not depend on which one is shown.
pub proof fn law_workflows_differ_symmetric(a: Seq<Workflow>, b: Seq<Workflow>)
    ensures
        !workflow_lists_differ(a, a),
        workflow_lists_differ(a, b) == workflow_lists_differ(b, a),
{
}

fn has_workflow_id(ws: &[Workflow], id: i64) -> (found: bool)
    ensures
        found == workflow_ids(ws@).contains(id),
{
    let mut i: usize = 0;
    while i < ws.len()
        invariant
            i <= ws@.len(),
            forall|t: int| 0 <= t < i ==> (#[trigger] ws@[t]).id != id,
        decreases ws@.len() - i,
    {
        if ws[i].id == id {
            assert(ws@[i as int].id == id);
            return true;
        }
        i = i + 1;
    }
    false
}

/// Whether every id of `a` occurs in `b`.
fn ids_included(a: &[Workflow], b: &[Workflow]) -> (inc: bool)
    ensures
        inc == workflow_ids(a@).subset_of(workflow_ids(b@)),
{
    let mut i: usize = 0;
    while i < a.len()
        invariant
            i <= a@.len(),
            forall|t: int| 0 <= t < i ==> workflow_ids(b@).contains((#[trigger] a@[t]).id),
        decreases a@.len() - i,
    {
        if !has_workflow_id(b, a[i].id) {
            assert(workflow_ids(a@).contains(a@[i as int].id));
            return false;
        }
        i = i + 1;
    }
    assert forall|id: i64| workflow_ids(a@).contains(id) implies workflow_ids(b@).contains(id) by {
        let t = choose|t: int| 0 <= t < a@.len() && (#[trigger] a@[t]).id == id;
    }
    true
}

/// Whether a refreshed workflow list differs from the shown one, which
/// decides if the list is rebuilt.
pub fn workflows_differ(a: &[Workflow], b: &[Workflow]) -> (differ: bool)
    ensures
        differ == workflow_lists_differ(a@, b@),
{
    if a.len() != b.len() {
        return true;
    }
    let same = ids_included(a, b) && ids_included(b, a);
    proof {
        if same {
            assert(workflow_ids(a@) =~= workflow_ids(b@));
        }
    }
    !same
}

/// The name of the expander of workflow `id`: `workflow_<id>`.
pub open spec fn expander_name(id: i64) -> Seq<char> {
    "workflow_"@ + decimal_text(id as int)
}

/// The workflow an expander name refers to: the number after the
/// `workflow_` prefix, if it parses.
pub open spec fn expander_workflow(name: Seq<char>) -> Option<i64> {
    let prefix = "workflow_"@;
    if name.len() >= prefix.len() && name.take(prefix.len() as int) == prefix {
        parsed_i64(name.skip(prefix.len() as int))
    } else {
        None
    }
}

/// Names the expander of a workflow, so its expansion survives a rebuild of
/// the list.
pub fn workflow_expander_name(id: i64) -> (name: String)
    ensures
        name@ == expander_name(id),
{
    let mut name = String::from_str("workflow_");
    push_decimal(&mut name, id as i128);
    name
}

/// Reads the workflow id back from an expander name.
pub fn expanded_workflow_id(name: &str) -> (id: Option<i64>)
    ensures
        id == expander_workflow(name@),
{
    let prefix = "workflow_";
    proof {
        reveal_strlit("workflow_");
    }
    let n = name.unicode_len();
    let p = prefix.unicode_len();
    if n < p {
        return None;
    }
    let head = name.substring_char(0, p);
    if !str_eq(head, prefix) {
        return None;
    }
    let tail = name.substring_char(p, n);
    assert(tail@ =~= name@.skip(p as int));
    assert(head@ =~= name@.take(p as int));
    parse_i64(tail)
}

/// An expander name read back gives the workflow it was made for.
pub proof fn law_expander_name_roundtrip(id: i64)
    ensures
        expander_workflow(expander_name(id)) == Some(id),
{
    reveal_strlit("workflow_");
    let name = expander_name(id);
    let prefix = "workflow_"@;
    assert(name.take(prefix.len() as int) =~= prefix);
    assert(name.skip(prefix.len() as int) =~= decimal_text(id as int));
    law_decimal_roundtrip(id);
}

/// Runs still moving (queued, in progress or waiting) mark their workflow as
/// active.
pub open spec fn any_pending(runs: Seq<WorkflowRun>) -> bool {
    exists|i: int| 0 <= i < runs.len() && is_pending_status((#[trigger] runs[i]).status)
}

/// Whether any of the runs is still moving.
pub fn has_active_runs(runs: &Vec<WorkflowRun>) -> (active: bool)
    ensures
        active == any_pending(runs@),
{
    let mut i: usize = 0;
    while i < runs.len()
        invariant
            i <= runs@.len(),
            forall|t: int| 0 <= t < i ==> !is_pending_status((#[trigger] runs@[t]).status),
        decreases runs@.len() - i,
    {
        if runs[i].is_active() {
            return true;
        }
        i = i + 1;
    }
    false
}

/// At most this many runs of a workflow are listed in the detail view.
pub const MAX_RUNS_SHOWN: usize = 10;

/// The runs listed for a workflow: the first ten.
pub fn runs_to_show(runs: &Vec<WorkflowRun>) -> (shown: usize)
    ensures
        shown == (if runs@.len() < MAX_RUNS_SHOWN {
            runs@.len()
        } else {
            MAX_RUNS_SHOWN as nat
        }),
{
    if runs.len() < MAX_RUNS_SHOWN {
        runs.len()
    } else {
        MAX_RUNS_SHOWN
    }
}

/// The heading above a workflow's runs: `Recent runs (<count>)`.
pub fn recent_runs_label(count: usize) -> (label: String)
    ensures
        label@ == "Recent runs ("@ + decimal_text(count as int) + ")"@,
{
    let mut label = String::from_str("Recent runs (");
    push_decimal(&mut label, count as i128);
    label.append(")");
    label
}

/// The marker appended to the expander name of a workflow with runs still
/// moving.
pub const ACTIVE_SUFFIX: &'static str = "_ACTIVE";

/// The characters of `_ACTIVE`.
pub open spec fn active_suffix() -> Seq<char> {
    seq!['_', 'A', 'C', 'T', 'I', 'V', 'E']
}

/// A name with every trailing `_ACTIVE` removed (as `trim_end_matches`
/// does).
pub open spec fn without_active_suffix(name: Seq<char>) -> Seq<char>
    decreases name.len(),
{
    let sfx = active_suffix();
    if name.len() >= sfx.len() && name.skip(name.len() - sfx.len()) == sfx {
        without_active_suffix(name.take(name.len() - sfx.len()))
    } else {
        name
    }
}

/// The expander name after a reload of its runs: the base name, marked
/// `_ACTIVE` when some run is still moving.
pub open spec fn marked_expander_name(name: Seq<char>, active: bool) -> Seq<char> {
    if active {
        without_active_suffix(name) + active_suffix()
    } else {
        without_active_suffix(name)
    }
}

/// Stripping the marker twice strips no more than once.
proof fn lemma_without_active_suffix_idempotent(name: Seq<char>)
    ensures
        without_active_suffix(without_active_suffix(name)) == without_active_suffix(name),
    decreases name.len(),
{
    let sfx = active_suffix();
    if name.len() >= sfx.len() && name.skip(name.len() - sfx.len()) == sfx {
        lemma_without_active_suffix_idempotent(name.take(name.len() - sfx.len()));
    }
}

/// A marked name loses exactly the marker that was added.
proof fn lemma_without_active_suffix_of_marked(name: Seq<char>)
    ensures
        without_active_suffix(name + active_suffix()) == without_active_suffix(name),
{
    let sfx = active_suffix();
    let m = name + sfx;
    assert(m.skip(m.len() - sfx.len()) =~= sfx);
    assert(m.take(m.len() - sfx.len()) =~= name);
}

/// After any number of reloads an expander carries only the mark of the
/// latest one: marking an already marked or unmarked name gives what
/// marking the original name would.
pub proof fn law_latest_mark_wins(name: Seq<char>, earlier: bool, latest: bool)
    ensures
        marked_expander_name(marked_expander_name(name, earlier), latest) == marked_expander_name(
            name,
            latest,
        ),
{
    lemma_without_active_suffix_idempotent(name);
    if earlier {
        lemma_without_active_suffix_of_marked(without_active_suffix(name));
    }
}

/// An expander whose workflow has no runs still moving keeps a name from
/// which its workflow id reads back.
pub proof fn law_unmarked_expander_roundtrip(id: i64)
    ensures
        expander_workflow(marked_expander_name(expander_name(id), false)) == Some(id),
{
    let name = expander_name(id);
    let sfx = active_suffix();
    reveal_strlit("workflow_");
    lemma_decimal_text_ends_in_digit(id as int);
    assert(name.last() == decimal_text(id as int).last());
    if name.len() >= sfx.len() && name.skip(name.len() - sfx.len()) == sfx {
        assert(name.skip(name.len() - sfx.len()).last() == name.last());
        assert(false);
    }
    assert(without_active_suffix(name) == name);
    law_expander_name_roundtrip(id);
}

/// An expander name, marked or not, reads back the workflow it was made
/// for once its mark is taken off.
pub proof fn law_marked_expander_reads_back(id: i64, active: bool)
    ensures
        expander_workflow(without_active_suffix(marked_expander_name(expander_name(id), active)))
            == Some(id),
{
    law_unmarked_expander_roundtrip(id);
    law_latest_mark_wins(expander_name(id), active, false);
}

/// Marks or unmarks a workflow expander as having active runs.
pub fn mark_expander_name(name: &str, active: bool) -> (marked: String)
    ensures
        marked@ == marked_expander_name(name@, active),
{
    proof {
        reveal_strlit("_ACTIVE");
        assert(ACTIVE_SUFFIX@ =~= active_suffix());
    }
    let sfx_len = ACTIVE_SUFFIX.unicode_len();
    let mut end = name.unicode_len();
    assert(name@.take(end as int) =~= name@);
    while end >= sfx_len && str_eq(name.substring_char(end - sfx_len, end), ACTIVE_SUFFIX)
        invariant
            end <= name@.len(),
            ACTIVE_SUFFIX@ == active_suffix(),
            sfx_len == 7,
            without_active_suffix(name@.take(end as int)) == without_active_suffix(name@),
        decreases end,
    {
        let ghost cur = name@.take(end as int);
        assert(cur.skip(cur.len() - sfx_len) =~= name@.subrange(end - sfx_len, end as int));
        assert(cur.take(cur.len() - sfx_len) =~= name@.take(end - sfx_len));
        end = end - sfx_len;
    }
    let base = name.substring_char(0, end);
    proof {
        let cur = name@.take(end as int);
        assert(base@ =~= cur);
        if cur.len() >= sfx_len {
            assert(cur.skip(cur.len() - sfx_len) =~= name@.subrange(end - sfx_len, end as int));
        }
        assert(without_active_suffix(cur) == cur);
    }
    let mut marked = String::from_str(base);
    if active {
        marked.append(ACTIVE_SUFFIX);
    }
    marked
}

} // verus!
