//! Detection of the desktop portal's Secret interface: the opt-in flag and
//! the reading of the portal's introspection data.
use crate::text::{contains_str, contains_text, str_eq};
use vstd::prelude::*;

verus! {

/// The environment variable that opts into portal detection.
pub const DETECTION_ENV: &'static str = "ACTIONEER_ENABLE_SECRET_PORTAL";

/// The bus name of the desktop portal.
pub const PORTAL_BUS_NAME: &'static str = "org.freedesktop.portal.Desktop";

/// The object path of the desktop portal.
pub const PORTAL_OBJECT_PATH: &'static str = "/org/freedesktop/portal/desktop";

/// The interface whose `Introspect` call lists the portal's interfaces.
pub const INTROSPECT_INTERFACE: &'static str = "org.freedesktop.DBus.Introspectable";

/// How long the introspection call may take, in milliseconds.
pub const INTROSPECT_TIMEOUT_MS: i32 = 5000;

/// The D-Bus interface whose presence means the Secret portal is available.
pub const SECRET_INTERFACE: &'static str = "org.freedesktop.portal.Secret";

/// The spellings that switch a flag on.
pub open spec fn is_truthy(value: Seq<char>) -> bool {
    value == "1"@ || value == "true"@ || value == "TRUE"@ || value == "True"@ || value == "yes"@
        || value == "YES"@ || value == "Yes"@ || value == "on"@ || value == "ON"@ || value == "On"@
}

/// Whether a flag value is one of `1`, `true`, `yes` or `on` (all lower, all
/// upper or capitalized).
pub fn parse_flag(value: &str) -> (on: bool)
    ensures
        on == is_truthy(value@),
{
    str_eq(value, "1") || str_eq(value, "true") || str_eq(value, "TRUE") || str_eq(value, "True")
        || str_eq(value, "yes") || str_eq(value, "YES") || str_eq(value, "Yes") || str_eq(
        value,
        "on",
    ) || str_eq(value, "ON") || str_eq(value, "On")
}

/// Whether detection is requested, given the value of the opt-in variable
/// (absent means no).
pub fn detection_enabled_for(value: Option<&str>) -> (on: bool)
    ensures
        on == match value {
            Some(v) => is_truthy(v@),
            None => false,
        },
{
    match value {
        Some(v) => parse_flag(v),
        None => false,
    }
}

/// Whether the portal's introspection XML advertises the Secret interface.
pub fn advertises_secret_interface(xml: &str) -> (found: bool)
    ensures
        found == contains_text(xml@, SECRET_INTERFACE@),
{
    contains_str(xml, SECRET_INTERFACE)
}

/// Why the portal could not be inspected.
#[derive(Debug, Clone, PartialEq)]
pub enum PortalDetectionError {
    /// The session bus, the proxy or the introspection call failed; the bus
    /// error's description.
    Bus(String),
    /// The introspection reply held no string.
    UnexpectedIntrospection,
}

/// The text of a detection error.
pub open spec fn portal_error_text(e: PortalDetectionError) -> Seq<char> {
    match e {
        PortalDetectionError::Bus(m) => "failed to connect to session bus: "@ + m@,
        PortalDetectionError::UnexpectedIntrospection => "portal introspection response was not a string"@,
    }
}

impl PortalDetectionError {
    /// Describes the error.
    pub fn message(&self) -> (m: String)
        ensures
            m@ == portal_error_text(*self),
    {
        match self {
            PortalDetectionError::Bus(detail) => {
                let mut m = String::from_str("failed to connect to session bus: ");
                m.append(detail.as_str());
                m
            },
            PortalDetectionError::UnexpectedIntrospection => String::from_str(
                "portal introspection response was not a string",
            ),
        }
    }
}

/// The answer of the detection from the introspection reply: the string it
/// held, if any. Without a string the reply is unexpected; with one, the
/// portal is available when the XML names the Secret interface.
pub fn secret_portal_answer(xml: Option<&str>) -> (r: Result<bool, PortalDetectionError>)
    ensures
        match xml {
            Some(x) => r == Ok::<bool, PortalDetectionError>(contains_text(x@, SECRET_INTERFACE@)),
            None => r == Err::<bool, PortalDetectionError>(
                PortalDetectionError::UnexpectedIntrospection,
            ),
        },
{
    match xml {
        Some(x) => Ok(advertises_secret_interface(x)),
        None => Err(PortalDetectionError::UnexpectedIntrospection),
    }
}

} // verus!
