use vstd::prelude::*;

verus! {

/// The five-level internal classification derived from an event's kind.
#[derive(Clone, Copy, PartialEq, Eq, Structural, Debug)]
pub enum Severity {
    Debug,
    Info,
    Warning,
    Error,
    Fatal,
}

/// The lowercase string form of a severity, as it is compared against the
/// accepted-severity labels of the configuration.
pub open spec fn severity_label(s: Severity) -> Seq<char> {
    match s {
        Severity::Debug => "debug"@,
        Severity::Info => "info"@,
        Severity::Warning => "warning"@,
        Severity::Error => "error"@,
        Severity::Fatal => "fatal"@,
    }
}

/// Which severity a lowercased event kind stands for: the kind `"normal"`
/// maps to `Info`, every severity name maps to itself, and anything else is
/// unrecognized.
pub open spec fn spec_parse_severity(kind: Seq<char>) -> Option<Severity> {
    if kind == "normal"@ {
        Some(Severity::Info)
    } else if kind == "debug"@ {
        Some(Severity::Debug)
    } else if kind == "info"@ {
        Some(Severity::Info)
    } else if kind == "warning"@ {
        Some(Severity::Warning)
    } else if kind == "error"@ {
        Some(Severity::Error)
    } else if kind == "fatal"@ {
        Some(Severity::Fatal)
    } else {
        None
    }
}

impl Severity {
    /// The lowercase name of this severity.
    pub fn label(&self) -> (r: &'static str)
        ensures
            r@ == severity_label(*self),
    {
        match self {
            Severity::Debug => "debug",
            Severity::Info => "info",
            Severity::Warning => "warning",
            Severity::Error => "error",
            Severity::Fatal => "fatal",
        }
    }
}

/// Maps a lowercased event kind to its severity, exactly as
/// `spec_parse_severity` says.
pub fn parse_severity(kind: &str) -> (r: Option<Severity>)
    ensures
        r == spec_parse_severity(kind@),
{
    if crate::text::str_eq(kind, "normal") {
        Some(Severity::Info)
    } else if crate::text::str_eq(kind, "debug") {
        Some(Severity::Debug)
    } else if crate::text::str_eq(kind, "info") {
        Some(Severity::Info)
    } else if crate::text::str_eq(kind, "warning") {
        Some(Severity::Warning)
    } else if crate::text::str_eq(kind, "error") {
        Some(Severity::Error)
    } else if crate::text::str_eq(kind, "fatal") {
        Some(Severity::Fatal)
    } else {
        None
    }
}

} // verus!
