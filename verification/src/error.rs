use vstd::prelude::*;

verus! {

/// Mathematical image of an [`RtBoxError`]: each field as an optional
/// character sequence.
pub ghost struct RtBoxErrorV {
    pub command: Option<Seq<char>>,
    pub message: Option<Seq<char>>,
    pub root_cause: Option<Seq<char>>,
}

/// View of an optional owned string as an optional character sequence.
pub open spec fn opt_str_view(o: Option<String>) -> Option<Seq<char>> {
    match o {
        Some(s) => Some(s@),
        None => None,
    }
}

/// The structured shape every failing command surfaces: the command that
/// failed, a human-readable message, and the root cause reported by the
/// container runtime.  A command either yields its typed success value or
/// exactly one value of this type — never a silent no-op.
#[derive(Debug, Clone)]
pub struct RtBoxError {
    pub command: Option<String>,
    pub message: Option<String>,
    pub root_cause: Option<String>,
}

impl View for RtBoxError {
    type V = RtBoxErrorV;

    open spec fn view(&self) -> RtBoxErrorV {
        RtBoxErrorV {
            command: opt_str_view(self.command),
            message: opt_str_view(self.message),
            root_cause: opt_str_view(self.root_cause),
        }
    }
}

} // verus!
