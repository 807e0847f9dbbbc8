use vstd::prelude::*;

verus! {

/// A diagnostic tag attached to a record when the capture is degraded.
#[derive(Debug, Clone, Copy, PartialEq, Eq, Structural)]
pub enum Warning {
    /// The binary carries no debug information, so frames lose their locations.
    CompiledWithoutDebugInfo,
}

/// The fixed human-readable description of a warning.
pub open spec fn warning_text(w: Warning) -> Seq<char> {
    match w {
        Warning::CompiledWithoutDebugInfo =>
            "File was compiled without debug info, meaning information was lost"@,
    }
}

impl Warning {
    /// The description that a record carries for this warning.
    pub fn to_string(&self) -> (r: String)
        ensures
            r@ == warning_text(*self),
    {
        match self {
            Warning::CompiledWithoutDebugInfo => {
                let s = "File was compiled without debug info, meaning information was lost";
                proof {
                    reveal_strlit("File was compiled without debug info, meaning information was lost");
                }
                s.to_string()
            },
        }
    }
}

} // verus!
