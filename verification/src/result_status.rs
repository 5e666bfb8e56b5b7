use vstd::prelude::*;

verus! {

/// Outcome tag carried by every command response.
#[derive(Debug, Clone, Copy, PartialEq, Eq, Structural)]
pub enum ResultStatus {
    Okay,
    Error,
}

impl ResultStatus {
    /// The tag as it is written on the wire.
    pub open spec fn wire_name(self) -> Seq<char> {
        match self {
            ResultStatus::Okay => "ok"@,
            ResultStatus::Error => "error"@,
        }
    }

    /// Lower-case tag used when the status is serialised.
    pub fn as_str(&self) -> (name: &'static str)
        ensures
            name@ == self.wire_name(),
    {
        match self {
            ResultStatus::Okay => "ok",
            ResultStatus::Error => "error",
        }
    }
}

} // verus!
