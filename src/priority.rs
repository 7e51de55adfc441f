use vstd::prelude::*;
use vstd::string::StringExecFns;

verus! {

/// How urgently the receiving service should present a notification.
#[derive(Clone, Copy, Debug, PartialEq, Eq, Structural)]
pub enum NtfyPriority {
    Min,
    Low,
    Default,
    High,
    Max,
}

/// The lowercase name of a priority, as sent in the `Priority` header.
pub open spec fn priority_name(p: NtfyPriority) -> Seq<char> {
    match p {
        NtfyPriority::Min => "min"@,
        NtfyPriority::Low => "low"@,
        NtfyPriority::Default => "default"@,
        NtfyPriority::High => "high"@,
        NtfyPriority::Max => "max"@,
    }
}

impl NtfyPriority {
    /// The lowercase name of this priority.
    pub fn name(&self) -> (r: String)
        ensures
            r@ == priority_name(*self),
    {
        match self {
            NtfyPriority::Min => String::from_str("min"),
            NtfyPriority::Low => String::from_str("low"),
            NtfyPriority::High => String::from_str("high"),
            NtfyPriority::Max => String::from_str("max"),
            NtfyPriority::Default => String::from_str("default"),
        }
    }
}

} // verus!
