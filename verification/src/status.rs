//! The closed set of task states the search endpoint can filter on.

use vstd::prelude::*;

verus! {

/// A status filter for the task search; each variant maps to the literal
/// query-string token the service expects, with spaces encoded as `+`.
#[derive(Debug)]
pub enum StatusFilter {
    New,
    Incomplete,
    Opinion,
    Invalid,
    WontFix,
    Confirmed,
    Triaged,
    InProgress,
    Deferred,
    FixCommitted,
    FixReleased,
}

/// The query-string token for a filter, as a sequence of characters.
pub open spec fn spec_token(f: StatusFilter) -> Seq<char> {
    match f {
        StatusFilter::New => "New"@,
        StatusFilter::Incomplete => "Incomplete"@,
        StatusFilter::Opinion => "Opinion"@,
        StatusFilter::Invalid => "Invalid"@,
        StatusFilter::WontFix => "Won't+Fix"@,
        StatusFilter::Confirmed => "Confirmed"@,
        StatusFilter::Triaged => "Triaged"@,
        StatusFilter::InProgress => "In+Progress"@,
        StatusFilter::Deferred => "Deferred"@,
        StatusFilter::FixCommitted => "Fix+Committed"@,
        StatusFilter::FixReleased => "Fix+Released"@,
    }
}

impl StatusFilter {
    /// The literal query-string token for this filter.
    pub fn token(&self) -> (r: String)
        ensures
            r@ == spec_token(*self),
    {
        match self {
            StatusFilter::New => String::from_str("New"),
            StatusFilter::Incomplete => String::from_str("Incomplete"),
            StatusFilter::Opinion => String::from_str("Opinion"),
            StatusFilter::Invalid => String::from_str("Invalid"),
            StatusFilter::WontFix => String::from_str("Won't+Fix"),
            StatusFilter::Confirmed => String::from_str("Confirmed"),
            StatusFilter::Triaged => String::from_str("Triaged"),
            StatusFilter::InProgress => String::from_str("In+Progress"),
            StatusFilter::Deferred => String::from_str("Deferred"),
            StatusFilter::FixCommitted => String::from_str("Fix+Committed"),
            StatusFilter::FixReleased => String::from_str("Fix+Released"),
        }
    }
}

} // verus!
