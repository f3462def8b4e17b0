//! The records the service serves, and the errors this library reports.

use vstd::prelude::*;

verus! {

/// A point in time, kept as microseconds since the Unix epoch in UTC.
///
/// The wire format carries ISO-8601 text with a timezone offset; the trusted
/// parser in [`crate::decode`] reduces it to this plain form, which is all
/// the logic here reads of a date.
#[derive(Debug, Clone, Copy, PartialEq, Eq, Structural)]
pub struct Timestamp {
    pub micros: i64,
}

/// What went wrong while turning a payload into a record.
#[derive(Debug, Clone, PartialEq, Eq)]
pub enum DecodeError {
    /// The payload is not JSON at all.
    NotJson,
    /// The parser failed for another reason; its message is kept.
    Json(String),
    /// The payload is a JSON document of the wrong top-level shape.
    NotObject,
    /// A required field is absent; the field's name is kept.
    MissingField(String),
    /// A field holds a value of the wrong type, or one out of range; the
    /// field's name is kept.
    WrongType(String),
}

/// The spec-level description of a decode failure, over character
/// sequences; [`decode_error_matches`] ties it to the error a decoder
/// actually returns.
pub enum DecodeIssue {
    NotJson,
    Parser,
    NotObject,
    MissingField(Seq<char>),
    WrongType(Seq<char>),
}

/// Whether the error `e` reports exactly the failure `i` describes.  The
/// parser's own message is the one detail left open.
pub open spec fn decode_error_matches(e: DecodeError, i: DecodeIssue) -> bool {
    match i {
        DecodeIssue::NotJson => e is NotJson,
        DecodeIssue::Parser => e is Json,
        DecodeIssue::NotObject => e is NotObject,
        DecodeIssue::MissingField(f) => match e {
            DecodeError::MissingField(s) => s@ == f,
            _ => false,
        },
        DecodeIssue::WrongType(f) => match e {
            DecodeError::WrongType(s) => s@ == f,
            _ => false,
        },
    }
}

/// Everything a fetch can fail with.
#[derive(Debug, Clone, PartialEq, Eq)]
pub enum LaunchpadError {
    /// The transport could not complete the round trip; its message is kept.
    HttpRequest(String),
    /// The payload arrived but did not decode as the expected record shape.
    Deserialization(DecodeError),
    /// The named project does not exist on the service: its resource came
    /// back as something other than the project record asked for.
    InvalidProject(String),
    /// A pagination chain ran past the page budget; a defensive bound, so
    /// a misbehaving server issuing cyclic cursors cannot keep a fetch
    /// running forever.
    TooManyPages,
}

/// One task entry of a record-list page.
#[derive(Debug, Clone, PartialEq, Eq)]
pub struct BugTaskEntry {
    pub self_link: String,
    pub web_link: String,
    pub resource_type_link: String,
    pub bug_link: String,
    pub milestone_link: Option<String>,
    pub status: String,
    pub importance: String,
    pub assignee_link: Option<String>,
    pub bug_target_display_name: String,
    pub bug_target_name: String,
    pub bug_watch_link: Option<String>,
    pub date_assigned: Option<Timestamp>,
    pub date_created: Option<Timestamp>,
    pub date_confirmed: Option<Timestamp>,
    pub date_incomplete: Option<Timestamp>,
    pub date_in_progress: Option<Timestamp>,
    pub date_closed: Option<Timestamp>,
    pub date_left_new: Option<Timestamp>,
    pub date_triaged: Option<Timestamp>,
    pub date_fix_committed: Option<Timestamp>,
    pub date_fix_released: Option<Timestamp>,
    pub date_left_closed: Option<Timestamp>,
    pub date_deferred: Option<Timestamp>,
    pub owner_link: Option<String>,
    pub target_link: String,
    pub title: String,
    pub related_tasks_collection_link: String,
    pub is_complete: bool,
    pub http_etag: String,
}

impl BugTaskEntry {
    /// The id of the record behind this entry: the trailing number of
    /// its `bug_link`, when there is one and it fits a `u32`.
    pub fn get_id(&self) -> (r: Option<u32>)
        ensures
            r == crate::text::spec_trailing_id(self.bug_link@),
    {
        crate::text::trailing_id(self.bug_link.as_str())
    }
}

/// One page of a record-list response.  The server-declared
/// `next_collection_link` is the sole pagination signal: a page without one
/// is terminal.
#[derive(Debug, Clone, PartialEq, Eq)]
pub struct LaunchpadBugTasksResponse {
    pub start: u32,
    pub total_size: u32,
    pub next_collection_link: Option<String>,
    pub entries: Vec<BugTaskEntry>,
}

/// The full record fetched by id.
#[derive(Debug, Clone, PartialEq, Eq)]
pub struct LaunchpadBug {
    pub self_link: String,
    pub web_link: String,
    pub resource_type_link: String,
    pub id: u32,
    pub private: bool,
    pub information_type: String,
    pub name: Option<String>,
    pub title: String,
    pub description: String,
    pub owner_link: String,
    pub bug_tasks_collection_link: String,
    pub duplicate_of_link: Option<String>,
    pub date_created: Option<Timestamp>,
    pub activity_collection_link: String,
    pub can_expire: bool,
    pub subscriptions_collection_link: String,
    pub date_last_updated: Option<Timestamp>,
    pub who_made_private_link: Option<String>,
    pub date_made_private: Option<Timestamp>,
    pub heat: u32,
    pub bug_watches_collection_link: String,
    pub cves_collection_link: String,
    pub vulnerabilities_collection_link: String,
    pub duplicates_collection_link: String,
    pub attachments_collection_link: String,
    pub security_related: bool,
    pub latest_patch_uploaded: Option<String>,
    pub tags: Vec<String>,
    pub date_last_message: Option<Timestamp>,
    pub number_of_duplicates: u32,
    pub message_count: u32,
    pub users_affected_count: u32,
    pub users_unaffected_count: u32,
    pub users_affected_collection_link: String,
    pub users_unaffected_collection_link: String,
    pub users_affected_count_with_dupes: u32,
    pub other_users_affected_count_with_dupes: u32,
    pub users_affected_with_dupes_collection_link: String,
    pub messages_collection_link: String,
    pub linked_branches_collection_link: String,
    pub http_etag: String,
}

} // verus!
