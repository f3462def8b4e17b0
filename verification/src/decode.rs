//! Turning parsed payloads into records.
//!
//! The helpers here read one field each out of a JSON object's field list,
//! with the conventions the wire format uses: required scalars, optional
//! strings where either an absent key or a null reads as "no value", and
//! timestamps where an absent key, a null and an empty string all decode to
//! "no value" and never to an error.

use vstd::prelude::*;

use crate::json::{spec_lookup, lookup, parse_json, spec_parse_json, JsonValue, ParseOutcome};
use crate::model::{
    decode_error_matches, BugTaskEntry, DecodeError, DecodeIssue, LaunchpadBug,
    LaunchpadBugTasksResponse, Timestamp,
};

verus! {

/// Whether the decoded result `r` is the one the spec-level decode `s`
/// calls for: equal on success, and on failure an error that reports the
/// described issue.
pub open spec fn result_matches<T>(r: Result<T, DecodeError>, s: Result<T, DecodeIssue>) -> bool {
    match (r, s) {
        (Ok(a), Ok(b)) => a == b,
        (Err(e), Err(i)) => decode_error_matches(e, i),
        (Ok(_), Err(_)) => false,
        (Err(_), Ok(_)) => false,
    }
}

/// A required string field.
pub open spec fn spec_req_string(
    fs: Seq<(String, JsonValue)>,
    key: Seq<char>,
) -> Result<String, DecodeIssue> {
    match spec_lookup(fs, key) {
        Option::None => Err(DecodeIssue::MissingField(key)),
        Option::Some(JsonValue::Str(s)) => Ok(s),
        Option::Some(_) => Err(DecodeIssue::WrongType(key)),
    }
}

/// An optional string field: an absent key and a null both read as no
/// value.
pub open spec fn spec_opt_string(
    fs: Seq<(String, JsonValue)>,
    key: Seq<char>,
) -> Result<Option<String>, DecodeIssue> {
    match spec_lookup(fs, key) {
        Option::None => Ok(Option::None),
        Option::Some(JsonValue::Null) => Ok(Option::None),
        Option::Some(JsonValue::Str(s)) => Ok(Option::Some(s)),
        Option::Some(_) => Err(DecodeIssue::WrongType(key)),
    }
}

/// A required unsigned integer field that must fit in a `u32`.
pub open spec fn spec_req_u32(
    fs: Seq<(String, JsonValue)>,
    key: Seq<char>,
) -> Result<u32, DecodeIssue> {
    match spec_lookup(fs, key) {
        Option::None => Err(DecodeIssue::MissingField(key)),
        Option::Some(JsonValue::UInt(u)) => if u <= u32::MAX {
            Ok(u as u32)
        } else {
            Err(DecodeIssue::WrongType(key))
        },
        Option::Some(_) => Err(DecodeIssue::WrongType(key)),
    }
}

/// A required boolean field.
pub open spec fn spec_req_bool(
    fs: Seq<(String, JsonValue)>,
    key: Seq<char>,
) -> Result<bool, DecodeIssue> {
    match spec_lookup(fs, key) {
        Option::None => Err(DecodeIssue::MissingField(key)),
        Option::Some(JsonValue::Bool(b)) => Ok(b),
        Option::Some(_) => Err(DecodeIssue::WrongType(key)),
    }
}

/// Names what chrono's ISO-8601 parse makes of a text: the same text always
/// parses the same way, to the same microsecond count or to no value.
pub uninterp spec fn spec_parse_datetime(s: Seq<char>) -> Option<Timestamp>;

/// Relies on chrono's `FromStr` for `DateTime<Utc>` (an ISO-8601 date-time
/// with timezone offset) and on `DateTime::timestamp_micros`; the result is
/// a function of the text alone.
#[verifier::external_body]
pub fn parse_datetime(s: &str) -> (r: Option<Timestamp>)
    ensures
        r == spec_parse_datetime(s@),
{
    match s.parse::<chrono::DateTime<chrono::Utc>>() {
        Ok(dt) => Some(Timestamp { micros: dt.timestamp_micros() }),
        Err(_) => None,
    }
}

/// An optional timestamp field: an absent key, a null and an empty string
/// all read as no value; a non-empty string reads as whatever the date
/// parse makes of it, unparseable text again as no value.
pub open spec fn spec_opt_timestamp(
    fs: Seq<(String, JsonValue)>,
    key: Seq<char>,
) -> Result<Option<Timestamp>, DecodeIssue> {
    match spec_lookup(fs, key) {
        Option::None => Ok(Option::None),
        Option::Some(JsonValue::Null) => Ok(Option::None),
        Option::Some(JsonValue::Str(s)) => if s@.len() == 0 {
            Ok(Option::None)
        } else {
            Ok(spec_parse_datetime(s@))
        },
        Option::Some(_) => Err(DecodeIssue::WrongType(key)),
    }
}

/// A timestamp field that is missing, null or an empty string decodes to no
/// value, never to an error.
pub proof fn lemma_timestamp_absent_is_no_value(fs: Seq<(String, JsonValue)>, key: Seq<char>)
    requires
        spec_lookup(fs, key) is None
        || spec_lookup(fs, key) == Some(JsonValue::Null)
        || (match spec_lookup(fs, key) {
            Option::Some(JsonValue::Str(s)) => s@.len() == 0,
            _ => false,
        }),
    ensures
        spec_opt_timestamp(fs, key) == Ok::<Option<Timestamp>, DecodeIssue>(Option::None),
{
}

/// Whether every element of `items` is a string.
pub open spec fn all_strings(items: Seq<JsonValue>) -> bool {
    forall|i: int| 0 <= i < items.len() ==> items[i] is Str
}

/// The strings of `items`, in order; meaningful when every element is one.
pub open spec fn string_items(items: Seq<JsonValue>) -> Seq<String> {
    items.map(|i: int, v: JsonValue| v->Str_0)
}

/// A required array-of-strings field.
pub open spec fn spec_req_string_array(
    fs: Seq<(String, JsonValue)>,
    key: Seq<char>,
) -> Result<Seq<String>, DecodeIssue> {
    match spec_lookup(fs, key) {
        Option::None => Err(DecodeIssue::MissingField(key)),
        Option::Some(JsonValue::Arr(items)) => if all_strings(items@) {
            Ok(string_items(items@))
        } else {
            Err(DecodeIssue::WrongType(key))
        },
        Option::Some(_) => Err(DecodeIssue::WrongType(key)),
    }
}

/// Finds the field named `key` and requires it to be a string.
pub fn req_string(fields: &Vec<(String, JsonValue)>, key: &str) -> (r: Result<String, DecodeError>)
    ensures
        result_matches(r, spec_req_string(fields@, key@)),
{
    match lookup(fields, key) {
        None => Err(DecodeError::MissingField(String::from_str(key))),
        Some(v) => match v {
            JsonValue::Str(s) => Ok(s.clone()),
            _ => Err(DecodeError::WrongType(String::from_str(key))),
        },
    }
}

/// Finds the field named `key` if present; a null or an absent key reads as
/// no value.
pub fn opt_string(fields: &Vec<(String, JsonValue)>, key: &str) -> (r: Result<
    Option<String>,
    DecodeError,
>)
    ensures
        result_matches(r, spec_opt_string(fields@, key@)),
{
    match lookup(fields, key) {
        None => Ok(None),
        Some(v) => match v {
            JsonValue::Null => Ok(None),
            JsonValue::Str(s) => Ok(Some(s.clone())),
            _ => Err(DecodeError::WrongType(String::from_str(key))),
        },
    }
}

/// Finds the field named `key` and requires it to be an unsigned integer
/// that fits in a `u32`.
pub fn req_u32(fields: &Vec<(String, JsonValue)>, key: &str) -> (r: Result<u32, DecodeError>)
    ensures
        result_matches(r, spec_req_u32(fields@, key@)),
{
    match lookup(fields, key) {
        None => Err(DecodeError::MissingField(String::from_str(key))),
        Some(v) => match v {
            JsonValue::UInt(u) => if *u <= u32::MAX as u64 {
                Ok(*u as u32)
            } else {
                Err(DecodeError::WrongType(String::from_str(key)))
            },
            _ => Err(DecodeError::WrongType(String::from_str(key))),
        },
    }
}

/// Finds the field named `key` and requires it to be a boolean.
pub fn req_bool(fields: &Vec<(String, JsonValue)>, key: &str) -> (r: Result<bool, DecodeError>)
    ensures
        result_matches(r, spec_req_bool(fields@, key@)),
{
    match lookup(fields, key) {
        None => Err(DecodeError::MissingField(String::from_str(key))),
        Some(v) => match v {
            JsonValue::Bool(b) => Ok(*b),
            _ => Err(DecodeError::WrongType(String::from_str(key))),
        },
    }
}

/// Finds the field named `key` and requires it to be an array of strings.
#[verifier::loop_isolation(false)]
pub fn req_string_array(fields: &Vec<(String, JsonValue)>, key: &str) -> (r: Result<
    Vec<String>,
    DecodeError,
>)
    ensures
        match (r, spec_req_string_array(fields@, key@)) {
            (Ok(v), Ok(s)) => v@ == s,
            (Err(e), Err(i)) => decode_error_matches(e, i),
            (Ok(_), Err(_)) => false,
            (Err(_), Ok(_)) => false,
        },
{
    match lookup(fields, key) {
        None => Err(DecodeError::MissingField(String::from_str(key))),
        Some(v) => match v {
            JsonValue::Arr(items) => {
                let n = items.len();
                let mut out: Vec<String> = Vec::new();
                let mut i: usize = 0;
                while i < n
                    invariant
                        n == items@.len(),
                        i <= n,
                        out@.len() == i,
                        forall|j: int| 0 <= j < i ==> items@[j] is Str,
                        forall|j: int| 0 <= j < i ==> out@[j] == items@[j]->Str_0,
                    decreases n - i,
                {
                    match &items[i] {
                        JsonValue::Str(s) => out.push(s.clone()),
                        _ => {
                            assert(!(items@[i as int] is Str));
                            assert(!all_strings(items@));
                            return Err(DecodeError::WrongType(String::from_str(key)));
                        },
                    }
                    i = i + 1;
                }
                assert(out@ =~= string_items(items@));
                Ok(out)
            },
            _ => Err(DecodeError::WrongType(String::from_str(key))),
        },
    }
}

/// Reads the timestamp field named `key`: absent, null and empty-string all
/// decode to no value, never to an error.
pub fn opt_timestamp(fields: &Vec<(String, JsonValue)>, key: &str) -> (r: Result<
    Option<Timestamp>,
    DecodeError,
>)
    ensures
        result_matches(r, spec_opt_timestamp(fields@, key@)),
{
    match lookup(fields, key) {
        None => Ok(None),
        Some(v) => match v {
            JsonValue::Null => Ok(None),
            JsonValue::Str(s) => if s.as_str().is_empty() {
                Ok(None)
            } else {
                Ok(parse_datetime(s.as_str()))
            },
            _ => Err(DecodeError::WrongType(String::from_str(key))),
        },
    }
}

/// What decoding one task entry makes of an object's field list: the first
/// field, in declaration order, that is absent or ill-typed decides the
/// failure; otherwise the entry is built from the fields.
pub open spec fn spec_entry_from(fs: Seq<(String, JsonValue)>) -> Result<BugTaskEntry, DecodeIssue> {
    if spec_req_string(fs, "self_link"@) is Err {
        Err(spec_req_string(fs, "self_link"@)->Err_0)
    } else if spec_req_string(fs, "web_link"@) is Err {
        Err(spec_req_string(fs, "web_link"@)->Err_0)
    } else if spec_req_string(fs, "resource_type_link"@) is Err {
        Err(spec_req_string(fs, "resource_type_link"@)->Err_0)
    } else if spec_req_string(fs, "bug_link"@) is Err {
        Err(spec_req_string(fs, "bug_link"@)->Err_0)
    } else if spec_opt_string(fs, "milestone_link"@) is Err {
        Err(spec_opt_string(fs, "milestone_link"@)->Err_0)
    } else if spec_req_string(fs, "status"@) is Err {
        Err(spec_req_string(fs, "status"@)->Err_0)
    } else if spec_req_string(fs, "importance"@) is Err {
        Err(spec_req_string(fs, "importance"@)->Err_0)
    } else if spec_opt_string(fs, "assignee_link"@) is Err {
        Err(spec_opt_string(fs, "assignee_link"@)->Err_0)
    } else if spec_req_string(fs, "bug_target_display_name"@) is Err {
        Err(spec_req_string(fs, "bug_target_display_name"@)->Err_0)
    } else if spec_req_string(fs, "bug_target_name"@) is Err {
        Err(spec_req_string(fs, "bug_target_name"@)->Err_0)
    } else if spec_opt_string(fs, "bug_watch_link"@) is Err {
        Err(spec_opt_string(fs, "bug_watch_link"@)->Err_0)
    } else if spec_opt_timestamp(fs, "date_assigned"@) is Err {
        Err(spec_opt_timestamp(fs, "date_assigned"@)->Err_0)
    } else if spec_opt_timestamp(fs, "date_created"@) is Err {
        Err(spec_opt_timestamp(fs, "date_created"@)->Err_0)
    } else if spec_opt_timestamp(fs, "date_confirmed"@) is Err {
        Err(spec_opt_timestamp(fs, "date_confirmed"@)->Err_0)
    } else if spec_opt_timestamp(fs, "date_incomplete"@) is Err {
        Err(spec_opt_timestamp(fs, "date_incomplete"@)->Err_0)
    } else if spec_opt_timestamp(fs, "date_in_progress"@) is Err {
        Err(spec_opt_timestamp(fs, "date_in_progress"@)->Err_0)
    } else if spec_opt_timestamp(fs, "date_closed"@) is Err {
        Err(spec_opt_timestamp(fs, "date_closed"@)->Err_0)
    } else if spec_opt_timestamp(fs, "date_left_new"@) is Err {
        Err(spec_opt_timestamp(fs, "date_left_new"@)->Err_0)
    } else if spec_opt_timestamp(fs, "date_triaged"@) is Err {
        Err(spec_opt_timestamp(fs, "date_triaged"@)->Err_0)
    } else if spec_opt_timestamp(fs, "date_fix_committed"@) is Err {
        Err(spec_opt_timestamp(fs, "date_fix_committed"@)->Err_0)
    } else if spec_opt_timestamp(fs, "date_fix_released"@) is Err {
        Err(spec_opt_timestamp(fs, "date_fix_released"@)->Err_0)
    } else if spec_opt_timestamp(fs, "date_left_closed"@) is Err {
        Err(spec_opt_timestamp(fs, "date_left_closed"@)->Err_0)
    } else if spec_opt_timestamp(fs, "date_deferred"@) is Err {
        Err(spec_opt_timestamp(fs, "date_deferred"@)->Err_0)
    } else if spec_opt_string(fs, "owner_link"@) is Err {
        Err(spec_opt_string(fs, "owner_link"@)->Err_0)
    } else if spec_req_string(fs, "target_link"@) is Err {
        Err(spec_req_string(fs, "target_link"@)->Err_0)
    } else if spec_req_string(fs, "title"@) is Err {
        Err(spec_req_string(fs, "title"@)->Err_0)
    } else if spec_req_string(fs, "related_tasks_collection_link"@) is Err {
        Err(spec_req_string(fs, "related_tasks_collection_link"@)->Err_0)
    } else if spec_req_bool(fs, "is_complete"@) is Err {
        Err(spec_req_bool(fs, "is_complete"@)->Err_0)
    } else if spec_req_string(fs, "http_etag"@) is Err {
        Err(spec_req_string(fs, "http_etag"@)->Err_0)
    } else {
        Ok(BugTaskEntry {
            self_link: spec_req_string(fs, "self_link"@)->Ok_0,
            web_link: spec_req_string(fs, "web_link"@)->Ok_0,
            resource_type_link: spec_req_string(fs, "resource_type_link"@)->Ok_0,
            bug_link: spec_req_string(fs, "bug_link"@)->Ok_0,
            milestone_link: spec_opt_string(fs, "milestone_link"@)->Ok_0,
            status: spec_req_string(fs, "status"@)->Ok_0,
            importance: spec_req_string(fs, "importance"@)->Ok_0,
            assignee_link: spec_opt_string(fs, "assignee_link"@)->Ok_0,
            bug_target_display_name: spec_req_string(fs, "bug_target_display_name"@)->Ok_0,
            bug_target_name: spec_req_string(fs, "bug_target_name"@)->Ok_0,
            bug_watch_link: spec_opt_string(fs, "bug_watch_link"@)->Ok_0,
            date_assigned: spec_opt_timestamp(fs, "date_assigned"@)->Ok_0,
            date_created: spec_opt_timestamp(fs, "date_created"@)->Ok_0,
            date_confirmed: spec_opt_timestamp(fs, "date_confirmed"@)->Ok_0,
            date_incomplete: spec_opt_timestamp(fs, "date_incomplete"@)->Ok_0,
            date_in_progress: spec_opt_timestamp(fs, "date_in_progress"@)->Ok_0,
            date_closed: spec_opt_timestamp(fs, "date_closed"@)->Ok_0,
            date_left_new: spec_opt_timestamp(fs, "date_left_new"@)->Ok_0,
            date_triaged: spec_opt_timestamp(fs, "date_triaged"@)->Ok_0,
            date_fix_committed: spec_opt_timestamp(fs, "date_fix_committed"@)->Ok_0,
            date_fix_released: spec_opt_timestamp(fs, "date_fix_released"@)->Ok_0,
            date_left_closed: spec_opt_timestamp(fs, "date_left_closed"@)->Ok_0,
            date_deferred: spec_opt_timestamp(fs, "date_deferred"@)->Ok_0,
            owner_link: spec_opt_string(fs, "owner_link"@)->Ok_0,
            target_link: spec_req_string(fs, "target_link"@)->Ok_0,
            title: spec_req_string(fs, "title"@)->Ok_0,
            related_tasks_collection_link: spec_req_string(fs, "related_tasks_collection_link"@)->Ok_0,
            is_complete: spec_req_bool(fs, "is_complete"@)->Ok_0,
            http_etag: spec_req_string(fs, "http_etag"@)->Ok_0,
        })
    }
}

/// What decoding one task entry makes of a JSON value: anything but an
/// object is the wrong top-level shape.
pub open spec fn spec_decode_entry(v: JsonValue) -> Result<BugTaskEntry, DecodeIssue> {
    match v {
        JsonValue::Obj(fields) => spec_entry_from(fields@),
        _ => Err(DecodeIssue::NotObject),
    }
}

/// Decodes one task entry from a JSON value.
#[verifier::rlimit(50)]
pub fn decode_entry(v: &JsonValue) -> (r: Result<BugTaskEntry, DecodeError>)
    ensures
        result_matches(r, spec_decode_entry(*v)),
{
    let fields = match v {
        JsonValue::Obj(fields) => fields,
        _ => {
            return Err(DecodeError::NotObject);
        },
    };
    let self_link = match req_string(fields, "self_link") {
        Ok(x) => x,
        Err(e) => return Err(e),
    };
    let web_link = match req_string(fields, "web_link") {
        Ok(x) => x,
        Err(e) => return Err(e),
    };
    let resource_type_link = match req_string(fields, "resource_type_link") {
        Ok(x) => x,
        Err(e) => return Err(e),
    };
    let bug_link = match req_string(fields, "bug_link") {
        Ok(x) => x,
        Err(e) => return Err(e),
    };
    let milestone_link = match opt_string(fields, "milestone_link") {
        Ok(x) => x,
        Err(e) => return Err(e),
    };
    let status = match req_string(fields, "status") {
        Ok(x) => x,
        Err(e) => return Err(e),
    };
    let importance = match req_string(fields, "importance") {
        Ok(x) => x,
        Err(e) => return Err(e),
    };
    let assignee_link = match opt_string(fields, "assignee_link") {
        Ok(x) => x,
        Err(e) => return Err(e),
    };
    let bug_target_display_name = match req_string(fields, "bug_target_display_name") {
        Ok(x) => x,
        Err(e) => return Err(e),
    };
    let bug_target_name = match req_string(fields, "bug_target_name") {
        Ok(x) => x,
        Err(e) => return Err(e),
    };
    let bug_watch_link = match opt_string(fields, "bug_watch_link") {
        Ok(x) => x,
        Err(e) => return Err(e),
    };
    let date_assigned = match opt_timestamp(fields, "date_assigned") {
        Ok(x) => x,
        Err(e) => return Err(e),
    };
    let date_created = match opt_timestamp(fields, "date_created") {
        Ok(x) => x,
        Err(e) => return Err(e),
    };
    let date_confirmed = match opt_timestamp(fields, "date_confirmed") {
        Ok(x) => x,
        Err(e) => return Err(e),
    };
    let date_incomplete = match opt_timestamp(fields, "date_incomplete") {
        Ok(x) => x,
        Err(e) => return Err(e),
    };
    let date_in_progress = match opt_timestamp(fields, "date_in_progress") {
        Ok(x) => x,
        Err(e) => return Err(e),
    };
    let date_closed = match opt_timestamp(fields, "date_closed") {
        Ok(x) => x,
        Err(e) => return Err(e),
    };
    let date_left_new = match opt_timestamp(fields, "date_left_new") {
        Ok(x) => x,
        Err(e) => return Err(e),
    };
    let date_triaged = match opt_timestamp(fields, "date_triaged") {
        Ok(x) => x,
        Err(e) => return Err(e),
    };
    let date_fix_committed = match opt_timestamp(fields, "date_fix_committed") {
        Ok(x) => x,
        Err(e) => return Err(e),
    };
    let date_fix_released = match opt_timestamp(fields, "date_fix_released") {
        Ok(x) => x,
        Err(e) => return Err(e),
    };
    let date_left_closed = match opt_timestamp(fields, "date_left_closed") {
        Ok(x) => x,
        Err(e) => return Err(e),
    };
    let date_deferred = match opt_timestamp(fields, "date_deferred") {
        Ok(x) => x,
        Err(e) => return Err(e),
    };
    let owner_link = match opt_string(fields, "owner_link") {
        Ok(x) => x,
        Err(e) => return Err(e),
    };
    let target_link = match req_string(fields, "target_link") {
        Ok(x) => x,
        Err(e) => return Err(e),
    };
    let title = match req_string(fields, "title") {
        Ok(x) => x,
        Err(e) => return Err(e),
    };
    let related_tasks_collection_link = match req_string(fields, "related_tasks_collection_link") {
        Ok(x) => x,
        Err(e) => return Err(e),
    };
    let is_complete = match req_bool(fields, "is_complete") {
        Ok(x) => x,
        Err(e) => return Err(e),
    };
    let http_etag = match req_string(fields, "http_etag") {
        Ok(x) => x,
        Err(e) => return Err(e),
    };
    Ok(BugTaskEntry {
        self_link,
        web_link,
        resource_type_link,
        bug_link,
        milestone_link,
        status,
        importance,
        assignee_link,
        bug_target_display_name,
        bug_target_name,
        bug_watch_link,
        date_assigned,
        date_created,
        date_confirmed,
        date_incomplete,
        date_in_progress,
        date_closed,
        date_left_new,
        date_triaged,
        date_fix_committed,
        date_fix_released,
        date_left_closed,
        date_deferred,
        owner_link,
        target_link,
        title,
        related_tasks_collection_link,
        is_complete,
        http_etag,
    })
}

/// What decoding a sequence of task entries makes of an array's elements:
/// the entries in order, or the first element's failure.
pub open spec fn spec_decode_entries(items: Seq<JsonValue>) -> Result<Seq<BugTaskEntry>, DecodeIssue>
    decreases items.len(),
{
    if items.len() == 0 {
        Ok(Seq::empty())
    } else {
        match spec_decode_entry(items[0]) {
            Err(i) => Err(i),
            Ok(e) => match spec_decode_entries(items.drop_first()) {
                Err(i) => Err(i),
                Ok(rest) => Ok(seq![e] + rest),
            },
        }
    }
}

/// Decodes every element of `items` as a task entry, in order.
#[verifier::loop_isolation(false)]
pub fn decode_entries(items: &Vec<JsonValue>) -> (r: Result<Vec<BugTaskEntry>, DecodeError>)
    ensures
        match (r, spec_decode_entries(items@)) {
            (Ok(v), Ok(s)) => v@ == s,
            (Err(e), Err(i)) => decode_error_matches(e, i),
            (Ok(_), Err(_)) => false,
            (Err(_), Ok(_)) => false,
        },
{
    let n = items.len();
    let mut out: Vec<BugTaskEntry> = Vec::new();
    let mut i: usize = 0;
    assert(items@.skip(0) =~= items@);
    while i < n
        invariant
            i <= n,
            out@.len() == i,
            match spec_decode_entries(items@.skip(i as int)) {
                Ok(rest) => spec_decode_entries(items@) == Ok::<_, DecodeIssue>(out@ + rest),
                Err(e) => spec_decode_entries(items@) == Err::<Seq<BugTaskEntry>, _>(e),
            },
        decreases n - i,
    {
        assert(items@.skip(i as int)[0] == items@[i as int]);
        assert(items@.skip(i as int).drop_first() =~= items@.skip(i + 1));
        let ev = match decode_entry(&items[i]) {
            Ok(e) => e,
            Err(e) => {
                return Err(e);
            },
        };
        proof {
            assert(spec_decode_entry(items@[i as int]) == Ok::<BugTaskEntry, DecodeIssue>(ev));
            if spec_decode_entries(items@.skip(i + 1)) is Ok {
                let rest = spec_decode_entries(items@.skip(i + 1))->Ok_0;
                assert(out@.push(ev) + rest =~= out@ + (seq![ev] + rest));
            }
        }
        out.push(ev);
        i = i + 1;
    }
    assert(items@.skip(n as int) =~= Seq::<JsonValue>::empty());
    assert(out@ + Seq::<BugTaskEntry>::empty() =~= out@);
    Ok(out)
}

/// Whether every field of a record-list page decodes from the field list.
pub open spec fn page_ok(fs: Seq<(String, JsonValue)>) -> bool {
    &&& spec_req_u32(fs, "start"@) is Ok
    &&& spec_req_u32(fs, "total_size"@) is Ok
    &&& spec_opt_string(fs, "next_collection_link"@) is Ok
    &&& match spec_lookup(fs, "entries"@) {
        Option::Some(JsonValue::Arr(items)) => spec_decode_entries(items@) is Ok,
        _ => false,
    }
}

/// The failure decoding a record-list page reports, when one does; the
/// first field in declaration order decides.
pub open spec fn page_issue(fs: Seq<(String, JsonValue)>) -> DecodeIssue {
    if spec_req_u32(fs, "start"@) is Err {
        spec_req_u32(fs, "start"@)->Err_0
    } else if spec_req_u32(fs, "total_size"@) is Err {
        spec_req_u32(fs, "total_size"@)->Err_0
    } else if spec_opt_string(fs, "next_collection_link"@) is Err {
        spec_opt_string(fs, "next_collection_link"@)->Err_0
    } else {
        match spec_lookup(fs, "entries"@) {
            Option::None => DecodeIssue::MissingField("entries"@),
            Option::Some(JsonValue::Arr(items)) => match spec_decode_entries(items@) {
                Err(i) => i,
                Ok(_) => DecodeIssue::NotObject,
            },
            Option::Some(_) => DecodeIssue::WrongType("entries"@),
        }
    }
}

/// Whether the page `p` is the one the field list decodes to.
pub open spec fn page_matches(p: LaunchpadBugTasksResponse, fs: Seq<(String, JsonValue)>) -> bool {
    &&& p.start == spec_req_u32(fs, "start"@)->Ok_0
    &&& p.total_size == spec_req_u32(fs, "total_size"@)->Ok_0
    &&& p.next_collection_link == spec_opt_string(fs, "next_collection_link"@)->Ok_0
    &&& match spec_lookup(fs, "entries"@) {
        Option::Some(JsonValue::Arr(items)) => p.entries@ == spec_decode_entries(items@)->Ok_0,
        _ => false,
    }
}

/// Decodes a record-list page from a JSON value.
pub fn decode_page(v: &JsonValue) -> (r: Result<LaunchpadBugTasksResponse, DecodeError>)
    ensures
        match v {
            JsonValue::Obj(fields) => {
                &&& (r is Ok <==> page_ok(fields@))
                &&& (match r {
                    Ok(p) => page_matches(p, fields@),
                    Err(e) => decode_error_matches(e, page_issue(fields@)),
                })
            },
            _ => r matches Err(e) && e is NotObject,
        },
{
    let fields = match v {
        JsonValue::Obj(fields) => fields,
        _ => {
            return Err(DecodeError::NotObject);
        },
    };
    let start = match req_u32(fields, "start") {
        Ok(x) => x,
        Err(e) => return Err(e),
    };
    let total_size = match req_u32(fields, "total_size") {
        Ok(x) => x,
        Err(e) => return Err(e),
    };
    let next_collection_link = match opt_string(fields, "next_collection_link") {
        Ok(x) => x,
        Err(e) => return Err(e),
    };
    let entries = match lookup(fields, "entries") {
        None => {
            return Err(DecodeError::MissingField(String::from_str("entries")));
        },
        Some(ev) => match ev {
            JsonValue::Arr(items) => match decode_entries(items) {
                Ok(es) => es,
                Err(e) => return Err(e),
            },
            _ => {
                return Err(DecodeError::WrongType(String::from_str("entries")));
            },
        },
    };
    Ok(LaunchpadBugTasksResponse { start, total_size, next_collection_link, entries })
}

/// Whether every field of a full record decodes from the field list.
pub open spec fn bug_ok(fs: Seq<(String, JsonValue)>) -> bool {
    &&& spec_req_string(fs, "self_link"@) is Ok
    &&& spec_req_string(fs, "web_link"@) is Ok
    &&& spec_req_string(fs, "resource_type_link"@) is Ok
    &&& spec_req_u32(fs, "id"@) is Ok
    &&& spec_req_bool(fs, "private"@) is Ok
    &&& spec_req_string(fs, "information_type"@) is Ok
    &&& spec_opt_string(fs, "name"@) is Ok
    &&& spec_req_string(fs, "title"@) is Ok
    &&& spec_req_string(fs, "description"@) is Ok
    &&& spec_req_string(fs, "owner_link"@) is Ok
    &&& spec_req_string(fs, "bug_tasks_collection_link"@) is Ok
    &&& spec_opt_string(fs, "duplicate_of_link"@) is Ok
    &&& spec_opt_timestamp(fs, "date_created"@) is Ok
    &&& spec_req_string(fs, "activity_collection_link"@) is Ok
    &&& spec_req_bool(fs, "can_expire"@) is Ok
    &&& spec_req_string(fs, "subscriptions_collection_link"@) is Ok
    &&& spec_opt_timestamp(fs, "date_last_updated"@) is Ok
    &&& spec_opt_string(fs, "who_made_private_link"@) is Ok
    &&& spec_opt_timestamp(fs, "date_made_private"@) is Ok
    &&& spec_req_u32(fs, "heat"@) is Ok
    &&& spec_req_string(fs, "bug_watches_collection_link"@) is Ok
    &&& spec_req_string(fs, "cves_collection_link"@) is Ok
    &&& spec_req_string(fs, "vulnerabilities_collection_link"@) is Ok
    &&& spec_req_string(fs, "duplicates_collection_link"@) is Ok
    &&& spec_req_string(fs, "attachments_collection_link"@) is Ok
    &&& spec_req_bool(fs, "security_related"@) is Ok
    &&& spec_opt_string(fs, "latest_patch_uploaded"@) is Ok
    &&& spec_req_string_array(fs, "tags"@) is Ok
    &&& spec_opt_timestamp(fs, "date_last_message"@) is Ok
    &&& spec_req_u32(fs, "number_of_duplicates"@) is Ok
    &&& spec_req_u32(fs, "message_count"@) is Ok
    &&& spec_req_u32(fs, "users_affected_count"@) is Ok
    &&& spec_req_u32(fs, "users_unaffected_count"@) is Ok
    &&& spec_req_string(fs, "users_affected_collection_link"@) is Ok
    &&& spec_req_string(fs, "users_unaffected_collection_link"@) is Ok
    &&& spec_req_u32(fs, "users_affected_count_with_dupes"@) is Ok
    &&& spec_req_u32(fs, "other_users_affected_count_with_dupes"@) is Ok
    &&& spec_req_string(fs, "users_affected_with_dupes_collection_link"@) is Ok
    &&& spec_req_string(fs, "messages_collection_link"@) is Ok
    &&& spec_req_string(fs, "linked_branches_collection_link"@) is Ok
    &&& spec_req_string(fs, "http_etag"@) is Ok
}

/// The failure decoding a full record reports, when one does; the first
/// field in declaration order decides.
pub open spec fn bug_issue(fs: Seq<(String, JsonValue)>) -> DecodeIssue {
    if spec_req_string(fs, "self_link"@) is Err {
        spec_req_string(fs, "self_link"@)->Err_0
    } else if spec_req_string(fs, "web_link"@) is Err {
        spec_req_string(fs, "web_link"@)->Err_0
    } else if spec_req_string(fs, "resource_type_link"@) is Err {
        spec_req_string(fs, "resource_type_link"@)->Err_0
    } else if spec_req_u32(fs, "id"@) is Err {
        spec_req_u32(fs, "id"@)->Err_0
    } else if spec_req_bool(fs, "private"@) is Err {
        spec_req_bool(fs, "private"@)->Err_0
    } else if spec_req_string(fs, "information_type"@) is Err {
        spec_req_string(fs, "information_type"@)->Err_0
    } else if spec_opt_string(fs, "name"@) is Err {
        spec_opt_string(fs, "name"@)->Err_0
    } else if spec_req_string(fs, "title"@) is Err {
        spec_req_string(fs, "title"@)->Err_0
    } else if spec_req_string(fs, "description"@) is Err {
        spec_req_string(fs, "description"@)->Err_0
    } else if spec_req_string(fs, "owner_link"@) is Err {
        spec_req_string(fs, "owner_link"@)->Err_0
    } else if spec_req_string(fs, "bug_tasks_collection_link"@) is Err {
        spec_req_string(fs, "bug_tasks_collection_link"@)->Err_0
    } else if spec_opt_string(fs, "duplicate_of_link"@) is Err {
        spec_opt_string(fs, "duplicate_of_link"@)->Err_0
    } else if spec_opt_timestamp(fs, "date_created"@) is Err {
        spec_opt_timestamp(fs, "date_created"@)->Err_0
    } else if spec_req_string(fs, "activity_collection_link"@) is Err {
        spec_req_string(fs, "activity_collection_link"@)->Err_0
    } else if spec_req_bool(fs, "can_expire"@) is Err {
        spec_req_bool(fs, "can_expire"@)->Err_0
    } else if spec_req_string(fs, "subscriptions_collection_link"@) is Err {
        spec_req_string(fs, "subscriptions_collection_link"@)->Err_0
    } else if spec_opt_timestamp(fs, "date_last_updated"@) is Err {
        spec_opt_timestamp(fs, "date_last_updated"@)->Err_0
    } else if spec_opt_string(fs, "who_made_private_link"@) is Err {
        spec_opt_string(fs, "who_made_private_link"@)->Err_0
    } else if spec_opt_timestamp(fs, "date_made_private"@) is Err {
        spec_opt_timestamp(fs, "date_made_private"@)->Err_0
    } else if spec_req_u32(fs, "heat"@) is Err {
        spec_req_u32(fs, "heat"@)->Err_0
    } else if spec_req_string(fs, "bug_watches_collection_link"@) is Err {
        spec_req_string(fs, "bug_watches_collection_link"@)->Err_0
    } else if spec_req_string(fs, "cves_collection_link"@) is Err {
        spec_req_string(fs, "cves_collection_link"@)->Err_0
    } else if spec_req_string(fs, "vulnerabilities_collection_link"@) is Err {
        spec_req_string(fs, "vulnerabilities_collection_link"@)->Err_0
    } else if spec_req_string(fs, "duplicates_collection_link"@) is Err {
        spec_req_string(fs, "duplicates_collection_link"@)->Err_0
    } else if spec_req_string(fs, "attachments_collection_link"@) is Err {
        spec_req_string(fs, "attachments_collection_link"@)->Err_0
    } else if spec_req_bool(fs, "security_related"@) is Err {
        spec_req_bool(fs, "security_related"@)->Err_0
    } else if spec_opt_string(fs, "latest_patch_uploaded"@) is Err {
        spec_opt_string(fs, "latest_patch_uploaded"@)->Err_0
    } else if spec_req_string_array(fs, "tags"@) is Err {
        spec_req_string_array(fs, "tags"@)->Err_0
    } else if spec_opt_timestamp(fs, "date_last_message"@) is Err {
        spec_opt_timestamp(fs, "date_last_message"@)->Err_0
    } else if spec_req_u32(fs, "number_of_duplicates"@) is Err {
        spec_req_u32(fs, "number_of_duplicates"@)->Err_0
    } else if spec_req_u32(fs, "message_count"@) is Err {
        spec_req_u32(fs, "message_count"@)->Err_0
    } else if spec_req_u32(fs, "users_affected_count"@) is Err {
        spec_req_u32(fs, "users_affected_count"@)->Err_0
    } else if spec_req_u32(fs, "users_unaffected_count"@) is Err {
        spec_req_u32(fs, "users_unaffected_count"@)->Err_0
    } else if spec_req_string(fs, "users_affected_collection_link"@) is Err {
        spec_req_string(fs, "users_affected_collection_link"@)->Err_0
    } else if spec_req_string(fs, "users_unaffected_collection_link"@) is Err {
        spec_req_string(fs, "users_unaffected_collection_link"@)->Err_0
    } else if spec_req_u32(fs, "users_affected_count_with_dupes"@) is Err {
        spec_req_u32(fs, "users_affected_count_with_dupes"@)->Err_0
    } else if spec_req_u32(fs, "other_users_affected_count_with_dupes"@) is Err {
        spec_req_u32(fs, "other_users_affected_count_with_dupes"@)->Err_0
    } else if spec_req_string(fs, "users_affected_with_dupes_collection_link"@) is Err {
        spec_req_string(fs, "users_affected_with_dupes_collection_link"@)->Err_0
    } else if spec_req_string(fs, "messages_collection_link"@) is Err {
        spec_req_string(fs, "messages_collection_link"@)->Err_0
    } else if spec_req_string(fs, "linked_branches_collection_link"@) is Err {
        spec_req_string(fs, "linked_branches_collection_link"@)->Err_0
    } else {
        spec_req_string(fs, "http_etag"@)->Err_0
    }
}

/// Whether the record `b` is the one the field list decodes to, field for
/// field.
pub open spec fn bug_matches(b: LaunchpadBug, fs: Seq<(String, JsonValue)>) -> bool {
    &&& b.self_link == spec_req_string(fs, "self_link"@)->Ok_0
    &&& b.web_link == spec_req_string(fs, "web_link"@)->Ok_0
    &&& b.resource_type_link == spec_req_string(fs, "resource_type_link"@)->Ok_0
    &&& b.id == spec_req_u32(fs, "id"@)->Ok_0
    &&& b.private == spec_req_bool(fs, "private"@)->Ok_0
    &&& b.information_type == spec_req_string(fs, "information_type"@)->Ok_0
    &&& b.name == spec_opt_string(fs, "name"@)->Ok_0
    &&& b.title == spec_req_string(fs, "title"@)->Ok_0
    &&& b.description == spec_req_string(fs, "description"@)->Ok_0
    &&& b.owner_link == spec_req_string(fs, "owner_link"@)->Ok_0
    &&& b.bug_tasks_collection_link == spec_req_string(fs, "bug_tasks_collection_link"@)->Ok_0
    &&& b.duplicate_of_link == spec_opt_string(fs, "duplicate_of_link"@)->Ok_0
    &&& b.date_created == spec_opt_timestamp(fs, "date_created"@)->Ok_0
    &&& b.activity_collection_link == spec_req_string(fs, "activity_collection_link"@)->Ok_0
    &&& b.can_expire == spec_req_bool(fs, "can_expire"@)->Ok_0
    &&& b.subscriptions_collection_link == spec_req_string(fs, "subscriptions_collection_link"@)->Ok_0
    &&& b.date_last_updated == spec_opt_timestamp(fs, "date_last_updated"@)->Ok_0
    &&& b.who_made_private_link == spec_opt_string(fs, "who_made_private_link"@)->Ok_0
    &&& b.date_made_private == spec_opt_timestamp(fs, "date_made_private"@)->Ok_0
    &&& b.heat == spec_req_u32(fs, "heat"@)->Ok_0
    &&& b.bug_watches_collection_link == spec_req_string(fs, "bug_watches_collection_link"@)->Ok_0
    &&& b.cves_collection_link == spec_req_string(fs, "cves_collection_link"@)->Ok_0
    &&& b.vulnerabilities_collection_link == spec_req_string(fs, "vulnerabilities_collection_link"@)->Ok_0
    &&& b.duplicates_collection_link == spec_req_string(fs, "duplicates_collection_link"@)->Ok_0
    &&& b.attachments_collection_link == spec_req_string(fs, "attachments_collection_link"@)->Ok_0
    &&& b.security_related == spec_req_bool(fs, "security_related"@)->Ok_0
    &&& b.latest_patch_uploaded == spec_opt_string(fs, "latest_patch_uploaded"@)->Ok_0
    &&& b.tags@ == spec_req_string_array(fs, "tags"@)->Ok_0
    &&& b.date_last_message == spec_opt_timestamp(fs, "date_last_message"@)->Ok_0
    &&& b.number_of_duplicates == spec_req_u32(fs, "number_of_duplicates"@)->Ok_0
    &&& b.message_count == spec_req_u32(fs, "message_count"@)->Ok_0
    &&& b.users_affected_count == spec_req_u32(fs, "users_affected_count"@)->Ok_0
    &&& b.users_unaffected_count == spec_req_u32(fs, "users_unaffected_count"@)->Ok_0
    &&& b.users_affected_collection_link == spec_req_string(fs, "users_affected_collection_link"@)->Ok_0
    &&& b.users_unaffected_collection_link == spec_req_string(fs, "users_unaffected_collection_link"@)->Ok_0
    &&& b.users_affected_count_with_dupes == spec_req_u32(fs, "users_affected_count_with_dupes"@)->Ok_0
    &&& b.other_users_affected_count_with_dupes == spec_req_u32(fs, "other_users_affected_count_with_dupes"@)->Ok_0
    &&& b.users_affected_with_dupes_collection_link == spec_req_string(fs, "users_affected_with_dupes_collection_link"@)->Ok_0
    &&& b.messages_collection_link == spec_req_string(fs, "messages_collection_link"@)->Ok_0
    &&& b.linked_branches_collection_link == spec_req_string(fs, "linked_branches_collection_link"@)->Ok_0
    &&& b.http_etag == spec_req_string(fs, "http_etag"@)->Ok_0
}

/// Decodes a full record from a JSON value.
#[verifier::rlimit(100)]
pub fn decode_bug(v: &JsonValue) -> (r: Result<LaunchpadBug, DecodeError>)
    ensures
        match v {
            JsonValue::Obj(fields) => {
                &&& (r is Ok <==> bug_ok(fields@))
                &&& (match r {
                    Ok(b) => bug_matches(b, fields@),
                    Err(e) => decode_error_matches(e, bug_issue(fields@)),
                })
            },
            _ => r matches Err(e) && e is NotObject,
        },
{
    let fields = match v {
        JsonValue::Obj(fields) => fields,
        _ => {
            return Err(DecodeError::NotObject);
        },
    };
    let self_link = match req_string(fields, "self_link") {
        Ok(x) => x,
        Err(e) => return Err(e),
    };
    let web_link = match req_string(fields, "web_link") {
        Ok(x) => x,
        Err(e) => return Err(e),
    };
    let resource_type_link = match req_string(fields, "resource_type_link") {
        Ok(x) => x,
        Err(e) => return Err(e),
    };
    let id = match req_u32(fields, "id") {
        Ok(x) => x,
        Err(e) => return Err(e),
    };
    let private = match req_bool(fields, "private") {
        Ok(x) => x,
        Err(e) => return Err(e),
    };
    let information_type = match req_string(fields, "information_type") {
        Ok(x) => x,
        Err(e) => return Err(e),
    };
    let name = match opt_string(fields, "name") {
        Ok(x) => x,
        Err(e) => return Err(e),
    };
    let title = match req_string(fields, "title") {
        Ok(x) => x,
        Err(e) => return Err(e),
    };
    let description = match req_string(fields, "description") {
        Ok(x) => x,
        Err(e) => return Err(e),
    };
    let owner_link = match req_string(fields, "owner_link") {
        Ok(x) => x,
        Err(e) => return Err(e),
    };
    let bug_tasks_collection_link = match req_string(fields, "bug_tasks_collection_link") {
        Ok(x) => x,
        Err(e) => return Err(e),
    };
    let duplicate_of_link = match opt_string(fields, "duplicate_of_link") {
        Ok(x) => x,
        Err(e) => return Err(e),
    };
    let date_created = match opt_timestamp(fields, "date_created") {
        Ok(x) => x,
        Err(e) => return Err(e),
    };
    let activity_collection_link = match req_string(fields, "activity_collection_link") {
        Ok(x) => x,
        Err(e) => return Err(e),
    };
    let can_expire = match req_bool(fields, "can_expire") {
        Ok(x) => x,
        Err(e) => return Err(e),
    };
    let subscriptions_collection_link = match req_string(fields, "subscriptions_collection_link") {
        Ok(x) => x,
        Err(e) => return Err(e),
    };
    let date_last_updated = match opt_timestamp(fields, "date_last_updated") {
        Ok(x) => x,
        Err(e) => return Err(e),
    };
    let who_made_private_link = match opt_string(fields, "who_made_private_link") {
        Ok(x) => x,
        Err(e) => return Err(e),
    };
    let date_made_private = match opt_timestamp(fields, "date_made_private") {
        Ok(x) => x,
        Err(e) => return Err(e),
    };
    let heat = match req_u32(fields, "heat") {
        Ok(x) => x,
        Err(e) => return Err(e),
    };
    let bug_watches_collection_link = match req_string(fields, "bug_watches_collection_link") {
        Ok(x) => x,
        Err(e) => return Err(e),
    };
    let cves_collection_link = match req_string(fields, "cves_collection_link") {
        Ok(x) => x,
        Err(e) => return Err(e),
    };
    let vulnerabilities_collection_link = match req_string(
        fields,
        "vulnerabilities_collection_link",
    ) {
        Ok(x) => x,
        Err(e) => return Err(e),
    };
    let duplicates_collection_link = match req_string(fields, "duplicates_collection_link") {
        Ok(x) => x,
        Err(e) => return Err(e),
    };
    let attachments_collection_link = match req_string(fields, "attachments_collection_link") {
        Ok(x) => x,
        Err(e) => return Err(e),
    };
    let security_related = match req_bool(fields, "security_related") {
        Ok(x) => x,
        Err(e) => return Err(e),
    };
    let latest_patch_uploaded = match opt_string(fields, "latest_patch_uploaded") {
        Ok(x) => x,
        Err(e) => return Err(e),
    };
    let tags = match req_string_array(fields, "tags") {
        Ok(x) => x,
        Err(e) => return Err(e),
    };
    let date_last_message = match opt_timestamp(fields, "date_last_message") {
        Ok(x) => x,
        Err(e) => return Err(e),
    };
    let number_of_duplicates = match req_u32(fields, "number_of_duplicates") {
        Ok(x) => x,
        Err(e) => return Err(e),
    };
    let message_count = match req_u32(fields, "message_count") {
        Ok(x) => x,
        Err(e) => return Err(e),
    };
    let users_affected_count = match req_u32(fields, "users_affected_count") {
        Ok(x) => x,
        Err(e) => return Err(e),
    };
    let users_unaffected_count = match req_u32(fields, "users_unaffected_count") {
        Ok(x) => x,
        Err(e) => return Err(e),
    };
    let users_affected_collection_link = match req_string(
        fields,
        "users_affected_collection_link",
    ) {
        Ok(x) => x,
        Err(e) => return Err(e),
    };
    let users_unaffected_collection_link = match req_string(
        fields,
        "users_unaffected_collection_link",
    ) {
        Ok(x) => x,
        Err(e) => return Err(e),
    };
    let users_affected_count_with_dupes = match req_u32(fields, "users_affected_count_with_dupes") {
        Ok(x) => x,
        Err(e) => return Err(e),
    };
    let other_users_affected_count_with_dupes = match req_u32(
        fields,
        "other_users_affected_count_with_dupes",
    ) {
        Ok(x) => x,
        Err(e) => return Err(e),
    };
    let users_affected_with_dupes_collection_link = match req_string(
        fields,
        "users_affected_with_dupes_collection_link",
    ) {
        Ok(x) => x,
        Err(e) => return Err(e),
    };
    let messages_collection_link = match req_string(fields, "messages_collection_link") {
        Ok(x) => x,
        Err(e) => return Err(e),
    };
    let linked_branches_collection_link = match req_string(
        fields,
        "linked_branches_collection_link",
    ) {
        Ok(x) => x,
        Err(e) => return Err(e),
    };
    let http_etag = match req_string(fields, "http_etag") {
        Ok(x) => x,
        Err(e) => return Err(e),
    };
    Ok(LaunchpadBug {
        self_link,
        web_link,
        resource_type_link,
        id,
        private,
        information_type,
        name,
        title,
        description,
        owner_link,
        bug_tasks_collection_link,
        duplicate_of_link,
        date_created,
        activity_collection_link,
        can_expire,
        subscriptions_collection_link,
        date_last_updated,
        who_made_private_link,
        date_made_private,
        heat,
        bug_watches_collection_link,
        cves_collection_link,
        vulnerabilities_collection_link,
        duplicates_collection_link,
        attachments_collection_link,
        security_related,
        latest_patch_uploaded,
        tags,
        date_last_message,
        number_of_duplicates,
        message_count,
        users_affected_count,
        users_unaffected_count,
        users_affected_count_with_dupes,
        other_users_affected_count_with_dupes,
        users_affected_with_dupes_collection_link,
        users_affected_collection_link,
        users_unaffected_collection_link,
        messages_collection_link,
        linked_branches_collection_link,
        http_etag,
    })
}

/// Whether a record-list payload decodes in full.
pub open spec fn page_payload_ok(s: Seq<char>) -> bool {
    match spec_parse_json(s) {
        ParseOutcome::Json(JsonValue::Obj(fs)) => page_ok(fs@),
        _ => false,
    }
}

/// The failure a record-list payload reports, when one does.
pub open spec fn page_payload_issue(s: Seq<char>) -> DecodeIssue {
    match spec_parse_json(s) {
        ParseOutcome::SyntaxBroken => DecodeIssue::NotJson,
        ParseOutcome::OtherBroken(_) => DecodeIssue::Parser,
        ParseOutcome::Json(JsonValue::Obj(fs)) => page_issue(fs@),
        ParseOutcome::Json(_) => DecodeIssue::NotObject,
    }
}

/// Whether the page `p` is the one the payload decodes to.
pub open spec fn page_payload_matches(p: LaunchpadBugTasksResponse, s: Seq<char>) -> bool {
    match spec_parse_json(s) {
        ParseOutcome::Json(JsonValue::Obj(fs)) => page_matches(p, fs@),
        _ => false,
    }
}

/// Decodes one record-list page from a raw payload.
pub fn decode_page_payload(text: &str) -> (r: Result<LaunchpadBugTasksResponse, DecodeError>)
    ensures
        r is Ok <==> page_payload_ok(text@),
        match r {
            Ok(p) => page_payload_matches(p, text@),
            Err(e) => decode_error_matches(e, page_payload_issue(text@)),
        },
{
    match parse_json(text) {
        ParseOutcome::SyntaxBroken => Err(DecodeError::NotJson),
        ParseOutcome::OtherBroken(m) => Err(DecodeError::Json(m)),
        ParseOutcome::Json(v) => decode_page(&v),
    }
}

/// Whether a full-record payload decodes in full.
pub open spec fn bug_payload_ok(s: Seq<char>) -> bool {
    match spec_parse_json(s) {
        ParseOutcome::Json(JsonValue::Obj(fs)) => bug_ok(fs@),
        _ => false,
    }
}

/// The failure a full-record payload reports, when one does.
pub open spec fn bug_payload_issue(s: Seq<char>) -> DecodeIssue {
    match spec_parse_json(s) {
        ParseOutcome::SyntaxBroken => DecodeIssue::NotJson,
        ParseOutcome::OtherBroken(_) => DecodeIssue::Parser,
        ParseOutcome::Json(JsonValue::Obj(fs)) => bug_issue(fs@),
        ParseOutcome::Json(_) => DecodeIssue::NotObject,
    }
}

/// Whether the record `b` is the one the payload decodes to.
pub open spec fn bug_payload_matches(b: LaunchpadBug, s: Seq<char>) -> bool {
    match spec_parse_json(s) {
        ParseOutcome::Json(JsonValue::Obj(fs)) => bug_matches(b, fs@),
        _ => false,
    }
}

/// Decodes one full record from a raw payload.
pub fn decode_bug_payload(text: &str) -> (r: Result<LaunchpadBug, DecodeError>)
    ensures
        r is Ok <==> bug_payload_ok(text@),
        match r {
            Ok(b) => bug_payload_matches(b, text@),
            Err(e) => decode_error_matches(e, bug_payload_issue(text@)),
        },
{
    match parse_json(text) {
        ParseOutcome::SyntaxBroken => Err(DecodeError::NotJson),
        ParseOutcome::OtherBroken(m) => Err(DecodeError::Json(m)),
        ParseOutcome::Json(v) => decode_bug(&v),
    }
}

/// Whether two full records agree field for field.
pub open spec fn bug_fields_eq(a: LaunchpadBug, b: LaunchpadBug) -> bool {
    &&& a.self_link == b.self_link
    &&& a.web_link == b.web_link
    &&& a.resource_type_link == b.resource_type_link
    &&& a.id == b.id
    &&& a.private == b.private
    &&& a.information_type == b.information_type
    &&& a.name == b.name
    &&& a.title == b.title
    &&& a.description == b.description
    &&& a.owner_link == b.owner_link
    &&& a.bug_tasks_collection_link == b.bug_tasks_collection_link
    &&& a.duplicate_of_link == b.duplicate_of_link
    &&& a.date_created == b.date_created
    &&& a.activity_collection_link == b.activity_collection_link
    &&& a.can_expire == b.can_expire
    &&& a.subscriptions_collection_link == b.subscriptions_collection_link
    &&& a.date_last_updated == b.date_last_updated
    &&& a.who_made_private_link == b.who_made_private_link
    &&& a.date_made_private == b.date_made_private
    &&& a.heat == b.heat
    &&& a.bug_watches_collection_link == b.bug_watches_collection_link
    &&& a.cves_collection_link == b.cves_collection_link
    &&& a.vulnerabilities_collection_link == b.vulnerabilities_collection_link
    &&& a.duplicates_collection_link == b.duplicates_collection_link
    &&& a.attachments_collection_link == b.attachments_collection_link
    &&& a.security_related == b.security_related
    &&& a.latest_patch_uploaded == b.latest_patch_uploaded
    &&& a.tags@ == b.tags@
    &&& a.date_last_message == b.date_last_message
    &&& a.number_of_duplicates == b.number_of_duplicates
    &&& a.message_count == b.message_count
    &&& a.users_affected_count == b.users_affected_count
    &&& a.users_unaffected_count == b.users_unaffected_count
    &&& a.users_affected_collection_link == b.users_affected_collection_link
    &&& a.users_unaffected_collection_link == b.users_unaffected_collection_link
    &&& a.users_affected_count_with_dupes == b.users_affected_count_with_dupes
    &&& a.other_users_affected_count_with_dupes == b.other_users_affected_count_with_dupes
    &&& a.users_affected_with_dupes_collection_link == b.users_affected_with_dupes_collection_link
    &&& a.messages_collection_link == b.messages_collection_link
    &&& a.linked_branches_collection_link == b.linked_branches_collection_link
    &&& a.http_etag == b.http_etag
}

/// Fetching the same record twice with no server-side change — that is,
/// decoding the same payload twice — yields field-for-field identical
/// records.
pub proof fn lemma_refetch_identical(s: Seq<char>, b1: LaunchpadBug, b2: LaunchpadBug)
    requires
        bug_payload_matches(b1, s),
        bug_payload_matches(b2, s),
    ensures
        bug_fields_eq(b1, b2),
{
}

} // verus!
