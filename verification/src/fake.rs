//! The deterministic offline transport used for testing.
//!
//! It answers a fixed set of URLs with canned payloads: a project record, a
//! two-page task search, a project whose payload is an empty object, one
//! whose payload is not JSON at all, and, for any other URL, a full record
//! whose `self_link` is the URL itself and whose id field carries the
//! URL's last path segment verbatim (so only a numeric tail yields a
//! well-formed record).  Its model pins each response: for every URL the
//! client returns exactly the payload [`spec_fake_response`] names.

use vstd::prelude::*;

use crate::json::str_eq;
use crate::model::LaunchpadError;
use crate::text::{last_segment, spec_last_segment};
use crate::transport::HTTPClient;

verus! {

/// The offline transport.
#[derive(Debug)]
pub struct FakeClient;

impl FakeClient {
    pub fn new() -> Self {
        FakeClient
    }
}

impl Default for FakeClient {
    fn default() -> Self {
        FakeClient::new()
    }
}

/// The project record for the known project.
pub open spec fn spec_fake_project() -> Seq<char> {
    "{\"self_link\": \"https://api.launchpad.net/1.0/nova\", \"name\": \"nova\", \"display_name\": \"OpenStack Compute (nova)\"}"@
}

fn fake_project() -> (r: String)
    ensures
        r@ == spec_fake_project(),
{
    String::from_str(
        "{\"self_link\": \"https://api.launchpad.net/1.0/nova\", \"name\": \"nova\", \"display_name\": \"OpenStack Compute (nova)\"}",
    )
}

/// The first search page: two entries and a continuation cursor.
pub open spec fn spec_fake_page_1() -> Seq<char> {
    "{\"start\": 0, \"total_size\": 4, \"next_collection_link\": \"https://api.launchpad.net/1.0/nova?status=New&ws.op=searchTasks&ws.size=2&memo=2&ws.start=2\", \"entries\": [{\"self_link\": \"https://api.launchpad.net/1.0/nova/+bug/2093869\", \"web_link\": \"https://bugs.launchpad.net/nova/+bug/2093869\", \"resource_type_link\": \"https://api.launchpad.net/1.0/#bug_task\", \"bug_link\": \"https://api.launchpad.net/1.0/bugs/2093869\", \"status\": \"New\", \"importance\": \"Undecided\", \"bug_target_display_name\": \"OpenStack Compute (nova)\", \"bug_target_name\": \"nova\", \"date_created\": \"2025-01-13T08:46:25.105013+00:00\", \"target_link\": \"https://api.launchpad.net/1.0/nova\", \"title\": \"Bug #2093869 in OpenStack Compute (nova): \\\"Instance resize fails\\\"\", \"related_tasks_collection_link\": \"https://api.launchpad.net/1.0/nova/+bug/2093869/related_tasks\", \"is_complete\": false, \"http_etag\": \"\\\"etag-2093869\\\"\"}, {\"self_link\": \"https://api.launchpad.net/1.0/nova/+bug/2093879\", \"web_link\": \"https://bugs.launchpad.net/nova/+bug/2093879\", \"resource_type_link\": \"https://api.launchpad.net/1.0/#bug_task\", \"bug_link\": \"https://api.launchpad.net/1.0/bugs/2093879\", \"status\": \"New\", \"importance\": \"Undecided\", \"bug_target_display_name\": \"OpenStack Compute (nova)\", \"bug_target_name\": \"nova\", \"date_created\": \"2025-01-10T10:02:00.000000+00:00\", \"target_link\": \"https://api.launchpad.net/1.0/nova\", \"title\": \"Bug #2093879 in OpenStack Compute (nova): \\\"Live migration stalls\\\"\", \"related_tasks_collection_link\": \"https://api.launchpad.net/1.0/nova/+bug/2093879/related_tasks\", \"is_complete\": false, \"http_etag\": \"\\\"etag-2093879\\\"\"}]}"@
}

fn fake_bug_tasks_page_1() -> (r: String)
    ensures
        r@ == spec_fake_page_1(),
{
    String::from_str(
        "{\"start\": 0, \"total_size\": 4, \"next_collection_link\": \"https://api.launchpad.net/1.0/nova?status=New&ws.op=searchTasks&ws.size=2&memo=2&ws.start=2\", \"entries\": [{\"self_link\": \"https://api.launchpad.net/1.0/nova/+bug/2093869\", \"web_link\": \"https://bugs.launchpad.net/nova/+bug/2093869\", \"resource_type_link\": \"https://api.launchpad.net/1.0/#bug_task\", \"bug_link\": \"https://api.launchpad.net/1.0/bugs/2093869\", \"status\": \"New\", \"importance\": \"Undecided\", \"bug_target_display_name\": \"OpenStack Compute (nova)\", \"bug_target_name\": \"nova\", \"date_created\": \"2025-01-13T08:46:25.105013+00:00\", \"target_link\": \"https://api.launchpad.net/1.0/nova\", \"title\": \"Bug #2093869 in OpenStack Compute (nova): \\\"Instance resize fails\\\"\", \"related_tasks_collection_link\": \"https://api.launchpad.net/1.0/nova/+bug/2093869/related_tasks\", \"is_complete\": false, \"http_etag\": \"\\\"etag-2093869\\\"\"}, {\"self_link\": \"https://api.launchpad.net/1.0/nova/+bug/2093879\", \"web_link\": \"https://bugs.launchpad.net/nova/+bug/2093879\", \"resource_type_link\": \"https://api.launchpad.net/1.0/#bug_task\", \"bug_link\": \"https://api.launchpad.net/1.0/bugs/2093879\", \"status\": \"New\", \"importance\": \"Undecided\", \"bug_target_display_name\": \"OpenStack Compute (nova)\", \"bug_target_name\": \"nova\", \"date_created\": \"2025-01-10T10:02:00.000000+00:00\", \"target_link\": \"https://api.launchpad.net/1.0/nova\", \"title\": \"Bug #2093879 in OpenStack Compute (nova): \\\"Live migration stalls\\\"\", \"related_tasks_collection_link\": \"https://api.launchpad.net/1.0/nova/+bug/2093879/related_tasks\", \"is_complete\": false, \"http_etag\": \"\\\"etag-2093879\\\"\"}]}",
    )
}

/// The second and last search page: two entries, no cursor.
pub open spec fn spec_fake_page_2() -> Seq<char> {
    "{\"start\": 2, \"total_size\": 4, \"entries\": [{\"self_link\": \"https://api.launchpad.net/1.0/nova/+bug/2066206\", \"web_link\": \"https://bugs.launchpad.net/nova/+bug/2066206\", \"resource_type_link\": \"https://api.launchpad.net/1.0/#bug_task\", \"bug_link\": \"https://api.launchpad.net/1.0/bugs/2066206\", \"status\": \"New\", \"importance\": \"Undecided\", \"bug_target_display_name\": \"OpenStack Compute (nova)\", \"bug_target_name\": \"nova\", \"date_created\": \"2025-01-12T18:30:45.500000+00:00\", \"target_link\": \"https://api.launchpad.net/1.0/nova\", \"title\": \"Bug #2066206 in OpenStack Compute (nova): \\\"Scheduler races on rebuild\\\"\", \"related_tasks_collection_link\": \"https://api.launchpad.net/1.0/nova/+bug/2066206/related_tasks\", \"is_complete\": false, \"http_etag\": \"\\\"etag-2066206\\\"\"}, {\"self_link\": \"https://api.launchpad.net/1.0/nova/+bug/2067081\", \"web_link\": \"https://bugs.launchpad.net/nova/+bug/2067081\", \"resource_type_link\": \"https://api.launchpad.net/1.0/#bug_task\", \"bug_link\": \"https://api.launchpad.net/1.0/bugs/2067081\", \"status\": \"New\", \"importance\": \"Undecided\", \"bug_target_display_name\": \"OpenStack Compute (nova)\", \"bug_target_name\": \"nova\", \"date_created\": null, \"target_link\": \"https://api.launchpad.net/1.0/nova\", \"title\": \"Bug #2067081 in OpenStack Compute (nova): \\\"Volume detach hangs\\\"\", \"related_tasks_collection_link\": \"https://api.launchpad.net/1.0/nova/+bug/2067081/related_tasks\", \"is_complete\": false, \"http_etag\": \"\\\"etag-2067081\\\"\"}]}"@
}

fn fake_bug_tasks_page_2() -> (r: String)
    ensures
        r@ == spec_fake_page_2(),
{
    String::from_str(
        "{\"start\": 2, \"total_size\": 4, \"entries\": [{\"self_link\": \"https://api.launchpad.net/1.0/nova/+bug/2066206\", \"web_link\": \"https://bugs.launchpad.net/nova/+bug/2066206\", \"resource_type_link\": \"https://api.launchpad.net/1.0/#bug_task\", \"bug_link\": \"https://api.launchpad.net/1.0/bugs/2066206\", \"status\": \"New\", \"importance\": \"Undecided\", \"bug_target_display_name\": \"OpenStack Compute (nova)\", \"bug_target_name\": \"nova\", \"date_created\": \"2025-01-12T18:30:45.500000+00:00\", \"target_link\": \"https://api.launchpad.net/1.0/nova\", \"title\": \"Bug #2066206 in OpenStack Compute (nova): \\\"Scheduler races on rebuild\\\"\", \"related_tasks_collection_link\": \"https://api.launchpad.net/1.0/nova/+bug/2066206/related_tasks\", \"is_complete\": false, \"http_etag\": \"\\\"etag-2066206\\\"\"}, {\"self_link\": \"https://api.launchpad.net/1.0/nova/+bug/2067081\", \"web_link\": \"https://bugs.launchpad.net/nova/+bug/2067081\", \"resource_type_link\": \"https://api.launchpad.net/1.0/#bug_task\", \"bug_link\": \"https://api.launchpad.net/1.0/bugs/2067081\", \"status\": \"New\", \"importance\": \"Undecided\", \"bug_target_display_name\": \"OpenStack Compute (nova)\", \"bug_target_name\": \"nova\", \"date_created\": null, \"target_link\": \"https://api.launchpad.net/1.0/nova\", \"title\": \"Bug #2067081 in OpenStack Compute (nova): \\\"Volume detach hangs\\\"\", \"related_tasks_collection_link\": \"https://api.launchpad.net/1.0/nova/+bug/2067081/related_tasks\", \"is_complete\": false, \"http_etag\": \"\\\"etag-2067081\\\"\"}]}",
    )
}

/// A full record whose identity field is named `key` (the well-formed
/// record uses `self_link`; a misnamed key makes the record undecodable),
/// whose identity URL is `url`, and whose id field reads `seg`.
pub open spec fn spec_fake_bug_payload(key: Seq<char>, url: Seq<char>, seg: Seq<char>) -> Seq<
    char,
> {
    "{\""@ + key + "\": \""@ + url
        + "\", \"web_link\": \"https://bugs.launchpad.net/bugs/"@ + seg
        + "\", \"resource_type_link\": \"https://api.launchpad.net/1.0/#bug\", \"id\": "@ + seg
        + ", \"private\": false, \"information_type\": \"Public\", \"name\": null, \"title\": \"A fake record served offline\", \"description\": \"Steps to reproduce: run the offline client.\", \"owner_link\": \"https://api.launchpad.net/1.0/~someone\", \"bug_tasks_collection_link\": \"https://api.launchpad.net/1.0/bugs/"@
        + seg
        + "/bug_tasks\", \"duplicate_of_link\": null, \"date_created\": \"2025-01-13T08:46:25.105013+00:00\", \"activity_collection_link\": \"https://api.launchpad.net/1.0/bugs/"@
        + seg
        + "/activity\", \"can_expire\": false, \"subscriptions_collection_link\": \"https://api.launchpad.net/1.0/bugs/"@
        + seg
        + "/subscriptions\", \"date_last_updated\": \"2025-01-14T09:00:00.000000+00:00\", \"who_made_private_link\": null, \"date_made_private\": null, \"heat\": 6, \"bug_watches_collection_link\": \"https://api.launchpad.net/1.0/bugs/"@
        + seg
        + "/bug_watches\", \"cves_collection_link\": \"https://api.launchpad.net/1.0/bugs/"@
        + seg
        + "/cves\", \"vulnerabilities_collection_link\": \"https://api.launchpad.net/1.0/bugs/"@
        + seg
        + "/vulnerabilities\", \"duplicates_collection_link\": \"https://api.launchpad.net/1.0/bugs/"@
        + seg
        + "/duplicates\", \"attachments_collection_link\": \"https://api.launchpad.net/1.0/bugs/"@
        + seg
        + "/attachments\", \"security_related\": false, \"latest_patch_uploaded\": null, \"tags\": [\"fake\", \"offline\"], \"date_last_message\": \"\", \"number_of_duplicates\": 0, \"message_count\": 2, \"users_affected_count\": 1, \"users_unaffected_count\": 0, \"users_affected_collection_link\": \"https://api.launchpad.net/1.0/bugs/"@
        + seg
        + "/users_affected\", \"users_unaffected_collection_link\": \"https://api.launchpad.net/1.0/bugs/"@
        + seg
        + "/users_unaffected\", \"users_affected_count_with_dupes\": 1, \"other_users_affected_count_with_dupes\": 0, \"users_affected_with_dupes_collection_link\": \"https://api.launchpad.net/1.0/bugs/"@
        + seg
        + "/users_affected_with_dupes\", \"messages_collection_link\": \"https://api.launchpad.net/1.0/bugs/"@
        + seg + "/messages\", \"linked_branches_collection_link\": \"https://api.launchpad.net/1.0/bugs/"@
        + seg + "/linked_branches\", \"http_etag\": \"\\\"etag-fake\\\"\"}"@
}

fn fake_bug_payload(key: &str, url: &str, seg: &str) -> (r: String)
    ensures
        r@ == spec_fake_bug_payload(key@, url@, seg@),
{
    let mut s = String::from_str("{\"");
    s.append(key);
    s.append("\": \"");
    s.append(url);
    s.append("\", \"web_link\": \"https://bugs.launchpad.net/bugs/");
    s.append(seg);
    s.append("\", \"resource_type_link\": \"https://api.launchpad.net/1.0/#bug\", \"id\": ");
    s.append(seg);
    s.append(
        ", \"private\": false, \"information_type\": \"Public\", \"name\": null, \"title\": \"A fake record served offline\", \"description\": \"Steps to reproduce: run the offline client.\", \"owner_link\": \"https://api.launchpad.net/1.0/~someone\", \"bug_tasks_collection_link\": \"https://api.launchpad.net/1.0/bugs/",
    );
    s.append(seg);
    s.append(
        "/bug_tasks\", \"duplicate_of_link\": null, \"date_created\": \"2025-01-13T08:46:25.105013+00:00\", \"activity_collection_link\": \"https://api.launchpad.net/1.0/bugs/",
    );
    s.append(seg);
    s.append(
        "/activity\", \"can_expire\": false, \"subscriptions_collection_link\": \"https://api.launchpad.net/1.0/bugs/",
    );
    s.append(seg);
    s.append(
        "/subscriptions\", \"date_last_updated\": \"2025-01-14T09:00:00.000000+00:00\", \"who_made_private_link\": null, \"date_made_private\": null, \"heat\": 6, \"bug_watches_collection_link\": \"https://api.launchpad.net/1.0/bugs/",
    );
    s.append(seg);
    s.append("/bug_watches\", \"cves_collection_link\": \"https://api.launchpad.net/1.0/bugs/");
    s.append(seg);
    s.append(
        "/cves\", \"vulnerabilities_collection_link\": \"https://api.launchpad.net/1.0/bugs/",
    );
    s.append(seg);
    s.append(
        "/vulnerabilities\", \"duplicates_collection_link\": \"https://api.launchpad.net/1.0/bugs/",
    );
    s.append(seg);
    s.append(
        "/duplicates\", \"attachments_collection_link\": \"https://api.launchpad.net/1.0/bugs/",
    );
    s.append(seg);
    s.append(
        "/attachments\", \"security_related\": false, \"latest_patch_uploaded\": null, \"tags\": [\"fake\", \"offline\"], \"date_last_message\": \"\", \"number_of_duplicates\": 0, \"message_count\": 2, \"users_affected_count\": 1, \"users_unaffected_count\": 0, \"users_affected_collection_link\": \"https://api.launchpad.net/1.0/bugs/",
    );
    s.append(seg);
    s.append(
        "/users_affected\", \"users_unaffected_collection_link\": \"https://api.launchpad.net/1.0/bugs/",
    );
    s.append(seg);
    s.append(
        "/users_unaffected\", \"users_affected_count_with_dupes\": 1, \"other_users_affected_count_with_dupes\": 0, \"users_affected_with_dupes_collection_link\": \"https://api.launchpad.net/1.0/bugs/",
    );
    s.append(seg);
    s.append(
        "/users_affected_with_dupes\", \"messages_collection_link\": \"https://api.launchpad.net/1.0/bugs/",
    );
    s.append(seg);
    s.append(
        "/messages\", \"linked_branches_collection_link\": \"https://api.launchpad.net/1.0/bugs/",
    );
    s.append(seg);
    s.append("/linked_branches\", \"http_etag\": \"\\\"etag-fake\\\"\"}");
    s
}

/// The payload the offline client serves for a URL: each fixture by name,
/// and for any other URL the templated record carrying that URL and its
/// last path segment.
pub open spec fn spec_fake_response(url: Seq<char>) -> Seq<char> {
    if url == "https://api.launchpad.net/1.0/bugs/5000"@ {
        spec_fake_bug_payload("dself_link"@, url, "5000"@)
    } else if url == "https://api.launchpad.net/1.0/nova"@ {
        spec_fake_project()
    } else if url == "https://api.launchpad.net/1.0/nova?ws.op=searchTasks&status=New"@ {
        spec_fake_page_1()
    } else if url
        == "https://api.launchpad.net/1.0/nova?status=New&ws.op=searchTasks&ws.size=2&memo=2&ws.start=2"@ {
        spec_fake_page_2()
    } else if url == "https://api.launchpad.net/1.0/zorglub"@ {
        "{}"@
    } else if url == "https://api.launchpad.net/1.0/notaproject"@ {
        "Object: <lp.systemhomes.WebServiceApplication object at 0x7f92e7ae4730>, name: 'notaproject'"@
    } else {
        spec_fake_bug_payload("self_link"@, url, spec_last_segment(url))
    }
}

impl HTTPClient for FakeClient {
    /// The offline client never fails, and for every URL it returns
    /// exactly the canned payload, whichever instance is asked: the
    /// response depends on the URL alone.
    open spec fn models(&self, url: Seq<char>, r: Result<String, LaunchpadError>) -> bool {
        r matches Ok(t) && t@ == spec_fake_response(url)
    }

    fn get(&self, url: &str) -> (r: Result<String, LaunchpadError>) {
        if str_eq(url, "https://api.launchpad.net/1.0/bugs/5000") {
            // A payload whose identity field is misnamed, so a required
            // field is missing.
            Ok(fake_bug_payload("dself_link", url, "5000"))
        } else if str_eq(url, "https://api.launchpad.net/1.0/nova") {
            Ok(fake_project())
        } else if str_eq(url, "https://api.launchpad.net/1.0/nova?ws.op=searchTasks&status=New") {
            Ok(fake_bug_tasks_page_1())
        } else if str_eq(
            url,
            "https://api.launchpad.net/1.0/nova?status=New&ws.op=searchTasks&ws.size=2&memo=2&ws.start=2",
        ) {
            Ok(fake_bug_tasks_page_2())
        } else if str_eq(url, "https://api.launchpad.net/1.0/zorglub") {
            Ok(String::from_str("{}"))
        } else if str_eq(url, "https://api.launchpad.net/1.0/notaproject") {
            Ok(
                String::from_str(
                    "Object: <lp.systemhomes.WebServiceApplication object at 0x7f92e7ae4730>, name: 'notaproject'",
                ),
            )
        } else {
            let seg = last_segment(url);
            Ok(fake_bug_payload("self_link", url, seg.as_str()))
        }
    }
}

} // verus!
