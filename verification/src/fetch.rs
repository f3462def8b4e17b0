//! The fetchers: project validation, the paginated task search, and the
//! one-shot record fetch by id.
//!
//! Every round trip goes through an [`HTTPClient`]; what a fetcher returns
//! is stated against the client's own model of its round trips, so the
//! contracts hold for the live transport and the offline one alike.

use vstd::prelude::*;

use crate::decode::{
    bug_payload_issue, bug_payload_matches, decode_bug_payload, decode_page_payload,
    page_payload_issue, page_payload_matches,
};
use crate::json::{parse_json, spec_lookup, spec_parse_json, str_eq, JsonValue, ParseOutcome,
    lookup};
use crate::model::{
    decode_error_matches, BugTaskEntry, DecodeError, LaunchpadBug, LaunchpadBugTasksResponse,
    LaunchpadError,
};
use crate::status::{spec_token, StatusFilter};
use crate::text::{spec_dec_digits, u32_to_string};
use crate::transport::HTTPClient;

verus! {

/// The most pages one search is allowed to follow; a defensive bound on
/// the server-issued cursor chain, so a cyclic chain cannot keep a fetch
/// running forever.
pub const MAX_PAGES: usize = 100000;

/// The URL of a project's own resource.
pub open spec fn spec_project_url(name: Seq<char>) -> Seq<char> {
    "https://api.launchpad.net/1.0/"@ + name
}

/// Builds the URL of a project's own resource.
pub fn project_url(name: &str) -> (r: String)
    ensures
        r@ == spec_project_url(name@),
{
    let mut u = String::from_str("https://api.launchpad.net/1.0/");
    u.append(name);
    u
}

/// The URL of the first search page for a project, with the optional
/// status filter's token appended.
pub open spec fn spec_search_url(name: Seq<char>, filter: Option<StatusFilter>) -> Seq<char> {
    match filter {
        Option::None => "https://api.launchpad.net/1.0/"@ + name + "?ws.op=searchTasks"@,
        Option::Some(f) => "https://api.launchpad.net/1.0/"@ + name + "?ws.op=searchTasks&status="@
            + spec_token(f),
    }
}

/// Builds the URL of the first search page.
pub fn search_url(name: &str, filter: &Option<StatusFilter>) -> (r: String)
    ensures
        r@ == spec_search_url(name@, *filter),
{
    let mut u = String::from_str("https://api.launchpad.net/1.0/");
    u.append(name);
    match filter {
        None => {
            u.append("?ws.op=searchTasks");
        },
        Some(f) => {
            u.append("?ws.op=searchTasks&status=");
            let tok = f.token();
            u.append(tok.as_str());
        },
    }
    u
}

/// The URL of one record's resource.
pub open spec fn spec_bug_url(bug_id: u32) -> Seq<char> {
    "https://api.launchpad.net/1.0/bugs/"@ + spec_dec_digits(bug_id as nat)
}

/// Builds the URL of one record's resource.
pub fn bug_url(bug_id: u32) -> (r: String)
    ensures
        r@ == spec_bug_url(bug_id),
{
    let mut u = String::from_str("https://api.launchpad.net/1.0/bugs/");
    let digits = u32_to_string(bug_id);
    u.append(digits.as_str());
    u
}

/// Whether the parsed payload identifies itself as the resource at `url`:
/// an object whose `self_link` field is exactly that string.
pub open spec fn spec_self_link_is(v: JsonValue, url: Seq<char>) -> bool {
    match v {
        JsonValue::Obj(fs) => match spec_lookup(fs@, "self_link"@) {
            Option::Some(JsonValue::Str(s)) => s@ == url,
            _ => false,
        },
        _ => false,
    }
}

/// Whether a project payload passes validation: well-formed JSON that
/// identifies itself as the requested resource.
pub open spec fn spec_project_accepted(url: Seq<char>, resp: Seq<char>) -> bool {
    match spec_parse_json(resp) {
        ParseOutcome::Json(v) => spec_self_link_is(v, url),
        _ => false,
    }
}

/// Whether a project payload carries the invalid-project signal.  Two
/// distinct causes collapse into it deliberately: text that is not JSON at
/// all (the service answers plain text for unknown names), and valid JSON
/// that does not identify itself as the requested resource.
pub open spec fn spec_project_invalid(resp: Seq<char>, url: Seq<char>) -> bool {
    match spec_parse_json(resp) {
        ParseOutcome::SyntaxBroken => true,
        ParseOutcome::OtherBroken(_) => false,
        ParseOutcome::Json(v) => !spec_self_link_is(v, url),
    }
}

/// Validates a project payload fetched from `url` for the project named
/// `project_name`.
///
/// A payload that is not JSON at all, and a well-formed one whose
/// self-identifying URL differs from the requested one, both collapse to
/// the invalid-project error carrying the requested name; only a parse
/// failure of another category (a truncated document, say) surfaces as a
/// deserialization error.
pub fn check_project(project_name: &str, url: &str, response: &str) -> (r: Result<
    (),
    LaunchpadError,
>)
    ensures
        r is Ok <==> spec_project_accepted(url@, response@),
        (r matches Err(e) && e is InvalidProject) <==> spec_project_invalid(response@, url@),
        r matches Err(e) ==> match e {
            LaunchpadError::InvalidProject(n) => n@ == project_name@,
            LaunchpadError::Deserialization(d) => spec_parse_json(response@) is OtherBroken && d
                == DecodeError::Json(spec_parse_json(response@)->OtherBroken_0),
            _ => false,
        },
{
    match parse_json(response) {
        ParseOutcome::SyntaxBroken => Err(
            LaunchpadError::InvalidProject(String::from_str(project_name)),
        ),
        ParseOutcome::OtherBroken(m) => Err(
            LaunchpadError::Deserialization(DecodeError::Json(m)),
        ),
        ParseOutcome::Json(v) => {
            let ok = match &v {
                JsonValue::Obj(fields) => match lookup(fields, "self_link") {
                    Some(JsonValue::Str(s)) => str_eq(s.as_str(), url),
                    _ => false,
                },
                _ => false,
            };
            if ok {
                Ok(())
            } else {
                Err(LaunchpadError::InvalidProject(String::from_str(project_name)))
            }
        },
    }
}

/// One fetched-and-decoded page: some payload the client admits for `url`
/// decodes to `p`.
pub open spec fn page_fetched<C: HTTPClient>(
    client: &C,
    url: Seq<char>,
    p: LaunchpadBugTasksResponse,
) -> bool {
    exists|t: String|
        client.models(url, Ok(t)) && #[trigger] page_payload_matches(p, t@)
}

/// Whether the pages form a finished cursor chain: every page but the last
/// carries a continuation cursor, and the last carries none.
pub open spec fn chain_connected(pages: Seq<LaunchpadBugTasksResponse>) -> bool {
    &&& pages.len() >= 1
    &&& forall|i: int|
        0 <= i < pages.len() - 1 ==> (#[trigger] pages[i].next_collection_link) is Some
    &&& pages.last().next_collection_link is None
}

/// Whether each page of the chain was fetched from the right URL: the
/// first from `first_url`, each later one from the exact cursor its
/// predecessor declared.
pub open spec fn pages_fetched<C: HTTPClient>(
    client: &C,
    first_url: Seq<char>,
    pages: Seq<LaunchpadBugTasksResponse>,
) -> bool {
    &&& pages.len() >= 1
    &&& page_fetched(client, first_url, pages[0])
    &&& forall|i: int|
        1 <= i < pages.len() ==> (pages[i - 1].next_collection_link is Some && #[trigger] page_fetched(
            client,
            pages[i - 1].next_collection_link->Some_0@,
            pages[i],
        ))
}

/// The entries of the pages, concatenated in page order with each page's
/// own order kept.
pub open spec fn concat_entries(pages: Seq<LaunchpadBugTasksResponse>) -> Seq<BugTaskEntry>
    decreases pages.len(),
{
    if pages.len() == 0 {
        Seq::empty()
    } else {
        concat_entries(pages.drop_last()) + pages.last().entries@
    }
}

/// The sum of the pages' entry counts.
pub open spec fn total_entries(pages: Seq<LaunchpadBugTasksResponse>) -> nat
    decreases pages.len(),
{
    if pages.len() == 0 {
        0
    } else {
        total_entries(pages.drop_last()) + pages.last().entries@.len()
    }
}

/// The concatenation of a page chain's entries is exactly as long as the
/// pages' entry counts add up to.
pub proof fn lemma_concat_entries_len(pages: Seq<LaunchpadBugTasksResponse>)
    ensures
        concat_entries(pages).len() == total_entries(pages),
    decreases pages.len(),
{
    if pages.len() > 0 {
        lemma_concat_entries_len(pages.drop_last());
    }
}

/// Where a page's entries begin inside the concatenation: the sum of the
/// entry counts of the pages before it.
pub open spec fn entries_offset(pages: Seq<LaunchpadBugTasksResponse>, i: int) -> nat {
    total_entries(pages.take(i))
}

/// Order preservation: the concatenation lists the pages' entries in page
/// order, each page's own order kept.
pub proof fn lemma_concat_entries_order(pages: Seq<LaunchpadBugTasksResponse>, i: int, k: int)
    requires
        0 <= i < pages.len(),
        0 <= k < pages[i].entries@.len(),
    ensures
        entries_offset(pages, i) + k < concat_entries(pages).len(),
        concat_entries(pages)[entries_offset(pages, i) + k as int] == pages[i].entries@[k],
    decreases pages.len(),
{
    lemma_concat_entries_len(pages);
    if i == pages.len() - 1 {
        assert(pages.take(i) =~= pages.drop_last());
        lemma_concat_entries_len(pages.drop_last());
    } else {
        lemma_concat_entries_order(pages.drop_last(), i, k);
        assert(pages.drop_last().take(i) =~= pages.take(i));
        assert(pages.drop_last()[i] == pages[i]);
        lemma_concat_entries_len(pages.drop_last());
    }
}

/// A chain whose first page declares no cursor is the whole chain: the
/// search fetched exactly that one page, and the result is its entries
/// alone.
pub proof fn lemma_single_page_chain(pages: Seq<LaunchpadBugTasksResponse>)
    requires
        chain_connected(pages),
        pages[0].next_collection_link is None,
    ensures
        pages.len() == 1,
        concat_entries(pages) == pages[0].entries@,
{
    if pages.len() > 1 {
        assert(pages[0].next_collection_link is Some);
    }
    assert(pages.drop_last() =~= Seq::<LaunchpadBugTasksResponse>::empty());
    assert(concat_entries(Seq::<LaunchpadBugTasksResponse>::empty())
        == Seq::<BugTaskEntry>::empty());
    assert(pages.last() == pages[0]);
    assert(concat_entries(pages) == Seq::<BugTaskEntry>::empty() + pages[0].entries@);
    assert(Seq::<BugTaskEntry>::empty() + pages[0].entries@ =~= pages[0].entries@);
}

/// Fetches one search page and decodes it.
fn get_bug_tasks_page<C: HTTPClient>(client: &C, url: &str) -> (r: Result<
    LaunchpadBugTasksResponse,
    LaunchpadError,
>)
    ensures
        r matches Ok(p) ==> page_fetched(client, url@, p),
        r matches Err(e) ==> match e {
            LaunchpadError::HttpRequest(_) => client.models(url@, Err(e)),
            LaunchpadError::Deserialization(d) => exists|t: String|
                client.models(url@, Ok(t)) && #[trigger] decode_error_matches(
                    d,
                    page_payload_issue(t@),
                ),
            _ => false,
        },
{
    let text = match client.get(url) {
        Ok(t) => t,
        Err(e) => {
            return Err(e);
        },
    };
    match decode_page_payload(text.as_str()) {
        Ok(p) => {
            proof {
                assert(client.models(url@, Ok(text)) && page_payload_matches(p, text@));
            }
            Ok(p)
        },
        Err(d) => {
            proof {
                assert(client.models(url@, Ok(text)) && decode_error_matches(
                    d,
                    page_payload_issue(text@),
                ));
            }
            Err(LaunchpadError::Deserialization(d))
        },
    }
}

/// Moves a page's entries onto the accumulator, in page order, leaving
/// the page drained but otherwise unchanged.
fn copy_bug_tasks_page(
    page: &mut LaunchpadBugTasksResponse,
    bugtasks: &mut Vec<BugTaskEntry>,
)
    ensures
        final(bugtasks)@ == old(bugtasks)@ + old(page).entries@,
        final(page).entries@ == Seq::<BugTaskEntry>::empty(),
        final(page).start == old(page).start,
        final(page).total_size == old(page).total_size,
        final(page).next_collection_link == old(page).next_collection_link,
{
    bugtasks.append(&mut page.entries);
}

/// A transport failure of one of the fetch's own round trips: the project
/// resource, the first search page, or the cursor a fetched chain last
/// declared.
pub open spec fn transport_failed<C: HTTPClient>(
    client: &C,
    name: Seq<char>,
    filter: Option<StatusFilter>,
    e: LaunchpadError,
) -> bool {
    ||| client.models(spec_project_url(name), Err(e))
    ||| client.models(spec_search_url(name, filter), Err(e))
    ||| exists|pages: Seq<LaunchpadBugTasksResponse>|
        #[trigger] pages_fetched(client, spec_search_url(name, filter), pages)
            && pages.last().next_collection_link is Some && client.models(
            pages.last().next_collection_link->Some_0@,
            Err(e),
        )
}

/// A decode failure of one of the fetch's payloads: the project payload
/// broke in the parser with that message, or a search page payload — the
/// first page's or the one behind a fetched chain's last cursor — carried
/// that decode issue.
pub open spec fn decode_failed<C: HTTPClient>(
    client: &C,
    name: Seq<char>,
    filter: Option<StatusFilter>,
    d: DecodeError,
) -> bool {
    ||| exists|t: String|
        #[trigger] client.models(spec_project_url(name), Ok(t)) && spec_parse_json(t@)
            is OtherBroken && d == DecodeError::Json(spec_parse_json(t@)->OtherBroken_0)
    ||| exists|t: String|
        #[trigger] client.models(spec_search_url(name, filter), Ok(t)) && decode_error_matches(
            d,
            page_payload_issue(t@),
        )
    ||| exists|pages: Seq<LaunchpadBugTasksResponse>|
        #[trigger] pages_fetched(client, spec_search_url(name, filter), pages)
            && pages.last().next_collection_link is Some && (exists|t: String|
            #[trigger] client.models(pages.last().next_collection_link->Some_0@, Ok(t))
                && decode_error_matches(d, page_payload_issue(t@)))
}

/// A cursor chain that ran past the page budget: more pages than the
/// budget were fetched and every one of them declared a further cursor.
pub open spec fn chain_overran<C: HTTPClient>(
    client: &C,
    name: Seq<char>,
    filter: Option<StatusFilter>,
) -> bool {
    exists|pages: Seq<LaunchpadBugTasksResponse>|
        #[trigger] pages_fetched(client, spec_search_url(name, filter), pages) && pages.len()
            > MAX_PAGES && (forall|i: int|
            0 <= i < pages.len() ==> (#[trigger] pages[i].next_collection_link) is Some)
}

/// Fetches every task of a project matching the optional status filter.
///
/// The project resource is validated first: an invalid project fails fast,
/// before any search request.  Then the search pages are fetched one by
/// one, each at the exact cursor URL its predecessor declared, until a
/// page declares none, and their entries are concatenated in arrival
/// order.  On success the result is the concatenation of a finished
/// cursor chain of pages the client admits; each error names what went
/// wrong, with the invalid-project signal carrying the requested name.
pub fn get_project_bug_tasks<C: HTTPClient>(
    client: &C,
    project_name: &str,
    filter: Option<StatusFilter>,
) -> (r: Result<Vec<BugTaskEntry>, LaunchpadError>)
    ensures
        r matches Ok(entries) ==> ({
            &&& exists|t: String|
                client.models(spec_project_url(project_name@), Ok(t))
                    && #[trigger] spec_project_accepted(spec_project_url(project_name@), t@)
            &&& exists|pages: Seq<LaunchpadBugTasksResponse>|
                {
                    &&& #[trigger] chain_connected(pages)
                    &&& pages_fetched(client, spec_search_url(project_name@, filter), pages)
                    &&& entries@ == concat_entries(pages)
                }
        }),
        r matches Err(e) ==> match e {
            LaunchpadError::HttpRequest(_) => transport_failed(client, project_name@, filter, e),
            LaunchpadError::InvalidProject(n) => n@ == project_name@ && exists|t: String|
                client.models(spec_project_url(project_name@), Ok(t))
                    && #[trigger] spec_project_invalid(t@, spec_project_url(project_name@)),
            LaunchpadError::Deserialization(d) => decode_failed(client, project_name@, filter, d),
            LaunchpadError::TooManyPages => chain_overran(client, project_name@, filter),
        },
{
    let url = project_url(project_name);
    let response = match client.get(url.as_str()) {
        Ok(t) => t,
        Err(e) => {
            proof {
                assert(client.models(spec_project_url(project_name@), Err(e)));
            }
            return Err(e);
        },
    };
    match check_project(project_name, url.as_str(), response.as_str()) {
        Ok(()) => {
            proof {
                assert(client.models(spec_project_url(project_name@), Ok(response))
                    && spec_project_accepted(spec_project_url(project_name@), response@));
            }
        },
        Err(e) => {
            proof {
                assert(client.models(spec_project_url(project_name@), Ok(response)));
                if e is InvalidProject {
                    assert(spec_project_invalid(response@, spec_project_url(project_name@)));
                }
                match &e {
                    LaunchpadError::Deserialization(d) => {
                        assert(spec_parse_json(response@) is OtherBroken && *d == DecodeError::Json(
                            spec_parse_json(response@)->OtherBroken_0,
                        ));
                        assert(decode_failed(client, project_name@, filter, *d));
                    },
                    _ => {},
                }
            }
            return Err(e);
        },
    }

    let first_url = search_url(project_name, &filter);
    let mut page = match get_bug_tasks_page(client, first_url.as_str()) {
        Ok(p) => p,
        Err(e) => {
            proof {
                if e is HttpRequest {
                    assert(client.models(spec_search_url(project_name@, filter), Err(e)));
                }
                match &e {
                    LaunchpadError::Deserialization(d) => {
                        assert(decode_failed(client, project_name@, filter, *d));
                    },
                    _ => {},
                }
            }
            return Err(e);
        },
    };
    let ghost mut pages: Seq<LaunchpadBugTasksResponse> = seq![page];
    let mut bugtasks: Vec<BugTaskEntry> = Vec::new();
    copy_bug_tasks_page(&mut page, &mut bugtasks);
    proof {
        assert(pages.drop_last() =~= Seq::<LaunchpadBugTasksResponse>::empty());
        assert(concat_entries(Seq::<LaunchpadBugTasksResponse>::empty())
            == Seq::<BugTaskEntry>::empty());
        assert(concat_entries(pages) == Seq::<BugTaskEntry>::empty() + pages.last().entries@);
        assert(bugtasks@ =~= concat_entries(pages));
    }

    let mut budget: usize = MAX_PAGES;
    while page.next_collection_link.is_some()
        invariant
            pages.len() >= 1,
            pages.len() + budget == 1 + MAX_PAGES,
            pages_fetched(client, spec_search_url(project_name@, filter), pages),
            forall|i: int|
                0 <= i < pages.len() - 1 ==> (#[trigger] pages[i].next_collection_link) is Some,
            pages.last().next_collection_link == page.next_collection_link,
            bugtasks@ == concat_entries(pages),
        decreases budget,
    {
        if budget == 0 {
            proof {
                assert forall|i: int| 0 <= i < pages.len() implies (
                #[trigger] pages[i].next_collection_link) is Some by {
                    if i == pages.len() - 1 {
                        assert(pages.last().next_collection_link is Some);
                    }
                }
                assert(chain_overran(client, project_name@, filter));
            }
            return Err(LaunchpadError::TooManyPages);
        }
        budget = budget - 1;
        let next = match &page.next_collection_link {
            Some(u) => u.clone(),
            None => {
                proof {
                    assert(false);
                }
                return Err(LaunchpadError::TooManyPages);
            },
        };
        page = match get_bug_tasks_page(client, next.as_str()) {
            Ok(p) => p,
            Err(e) => {
                proof {
                    assert(pages.last().next_collection_link is Some
                        && pages.last().next_collection_link->Some_0@ == next@);
                    if e is HttpRequest {
                        assert(client.models(next@, Err(e)));
                        assert(transport_failed(client, project_name@, filter, e));
                    }
                    match &e {
                        LaunchpadError::Deserialization(d) => {
                            assert(decode_failed(client, project_name@, filter, *d));
                        },
                        _ => {},
                    }
                }
                return Err(e);
            },
        };
        proof {
            let gprev = pages;
            pages = pages.push(page);
            assert(pages.drop_last() =~= gprev);
            assert(pages.last() == page);
            assert(pages[pages.len() - 2] == gprev.last());
            assert(page_fetched(
                client,
                pages[pages.len() - 2].next_collection_link->Some_0@,
                pages[pages.len() - 1],
            ));
            assert forall|i: int| 1 <= i < pages.len() implies (pages[i
                - 1].next_collection_link is Some && #[trigger] page_fetched(
                client,
                pages[i - 1].next_collection_link->Some_0@,
                pages[i],
            )) by {
                if i < pages.len() - 1 {
                    assert(pages[i - 1] == gprev[i - 1]);
                    assert(pages[i] == gprev[i]);
                }
            }
        }
        copy_bug_tasks_page(&mut page, &mut bugtasks);
        proof {
            assert(concat_entries(pages) == concat_entries(pages.drop_last())
                + pages.last().entries@);
        }
    }
    proof {
        assert(chain_connected(pages));
    }
    Ok(bugtasks)
}

/// Whether some payload the client admits for the record's URL decodes to
/// the record `b`.
pub open spec fn bug_fetched<C: HTTPClient>(client: &C, bug_id: u32, b: LaunchpadBug) -> bool {
    exists|t: String|
        client.models(spec_bug_url(bug_id), Ok(t)) && #[trigger] bug_payload_matches(b, t@)
}

/// Fetches one record by id: one request, one decode, no validation step.
/// A decode failure of any kind surfaces as a deserialization error.
pub fn get_bug<C: HTTPClient>(client: &C, bug_id: u32) -> (r: Result<LaunchpadBug, LaunchpadError>)
    ensures
        r matches Ok(b) ==> bug_fetched(client, bug_id, b),
        r matches Err(e) ==> match e {
            LaunchpadError::HttpRequest(_) => client.models(spec_bug_url(bug_id), Err(e)),
            LaunchpadError::Deserialization(d) => exists|t: String|
                client.models(spec_bug_url(bug_id), Ok(t)) && #[trigger] decode_error_matches(
                    d,
                    bug_payload_issue(t@),
                ),
            _ => false,
        },
{
    let url = bug_url(bug_id);
    let text = match client.get(url.as_str()) {
        Ok(t) => t,
        Err(e) => {
            proof {
                assert(client.models(spec_bug_url(bug_id), Err(e)));
            }
            return Err(e);
        },
    };
    match decode_bug_payload(text.as_str()) {
        Ok(b) => {
            proof {
                assert(client.models(spec_bug_url(bug_id), Ok(text)) && bug_payload_matches(
                    b,
                    text@,
                ));
            }
            Ok(b)
        },
        Err(d) => {
            proof {
                assert(client.models(spec_bug_url(bug_id), Ok(text)) && decode_error_matches(
                    d,
                    bug_payload_issue(text@),
                ));
            }
            Err(LaunchpadError::Deserialization(d))
        },
    }
}

} // verus!
