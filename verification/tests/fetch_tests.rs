use ratatai::fake::FakeClient;
use ratatai::fetch::{bug_url, check_project, get_bug, get_project_bug_tasks, project_url, search_url};
use ratatai::model::{DecodeError, LaunchpadError};
use ratatai::status::StatusFilter;
use ratatai::transport::HTTPClient;

#[test]
fn test_get_bug() {
    let client = FakeClient::new();

    let json = get_bug(&client, 666);

    assert!(json.is_ok());
    assert_eq!(json.unwrap().id, 666);
}

#[test]
fn test_get_bug_deserialize_error() {
    let client = FakeClient::new();

    let json = get_bug(&client, 5000);

    assert!(json.is_err());

    let error = format!("{:?}", json.unwrap_err());
    assert_eq!("Deserialization(MissingField(\"self_link\"))", &error);
}

#[test]
fn test_get_project_bugs() {
    let bug_links_ref = [
        "https://api.launchpad.net/1.0/bugs/2093869",
        "https://api.launchpad.net/1.0/bugs/2093879",
        "https://api.launchpad.net/1.0/bugs/2066206",
        "https://api.launchpad.net/1.0/bugs/2067081",
    ];

    let client = FakeClient::new();

    let bug_tasks = get_project_bug_tasks(&client, "nova", Some(StatusFilter::New));

    assert!(bug_tasks.is_ok());
    let bug_tasks = bug_tasks.unwrap();
    assert_eq!(bug_tasks.len(), 4);

    let bug_links: Vec<&String> = bug_tasks.iter().map(|b| &b.bug_link).collect();
    assert_eq!(bug_links, bug_links_ref);
}

#[test]
fn test_get_project_bugs_empty_json_invalid_project_error() {
    let client = FakeClient::new();

    let json = get_project_bug_tasks(&client, "zorglub", None);

    assert!(json.is_err());

    let error = format!("{:?}", json.unwrap_err());
    assert_eq!("InvalidProject(\"zorglub\")", &error);
}

#[test]
fn test_get_project_bugs_invalid_json_invalid_project_error() {
    let client = FakeClient::new();

    let json = get_project_bug_tasks(&client, "notaproject", None);

    assert!(json.is_err());

    let error = format!("{:?}", json.unwrap_err());
    assert_eq!("InvalidProject(\"notaproject\")", &error);
}

#[test]
fn test_fake_client() {
    let client = FakeClient::new();
    let url = "http://truc/bidule";

    let result = client.get(url);

    assert!(result.is_ok());
    let payload = result.unwrap();
    assert!(payload.contains("\"self_link\": \"http://truc/bidule\""));
    // The default arm embeds the URL's last path segment verbatim.
    assert!(payload.contains("\"id\": bidule"));
}

#[test]
fn test_refetch_same_id_identical() {
    let client = FakeClient::new();

    let first = get_bug(&client, 666).unwrap();
    let second = get_bug(&client, 666).unwrap();

    assert_eq!(first, second);
}

#[test]
fn test_check_project_accepts_matching_self_link() {
    let url = "https://api.launchpad.net/1.0/nova";
    let payload = "{\"self_link\": \"https://api.launchpad.net/1.0/nova\"}";

    assert!(check_project("nova", url, payload).is_ok());
}

#[test]
fn test_check_project_wrong_self_link_is_invalid_project() {
    let url = "https://api.launchpad.net/1.0/nova";
    let payload = "{\"self_link\": \"https://api.launchpad.net/1.0/other\"}";

    let r = check_project("nova", url, payload);
    assert_eq!(format!("{:?}", r.unwrap_err()), "InvalidProject(\"nova\")");
}

#[test]
fn test_check_project_truncated_json_is_deserialization() {
    let url = "https://api.launchpad.net/1.0/nova";
    // A truncated document fails the parser with a non-syntax category.
    let payload = "{\"self_link\": ";

    let r = check_project("nova", url, payload);
    match r.unwrap_err() {
        LaunchpadError::Deserialization(DecodeError::Json(_)) => {}
        other => panic!("expected a deserialization error, got {:?}", other),
    }
}

#[test]
fn test_url_builders() {
    assert_eq!(project_url("nova"), "https://api.launchpad.net/1.0/nova");
    assert_eq!(
        search_url("nova", &None),
        "https://api.launchpad.net/1.0/nova?ws.op=searchTasks"
    );
    assert_eq!(
        search_url("nova", &Some(StatusFilter::New)),
        "https://api.launchpad.net/1.0/nova?ws.op=searchTasks&status=New"
    );
    assert_eq!(bug_url(666), "https://api.launchpad.net/1.0/bugs/666");
}

#[test]
fn test_entry_get_id() {
    let client = FakeClient::new();
    let bug_tasks = get_project_bug_tasks(&client, "nova", Some(StatusFilter::New)).unwrap();

    assert_eq!(bug_tasks[0].get_id(), Some(2093869));
}
