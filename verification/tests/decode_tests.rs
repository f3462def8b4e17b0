use ratatai::decode::{decode_bug_payload, decode_page_payload};
use ratatai::model::DecodeError;
use ratatai::transport::HTTPClient;

fn entry_json(date_created: &str) -> String {
    format!(
        "{{\"self_link\": \"https://api.launchpad.net/1.0/nova/+bug/1\", \
          \"web_link\": \"https://bugs.launchpad.net/nova/+bug/1\", \
          \"resource_type_link\": \"https://api.launchpad.net/1.0/#bug_task\", \
          \"bug_link\": \"https://api.launchpad.net/1.0/bugs/1\", \
          \"status\": \"New\", \"importance\": \"Undecided\", \
          \"bug_target_display_name\": \"OpenStack Compute (nova)\", \
          \"bug_target_name\": \"nova\"{}, \
          \"target_link\": \"https://api.launchpad.net/1.0/nova\", \
          \"title\": \"t\", \
          \"related_tasks_collection_link\": \"https://api.launchpad.net/1.0/nova/+bug/1/related_tasks\", \
          \"is_complete\": false, \"http_etag\": \"e\"}}",
        date_created
    )
}

fn page_json(entry: &str) -> String {
    format!(
        "{{\"start\": 0, \"total_size\": 1, \"entries\": [{}]}}",
        entry
    )
}

#[test]
fn test_timestamp_absent_decodes_to_no_value() {
    let page = page_json(&entry_json(""));
    let p = decode_page_payload(&page).unwrap();
    assert_eq!(p.entries[0].date_created, None);
}

#[test]
fn test_timestamp_null_decodes_to_no_value() {
    let page = page_json(&entry_json(", \"date_created\": null"));
    let p = decode_page_payload(&page).unwrap();
    assert_eq!(p.entries[0].date_created, None);
}

#[test]
fn test_timestamp_empty_string_decodes_to_no_value() {
    let page = page_json(&entry_json(", \"date_created\": \"\""));
    let p = decode_page_payload(&page).unwrap();
    assert_eq!(p.entries[0].date_created, None);
}

#[test]
fn test_timestamp_unparseable_decodes_to_no_value() {
    let page = page_json(&entry_json(", \"date_created\": \"not a date\""));
    let p = decode_page_payload(&page).unwrap();
    assert_eq!(p.entries[0].date_created, None);
}

#[test]
fn test_timestamp_parses_to_microseconds() {
    let page = page_json(&entry_json(
        ", \"date_created\": \"1970-01-01T00:00:01.000001+00:00\"",
    ));
    let p = decode_page_payload(&page).unwrap();
    assert_eq!(p.entries[0].date_created.unwrap().micros, 1_000_001);
}

#[test]
fn test_page_fields() {
    let page = page_json(&entry_json(""));
    let p = decode_page_payload(&page).unwrap();
    assert_eq!(p.start, 0);
    assert_eq!(p.total_size, 1);
    assert_eq!(p.next_collection_link, None);
    assert_eq!(p.entries.len(), 1);
    assert_eq!(p.entries[0].status, "New");
    assert_eq!(p.entries[0].is_complete, false);
}

#[test]
fn test_page_missing_required_field_names_it() {
    let page = "{\"start\": 0, \"entries\": []}";
    let e = decode_page_payload(page).unwrap_err();
    assert_eq!(e, DecodeError::MissingField("total_size".to_string()));
}

#[test]
fn test_page_wrong_type_names_the_field() {
    let page = "{\"start\": \"zero\", \"total_size\": 0, \"entries\": []}";
    let e = decode_page_payload(page).unwrap_err();
    assert_eq!(e, DecodeError::WrongType("start".to_string()));
}

#[test]
fn test_page_number_out_of_range_is_wrong_type() {
    let page = "{\"start\": 4294967296, \"total_size\": 0, \"entries\": []}";
    let e = decode_page_payload(page).unwrap_err();
    assert_eq!(e, DecodeError::WrongType("start".to_string()));
}

#[test]
fn test_page_not_json_at_all() {
    let e = decode_page_payload("plainly not json").unwrap_err();
    assert_eq!(e, DecodeError::NotJson);
}

#[test]
fn test_page_non_object_payload() {
    let e = decode_page_payload("[1, 2, 3]").unwrap_err();
    assert_eq!(e, DecodeError::NotObject);
}

#[test]
fn test_bug_payload_tags_and_counters() {
    let client = ratatai::fake::FakeClient::new();
    let payload = client
        .get("https://api.launchpad.net/1.0/bugs/666")
        .unwrap();
    let b = decode_bug_payload(&payload).unwrap();
    assert_eq!(b.id, 666);
    assert_eq!(b.tags, vec!["fake".to_string(), "offline".to_string()]);
    assert_eq!(b.message_count, 2);
    assert_eq!(b.name, None);
    assert_eq!(b.date_last_message, None);
    assert_eq!(b.date_made_private, None);
}
