use std::collections::HashMap;
use write_to_dynamo::handler::{get_image_metadata_with_key, handle_write_result, CONFIRMATION};
use write_to_dynamo::metadata::{
    ImageMetadataNoKey, ImageMetadataWithKey, OrchestrationError, ResolutionError, WriteError,
};
use write_to_dynamo::record::{put_item_request, TABLE_NAME};
use write_to_dynamo::resolver::{
    get_final_image_key, key_prefix, object_reference, ListedObject, BUCKET,
};

fn inbound() -> ImageMetadataNoKey {
    ImageMetadataNoKey {
        url: "u".to_string(),
        label: "Number Nine".to_string(),
        type_: "pant".to_string(),
        season: "FW/04".to_string(),
        show_name: "The High Streets".to_string(),
        designer: "Takahiro Miyashita".to_string(),
        description: "d".to_string(),
        request_id: "42".to_string(),
    }
}

fn listed(keys: &[Option<&str>]) -> Vec<ListedObject> {
    keys.iter().map(|k| ListedObject { key: k.map(|s| s.to_string()) }).collect()
}

fn item_map(record: &ImageMetadataWithKey) -> HashMap<String, String> {
    let mut map = HashMap::new();
    for (k, v) in put_item_request(TABLE_NAME.to_string(), record).item {
        map.insert(k, v);
    }
    map
}

#[test]
fn prefix_is_images_id_slash() {
    assert_eq!(key_prefix("42"), "images/42/");
    assert_eq!(key_prefix("abc-def"), "images/abc-def/");
}

#[test]
fn reference_names_scheme_bucket_and_key() {
    assert_eq!(BUCKET, "team-3-project-3");
    assert_eq!(object_reference("c"), "s3://team-3-project-3/c");
}

#[test]
fn empty_listing_resolves_to_nothing() {
    assert!(matches!(get_final_image_key(Ok(Some(Vec::new()))), Ok(None)));
    assert!(matches!(get_final_image_key(Ok(None)), Ok(None)));
}

#[test]
fn last_of_three_entries_is_selected() {
    let r = get_final_image_key(Ok(Some(listed(&[Some("a"), Some("b"), Some("c")]))));
    assert_eq!(r.unwrap(), Some("s3://team-3-project-3/c".to_string()));
}

#[test]
fn missing_key_fails_resolution() {
    let r = get_final_image_key(Ok(Some(listed(&[Some("a"), None]))));
    assert!(matches!(r, Err(ResolutionError::MissingKey)));
}

#[test]
fn missing_key_is_surfaced_by_merge() {
    let r = get_final_image_key(Ok(Some(listed(&[None]))));
    let merged = get_image_metadata_with_key(inbound(), r);
    assert!(matches!(
        merged,
        Err(OrchestrationError::Resolution(ResolutionError::MissingKey))
    ));
}

#[test]
fn transport_failure_is_a_resolution_error() {
    let r = get_final_image_key(Err("connection reset".to_string()));
    match r {
        Err(ResolutionError::Transport(m)) => assert_eq!(m, "connection reset"),
        other => panic!("unexpected {:?}", other),
    }
    let merged = get_image_metadata_with_key(inbound(), Err(ResolutionError::Transport("x".to_string())));
    assert!(matches!(
        merged,
        Err(OrchestrationError::Resolution(ResolutionError::Transport(_)))
    ));
}

#[test]
fn absent_object_gives_empty_key_and_success() {
    let resolved = get_final_image_key(Ok(Some(Vec::new())));
    let merged = get_image_metadata_with_key(inbound(), resolved).unwrap();
    assert_eq!(merged.final_image_key, Some(String::new()));
    let items = item_map(&merged);
    assert_eq!(items.get("final_image_key").map(|s| s.as_str()), Some(""));
    let reply = handle_write_result(Ok(())).unwrap();
    assert_eq!(reply, CONFIRMATION);
    assert_eq!(reply, "Successfully received metadata and wrote to DynamoDB");
}

#[test]
fn stored_object_gives_full_reference() {
    let resolved = get_final_image_key(Ok(Some(listed(&[Some("images/42/final.jpg")]))));
    let merged = get_image_metadata_with_key(inbound(), resolved).unwrap();
    assert_eq!(
        merged.final_image_key.as_deref(),
        Some("s3://team-3-project-3/images/42/final.jpg")
    );
    assert_eq!(merged.url, "u");
    assert_eq!(merged.label, "Number Nine");
    assert_eq!(merged.request_id, "42");
    let items = item_map(&merged);
    assert_eq!(
        items.get("final_image_key").map(|s| s.as_str()),
        Some("s3://team-3-project-3/images/42/final.jpg")
    );
}

#[test]
fn record_has_all_nine_attributes() {
    let merged = get_image_metadata_with_key(inbound(), Ok(None)).unwrap();
    let pairs = merged.to_attribute_values();
    let names: Vec<&str> = pairs.iter().map(|(k, _)| k.as_str()).collect();
    assert_eq!(
        names,
        vec![
            "url",
            "label",
            "type",
            "season",
            "show_name",
            "designer",
            "description",
            "request_id",
            "final_image_key"
        ]
    );
    let items = item_map(&merged);
    assert_eq!(items.len(), 9);
    assert_eq!(items["type"], "pant");
    assert_eq!(items["season"], "FW/04");
    assert_eq!(items["show_name"], "The High Streets");
    assert_eq!(items["designer"], "Takahiro Miyashita");
    assert_eq!(items["description"], "d");
}

#[test]
fn record_without_reference_has_eight_attributes() {
    let n = inbound();
    let record = ImageMetadataWithKey {
        url: n.url,
        label: n.label,
        type_: n.type_,
        season: n.season,
        show_name: n.show_name,
        designer: n.designer,
        description: n.description,
        request_id: n.request_id,
        final_image_key: None,
    };
    assert_eq!(record.to_attribute_values().len(), 8);
}

#[test]
fn writing_twice_stores_one_record() {
    let merged = get_image_metadata_with_key(inbound(), Ok(Some("s3://b/k".to_string()))).unwrap();
    let first = put_item_request(TABLE_NAME.to_string(), &merged);
    let second = put_item_request(TABLE_NAME.to_string(), &merged);
    assert_eq!(first.table_name, "project-3-testing");
    assert_eq!(first.item, second.item);
    let mut table: HashMap<String, HashMap<String, String>> = HashMap::new();
    for request in [first, second] {
        let item: HashMap<String, String> = request.item.into_iter().collect();
        table.insert(item["request_id"].clone(), item);
    }
    assert_eq!(table.len(), 1);
    assert_eq!(table["42"]["final_image_key"], "s3://b/k");
}

#[test]
fn write_failure_is_surfaced() {
    let r = handle_write_result(Err(WriteError { message: "throttled".to_string() }));
    match r {
        Err(OrchestrationError::Write(e)) => assert_eq!(e.message, "throttled"),
        other => panic!("unexpected {:?}", other),
    }
}
