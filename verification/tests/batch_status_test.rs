use pod_os_client::message::batch_status::{batch_events_failed, batch_links_failed};
use pod_os_client::message::types::{
    Message, ResponseFields, StoreBatchEventRecord, StoreLinkBatchEventRecord,
};

#[test]
fn batch_links_failed_detects_error_status() {
    let msg = Message {
        response: Some(ResponseFields {
            store_link_batch_event_record: StoreLinkBatchEventRecord {
                status: "ERROR".to_string(),
                message: "OWNER EVENT NOT FOUND".to_string(),
                links_with_errors: 2,
                ..Default::default()
            },
            ..Default::default()
        }),
        ..Default::default()
    };
    assert_eq!(batch_links_failed(&msg).as_deref(), Some("OWNER EVENT NOT FOUND"));
}

#[test]
fn batch_links_failed_other_cases() {
    assert_eq!(batch_links_failed(&Message::default()), None);
    let quiet = |status: &str, errs: i32, storage: i32, text: &str| Message {
        response: Some(ResponseFields {
            storage_error_count: storage,
            store_link_batch_event_record: StoreLinkBatchEventRecord {
                status: status.to_string(),
                message: text.to_string(),
                links_with_errors: errs,
                ..Default::default()
            },
            ..Default::default()
        }),
        ..Default::default()
    };
    assert_eq!(batch_links_failed(&quiet("OK", 0, 0, "")), None);
    assert_eq!(batch_links_failed(&quiet("error", 0, 0, "  ")).as_deref(), Some("link store failed"));
    assert_eq!(batch_links_failed(&quiet("OK", 1, 0, " bad link\n")).as_deref(), Some("bad link"));
    assert_eq!(batch_links_failed(&quiet("OK", 0, 3, "ignored")).as_deref(), Some("link store failed"));
}

#[test]
fn batch_events_failed_cases() {
    let with = |status: &str, text: &str| Message {
        response: Some(ResponseFields {
            store_batch_event_record: StoreBatchEventRecord {
                status: status.to_string(),
                message: text.to_string(),
                ..Default::default()
            },
            ..Default::default()
        }),
        ..Default::default()
    };
    assert_eq!(batch_events_failed(&Message::default()), None);
    assert_eq!(batch_events_failed(&with("OK", "fine")), None);
    assert_eq!(batch_events_failed(&with("Error", "")).as_deref(), Some("batch event store failed"));
    assert_eq!(batch_events_failed(&with("ERROR", "\u{3000}disk full ")).as_deref(), Some("disk full"));
}
