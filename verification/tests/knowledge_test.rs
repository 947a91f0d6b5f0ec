use pod_os_client::knowledge::{get_document, list_documents, Document};

#[test]
fn documents_by_name() {
    assert_eq!(get_document("communication").unwrap(), Document::Communication);
    assert_eq!(get_document("message-handling").unwrap(), Document::MessageHandling);
    assert_eq!(get_document("neural-memory").unwrap(), Document::NeuralMemoryEvents);
    assert_eq!(get_document("neural-memory-retrieval").unwrap(), Document::NeuralMemoryRetrieval);
    assert_eq!(get_document("intent-field-validation-plan").unwrap(), Document::IntentFieldValidationPlan);
    for name in list_documents() {
        assert_eq!(get_document(name).unwrap().name(), name);
    }
    assert_eq!(list_documents().len(), 5);
}

#[test]
fn unknown_document() {
    let e = get_document("Communication").unwrap_err();
    assert_eq!(e.name, "Communication");
    assert_eq!(
        e.message(),
        "unknown document: 'Communication'. Available: communication, message-handling, neural-memory, neural-memory-retrieval, intent-field-validation-plan"
    );
}
