use prompt_repository::text::{decimal_text, same_text, trim_end_slashes};
use prompt_repository::{
    Metadata, PromptError, PromptRepositoryError, Status, TemplateSyntax, Version,
};
use serde_json::Value;

#[test]
fn versions_are_written_by_their_reference() {
    assert!(Version::Latest.is_latest());
    assert!(!Version::Ref("latest").is_latest());
    assert_eq!(Version::Latest.as_text(), "latest");
    assert_eq!(Version::Ref("v1.0.0").as_text(), "v1.0.0");
}

#[test]
fn syntax_by_name() {
    assert_eq!(TemplateSyntax::from(Some("f-string")), TemplateSyntax::FString);
    assert_eq!(TemplateSyntax::from(Some("moustache")), TemplateSyntax::Moustache);
    assert_eq!(TemplateSyntax::from(Some("F-String")), TemplateSyntax::Moustache);
    assert_eq!(TemplateSyntax::from(None), TemplateSyntax::Moustache);
}

#[test]
fn statuses_succeed_from_200_to_299() {
    for (code, success) in [(100, false), (199, false), (200, true), (299, true), (300, false), (999, false)] {
        let status = Status::from_u16(code).unwrap();
        assert_eq!(status.as_u16(), code);
        assert_eq!(status.is_success(), success);
    }
    assert_eq!(Status::from_u16(99), None);
    assert_eq!(Status::from_u16(1000), None);
}

#[test]
fn statuses_in_words() {
    assert_eq!(Status::from_u16(200).unwrap().text(), "200 OK");
    assert_eq!(
        Status::from_u16(500).unwrap().text(),
        "500 Internal Server Error"
    );
    assert_eq!(
        Status::from_u16(999).unwrap().text(),
        "999 <unknown status code>"
    );
}

#[test]
fn metadata_is_a_map() {
    let mut metadata = Metadata::new();
    assert_eq!(metadata.get("a"), None);
    metadata.insert("a".to_string(), Value::from(1));
    metadata.insert("b".to_string(), Value::from("x"));
    metadata.insert("a".to_string(), Value::from(2.5));
    assert_eq!(metadata.entries().len(), 2);
    assert_eq!(metadata.get("a"), Some(&Value::from(2.5)));
    assert_eq!(metadata.get("b"), Some(&Value::from("x")));
    assert!(!metadata.contains_key("c"));
    let copy = metadata.clone();
    assert_eq!(copy.entries(), metadata.entries());
}

#[test]
fn texts() {
    assert!(same_text("é", "é"));
    assert!(!same_text("a", "A"));
    assert_eq!(trim_end_slashes("a/b//"), "a/b");
    assert_eq!(trim_end_slashes("///"), "");
    assert_eq!(trim_end_slashes("/é"), "/é");
    assert_eq!(decimal_text(1000), "1000");
}

#[test]
fn error_messages() {
    let detail = || "why".to_string();
    for (error, message) in [
        (PromptError::NotFound, "prompt not found"),
        (
            PromptError::Unsupported(detail()),
            "repository does not implement this feature: why",
        ),
        (PromptError::Network(detail()), "network error: why"),
        (PromptError::Api(detail()), "api error: why"),
        (PromptError::Deserialization(detail()), "deserialization error: why"),
        (PromptError::Serialization(detail()), "serialization error: why"),
        (PromptError::PromptExtraction(detail()), "prompt extraction error: why"),
        (PromptError::Other(detail()), "other: why"),
    ] {
        assert_eq!(error.message(), message);
    }
    for (error, message) in [
        (PromptRepositoryError::RequestError(detail()), "Request error: why"),
        (PromptRepositoryError::ApiError(detail()), "API error: why"),
        (
            PromptRepositoryError::SerializationError(detail()),
            "Failed to serialize object: why",
        ),
        (
            PromptRepositoryError::DeserializationError(detail()),
            "Failed to deserialize object: why",
        ),
        (
            PromptRepositoryError::PromptExtractionError,
            "Failed to extract prompt",
        ),
    ] {
        assert_eq!(error.message(), message);
    }
}
