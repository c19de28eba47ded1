use prompt_repository::haystack::PromptPayload;
use prompt_repository::{
    fetch_outcome, query_outcome, Exchange, HaystackPromptHub, Method, PromptError, PromptQuery,
    PromptRepository, PromptTemplate, Role, Status, TemplateSyntax, Version,
};
use serde_json::Value;

fn payload(body: &str) -> PromptPayload {
    let v: Value = serde_json::from_str(body).unwrap();
    let text = |name: &str| v[name].as_str().unwrap().to_string();
    PromptPayload {
        name: text("name"),
        tags: v["tags"]
            .as_array()
            .unwrap()
            .iter()
            .map(|t| t.as_str().unwrap().to_string())
            .collect(),
        meta: v["meta"].clone(),
        version: text("version"),
        text: v["text"].as_str().map(|t| t.to_string()),
        description: text("description"),
    }
}

fn repository() -> HaystackPromptHub {
    HaystackPromptHub::from_url("http://127.0.0.1:1234".to_string())
}

fn fetch(
    id: &str,
    version: Version,
    status: u16,
    body: &str,
) -> Result<PromptTemplate, PromptError> {
    let haystack = repository();
    let request = haystack.fetch_request(id, version).unwrap();
    assert_eq!(request.method, Method::Get);
    assert_eq!(request.url, "http://127.0.0.1:1234/prompts/test-prompt");
    assert_eq!(request.headers, vec![]);
    assert_eq!(request.body, None);
    let decoded = match serde_json::from_str::<Value>(body) {
        Ok(_) => Ok(payload(body)),
        Err(e) => Err(e.to_string()),
    };
    let exchange = Exchange::Answered(Status::from_u16(status).unwrap(), decoded);
    fetch_outcome(&haystack, id, version, exchange)
}

const PROMPT: &str = r#"{
                "name": "test-prompt",
                "tags": ["test", "example"],
                "meta": {"author": "test-author"},
                "version": "1.0.0",
                "text": "This is a test prompt with {{variable}}",
                "description": "A test prompt for unit testing"
            }"#;

#[test]
fn haystack_test_fetch_success() {
    let result = fetch("test-prompt", Version::Latest, 200, PROMPT);

    assert!(result.is_ok());
    let template = result.unwrap();
    assert_eq!(template.id, "haystack:test-prompt");
    assert_eq!(template.version, Some("1.0.0".to_string()));
    assert_eq!(template.segments.len(), 1);
    assert_eq!(template.segments[0].role, Role::User);
    assert_eq!(
        template.segments[0].template,
        "This is a test prompt with {{variable}}"
    );
    assert_eq!(template.segments[0].syntax, TemplateSyntax::Moustache);
    assert!(template.metadata.contains_key("description"));
    assert_eq!(
        *template.metadata.get("description").unwrap(),
        "A test prompt for unit testing"
    );
}

#[test]
fn haystack_test_fetch_with_version() {
    let result = fetch(
        "test-prompt",
        Version::Ref("2.0.0"),
        200,
        r#"{
                "name": "test-prompt",
                "tags": ["test", "example"],
                "meta": {"author": "test-author"},
                "version": "2.0.0",
                "text": "This is version 2.0.0 of the test prompt",
                "description": "A test prompt for unit testing"
            }"#,
    );

    assert!(result.is_ok());
    let template = result.unwrap();
    assert_eq!(template.version, Some("2.0.0".to_string()));
}

#[test]
fn test_fetch_version_mismatch() {
    let result = fetch(
        "test-prompt",
        Version::Ref("2.0.0"),
        200,
        r#"{
                "name": "test-prompt",
                "tags": ["test", "example"],
                "meta": {"author": "test-author"},
                "version": "1.0.0",
                "text": "This is version 1.0.0 of the test prompt",
                "description": "A test prompt for unit testing"
            }"#,
    );

    assert!(result.is_err());
    match result {
        Err(PromptError::Unsupported(msg)) => {
            assert!(msg.contains("does not expose the requested version"));
            assert_eq!(
                msg,
                "Haystack PromptHub does not expose the requested version '2.0.0'. Returned version '1.0.0'."
            );
        }
        _ => panic!("Expected PromptError::Unsupported"),
    }
}

const NO_TEXT: &str = r#"{
                "name": "test-prompt",
                "tags": ["test", "example"],
                "meta": {"author": "test-author"},
                "version": "1.0.0",
                "description": "A test prompt for unit testing"
            }"#;

#[test]
fn test_fetch_missing_text() {
    let result = fetch("test-prompt", Version::Latest, 200, NO_TEXT);

    assert!(result.is_err());
    match result {
        Err(PromptError::PromptExtraction(msg)) => {
            assert!(msg.contains("`text` field missing"));
        }
        _ => panic!("Expected PromptError::PromptExtraction"),
    }
}

#[test]
fn haystack_test_fetch_api_error() {
    let result = fetch("test-prompt", Version::Latest, 404, "Not found");

    assert!(result.is_err());
    match result {
        Err(PromptError::Api(msg)) => {
            assert!(msg.contains("404"));
            assert_eq!(msg, "Haystack PromptHub returned status 404 Not Found");
        }
        _ => panic!("Expected PromptError::Api"),
    }
}

#[test]
fn haystack_test_query_method() {
    let haystack = repository();
    let query = PromptQuery {
        id: "test-prompt",
        version: Version::Latest,
    };
    assert_eq!(
        haystack.query_request(query),
        haystack.fetch_request("test-prompt", Version::Latest)
    );
    let exchange = Exchange::Answered(Status::from_u16(200).unwrap(), Ok(payload(PROMPT)));
    let result = query_outcome(&haystack, query, exchange);

    assert!(result.is_ok());
    let template = result.unwrap();
    assert_eq!(template.id, "haystack:test-prompt");
}

#[test]
fn a_query_holds_the_prompt_to_its_version() {
    let query = PromptQuery {
        id: "test-prompt",
        version: Version::Ref("9"),
    };
    let result = repository().query_result(query, Ok(payload(PROMPT)));
    assert!(matches!(result, Err(PromptError::Unsupported(_))));
}

#[test]
fn the_version_is_judged_before_the_text() {
    let result = fetch("test-prompt", Version::Ref("2.0.0"), 200, NO_TEXT);
    assert!(matches!(result, Err(PromptError::Unsupported(_))));
}

#[test]
fn metadata_keeps_the_rest_of_the_payload() {
    let template = fetch("test-prompt", Version::Ref("1.0.0"), 200, PROMPT).unwrap();
    assert_eq!(template.metadata.entries().len(), 3);
    assert_eq!(
        *template.metadata.get("tags").unwrap(),
        Value::from(vec!["test", "example"])
    );
    assert_eq!(
        *template.metadata.get("meta").unwrap(),
        serde_json::from_str::<Value>(r#"{"author": "test-author"}"#).unwrap()
    );
    assert!(!template.metadata.contains_key("name"));
}

#[test]
fn haystack_addresses() {
    assert_eq!(
        HaystackPromptHub::new()
            .fetch_request("deepset/few-shot-hotpot-qa", Version::Ref("1"))
            .unwrap()
            .url,
        "https://api.prompthub.deepset.ai/prompts/deepset/few-shot-hotpot-qa"
    );
    assert_eq!(
        HaystackPromptHub::from_url("http://host/".to_string())
            .fetch_request("p", Version::Latest)
            .unwrap()
            .url,
        "http://host/prompts/p"
    );
}

#[test]
fn haystack_answers_that_do_not_decode() {
    let result = repository().fetch_result("p", Version::Ref("1"), Err("bad body".to_string()));
    assert_eq!(
        result.map(|t| t.id),
        Err(PromptError::Deserialization("bad body".to_string()))
    );
}

const DRAFT: &str = r#"{
                "name": "test-prompt",
                "tags": [],
                "meta": {},
                "version": "draft",
                "text": "x",
                "description": "d"
            }"#;

#[test]
fn a_version_that_is_not_semantic_is_withheld() {
    let template = fetch("test-prompt", Version::Latest, 200, DRAFT).unwrap();
    assert_eq!(template.version, None);
    assert_eq!(template.id, "haystack:test-prompt");
    assert_eq!(template.segments[0].template, "x");
}

#[test]
fn a_version_that_is_not_semantic_is_still_compared() {
    let template = fetch("test-prompt", Version::Ref("draft"), 200, DRAFT).unwrap();
    assert_eq!(template.version, None);
    let result = fetch("test-prompt", Version::Ref("1.0.0"), 200, DRAFT);
    assert_eq!(
        result.map(|t| t.id),
        Err(PromptError::Unsupported(
            "Haystack PromptHub does not expose the requested version '1.0.0'. Returned version 'draft'."
                .to_string()
        ))
    );
}
