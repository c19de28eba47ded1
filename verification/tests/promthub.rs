use prompt_repository::promthub::{ApiResponse, ProjectId, PromptHubQuery, PromptResponse};
use prompt_repository::{
    fetch_outcome, query_outcome, Exchange, HttpRequest, Method, PromptError, PromptHub,
    PromptRepository, PromptTemplate, Role, Status, TemplateSyntax, Version,
};
use serde_json::Value;

fn decode(body: &str) -> Result<ApiResponse, String> {
    let v: Value = serde_json::from_str(body).map_err(|e| e.to_string())?;
    let data = &v["data"];
    Ok(ApiResponse {
        data: PromptResponse {
            project_id: match data["project_id"].as_u64() {
                Some(n) => ProjectId::Number(u32::try_from(n).unwrap()),
                None => ProjectId::Text(data["project_id"].as_str().unwrap().to_string()),
            },
            hash: data["hash"].as_str().unwrap().to_string(),
            prompt: data["prompt"].as_str().map(|t| t.to_string()),
            system_message: data["system_message"].as_str().map(|t| t.to_string()),
        },
    })
}

fn repository() -> PromptHub {
    PromptHub::from_url("test-api-key".to_string(), "http://127.0.0.1:1234".to_string())
}

fn assert_request(request: &HttpRequest, expected_path: &str) {
    assert_eq!(request.method, Method::Get);
    assert_eq!(request.url, format!("http://127.0.0.1:1234{}", expected_path));
    assert_eq!(
        request.headers,
        vec![
            ("Authorization".to_string(), "Bearer test-api-key".to_string()),
            ("Accept".to_string(), "application/json".to_string()),
            ("Content-Type".to_string(), "application/json".to_string()),
        ]
    );
    assert_eq!(request.body, None);
}

fn fetch(
    id: &str,
    version: Version,
    status: u16,
    body: &str,
) -> Result<PromptTemplate, PromptError> {
    let prompthub = repository();
    let request = prompthub.fetch_request(id, version).unwrap();
    assert_request(&request, "/projects/test-project/head");
    let exchange = Exchange::Answered(Status::from_u16(status).unwrap(), decode(body));
    fetch_outcome(&prompthub, id, version, exchange)
}

const BOTH: &str = r#"{
                "data": {
                    "project_id": "test-project",
                    "hash": "1874502c",
                    "prompt": "This is a test prompt with {{variable}}",
                    "system_message": "You are a test assistant."
                }
            }"#;

#[test]
fn promthub_test_fetch_success() {
    let result = fetch("test-project", Version::Latest, 200, BOTH);

    assert!(result.is_ok());
    let template = result.unwrap();
    assert_eq!(template.id, "prompthub:test-project");
    assert_eq!(template.version, Some("1874502c".to_string()));
    assert_eq!(template.segments.len(), 2);
    assert_eq!(template.segments[0].role, Role::System);
    assert_eq!(template.segments[0].template, "You are a test assistant.");
    assert_eq!(template.segments[1].role, Role::User);
    assert_eq!(
        template.segments[1].template,
        "This is a test prompt with {{variable}}"
    );
}

#[test]
fn test_fetch_only_user_prompt() {
    let result = fetch(
        "test-project",
        Version::Latest,
        200,
        r#"{
                "data": {
                    "project_id": "test-project",
                    "hash": "1874502c",
                    "prompt": "This is a test prompt with no system message."
                }
            }"#,
    );

    assert!(result.is_ok());
    let template = result.unwrap();
    assert_eq!(template.segments.len(), 1);
    assert_eq!(template.segments[0].role, Role::User);
    assert_eq!(
        template.segments[0].template,
        "This is a test prompt with no system message."
    );
}

#[test]
fn test_fetch_only_system_message() {
    let result = fetch(
        "test-project",
        Version::Latest,
        200,
        r#"{
                "data": {
                    "project_id": "test-project",
                    "hash": "1874502c",
                    "system_message": "This is only a system message with no user prompt."
                }
            }"#,
    );

    assert!(result.is_ok());
    let template = result.unwrap();
    assert_eq!(template.segments.len(), 1);
    assert_eq!(template.segments[0].role, Role::System);
    assert_eq!(
        template.segments[0].template,
        "This is only a system message with no user prompt."
    );
}

#[test]
fn promthub_test_fetch_api_error() {
    let result = fetch("test-project", Version::Latest, 404, "Not found");

    assert!(result.is_err());
    match result {
        Err(PromptError::Api(msg)) => {
            assert!(msg.contains("404"));
            assert_eq!(msg, "PromptHub returned status 404 Not Found");
        }
        _ => panic!("Expected PromptError::Api"),
    }
}

#[test]
fn promthub_test_query_method() {
    let body = r#"{
                "data": {
                    "project_id": "test-project",
                    "hash": "1874502c",
                    "prompt": "This is a test prompt for query method.",
                    "system_message": "System message for query test."
                }
            }"#;
    let prompthub = repository();
    let query = PromptHubQuery {
        id: "test-project",
        branch: Some("staging"),
    };
    let request = prompthub.query_request(query).unwrap();
    assert_request(&request, "/projects/test-project/head?branch=staging");
    let exchange = Exchange::Answered(Status::from_u16(200).unwrap(), decode(body));
    let result = query_outcome(&prompthub, query, exchange);

    assert!(result.is_ok());
    let template = result.unwrap();
    assert_eq!(template.id, "prompthub:test-project");
}

#[test]
fn test_deserialization_error() {
    let result = fetch(
        "test-project",
        Version::Latest,
        200,
        r#"{
                "invalid_json": {
            }"#,
    );

    assert!(result.is_err());
    match result {
        Err(PromptError::Deserialization(_)) => {
            // Success - we got the expected error type
        }
        _ => panic!("Expected PromptError::Deserialization"),
    }
}

#[test]
fn project_numbers_are_written_in_decimal() {
    assert_eq!(ProjectId::Number(0).text(), "0");
    assert_eq!(ProjectId::Number(18531).text(), "18531");
    assert_eq!(ProjectId::Number(u32::MAX).text(), "4294967295");
    let body = r#"{"data": {"project_id": 18531, "hash": "h"}}"#;
    let result = repository().fetch_result("18531", Version::Latest, decode(body));
    let template = result.unwrap();
    assert_eq!(template.id, "prompthub:18531");
    assert_eq!(template.segments, vec![]);
    assert_eq!(template.metadata.entries().len(), 0);
}

#[test]
fn a_fetch_by_version_keeps_the_version() {
    let template = fetch("test-project", Version::Ref("1874502c"), 200, BOTH).unwrap();
    assert_eq!(template.version, Some("1874502c".to_string()));
    assert_eq!(template.segments[0].syntax, TemplateSyntax::Moustache);
}

#[test]
fn a_fetch_by_another_version_is_refused() {
    for reference in ["deadbeef", "latest", ""] {
        let result = fetch("test-project", Version::Ref(reference), 200, BOTH);
        assert_eq!(
            result.map(|t| t.id),
            Err(PromptError::Unsupported(format!(
                "PromptHub does not expose the requested version '{}'. Returned version '1874502c'.",
                reference
            )))
        );
    }
}

#[test]
fn errors_pass_through_a_fetch_by_version() {
    let result = repository().fetch_result("p", Version::Ref("1"), Err("bad body".to_string()));
    assert_eq!(
        result.map(|t| t.id),
        Err(PromptError::Deserialization("bad body".to_string()))
    );
}

#[test]
fn a_fetch_is_a_query_without_a_branch() {
    let prompthub = PromptHub::new("k".to_string());
    let query = PromptHubQuery {
        id: "18531",
        branch: None,
    };
    let request = prompthub.query_request(query).unwrap();
    assert_eq!(
        request.url,
        "https://app.prompthub.us/api/v1/projects/18531/head"
    );
    assert_eq!(
        request,
        prompthub.fetch_request("18531", Version::Ref("x")).unwrap()
    );
}

#[test]
fn the_returned_version_is_the_latest() {
    let named = fetch("test-project", Version::Ref("1874502c"), 200, BOTH).unwrap();
    let latest = fetch("test-project", Version::Latest, 200, BOTH).unwrap();
    assert_eq!(named.id, latest.id);
    assert_eq!(named.version, latest.version);
    assert_eq!(named.segments, latest.segments);
}
