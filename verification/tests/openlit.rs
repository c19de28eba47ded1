use prompt_repository::openlit::{
    ApiRequest, ApiResponse, OpenLitQuery, PromptResponse, QueryType,
};
use prompt_repository::{
    fetch_outcome, query_outcome, Exchange, Method, OpenLit, PromptError, PromptRepository,
    PromptTemplate, Role, Status, TemplateSyntax, Version,
};
use serde_json::Value;

fn decode(body: &str) -> ApiResponse {
    let v: Value = serde_json::from_str(body).unwrap();
    let res = &v["res"];
    let text = |name: &str| res[name].as_str().unwrap().to_string();
    ApiResponse {
        err: v["err"].clone(),
        res: if res.is_null() {
            None
        } else {
            Some(PromptResponse {
                prompt_id: text("promptId"),
                version_id: text("versionId"),
                name: text("name"),
                version: text("version"),
                tags: res["tags"].as_array().unwrap().clone(),
                meta_properties: res["metaProperties"].as_object().unwrap().clone(),
                prompt: res["prompt"].as_str().map(|t| t.to_string()),
            })
        },
    }
}

fn repository() -> OpenLit {
    OpenLit::from_url("test-api-key".to_string(), "http://127.0.0.1:1234".to_string())
}

fn fetch(
    name: &str,
    version: Version,
    expected_body: &str,
    status: u16,
    body: &str,
) -> Result<PromptTemplate, PromptError> {
    let openlit = repository();
    let request = openlit.fetch_request(name, version).unwrap();
    assert_eq!(request.method, Method::Post);
    assert_eq!(request.url, "http://127.0.0.1:1234/api/prompt/get-compiled");
    assert_eq!(
        request.headers,
        vec![
            ("Authorization".to_string(), "Bearer test-api-key".to_string()),
            ("Content-Type".to_string(), "application/json".to_string()),
        ]
    );
    assert_eq!(request.body, Some(expected_body.to_string()));
    let decoded = match serde_json::from_str::<Value>(body) {
        Ok(_) => Ok(decode(body)),
        Err(e) => Err(e.to_string()),
    };
    let exchange = Exchange::Answered(Status::from_u16(status).unwrap(), decoded);
    fetch_outcome(&openlit, name, version, exchange)
}

const LATEST: &str = r#"{"name":"test-prompt","compile":false}"#;

const PROMPT: &str = r#"{
                "err": {},
                "res": {
                    "promptId": "12345678-1234-1234-1234-123456789012",
                    "versionId": "87654321-4321-4321-4321-210987654321",
                    "name": "test-prompt",
                    "version": "1.0.0",
                    "tags": ["test", "example"],
                    "metaProperties": {"author": "test-author"},
                    "prompt": "This is a test prompt with {{variable}}"
                }
            }"#;

#[test]
fn test_fetch_by_name() {
    let result = fetch("test-prompt", Version::Latest, LATEST, 200, PROMPT);

    assert!(result.is_ok());
    let template = result.unwrap();
    assert_eq!(template.id, "openlit:test-prompt");
    assert_eq!(template.version, Some("1.0.0".to_string()));
    assert_eq!(template.segments.len(), 1);
    assert_eq!(template.segments[0].role, Role::User);
    assert_eq!(
        template.segments[0].template,
        "This is a test prompt with {{variable}}"
    );
    assert_eq!(
        *template.metadata.get("promptId").unwrap(),
        "12345678-1234-1234-1234-123456789012"
    );
    assert_eq!(
        *template.metadata.get("versionId").unwrap(),
        "87654321-4321-4321-4321-210987654321"
    );
}

#[test]
fn test_fetch_by_name_with_version() {
    let result = fetch(
        "test-prompt",
        Version::Ref("2.0.0"),
        r#"{"name":"test-prompt","version":"2.0.0","compile":false}"#,
        200,
        r#"{
                "err": {},
                "res": {
                    "promptId": "12345678-1234-1234-1234-123456789012",
                    "versionId": "99999999-9999-9999-9999-999999999999",
                    "name": "test-prompt",
                    "version": "2.0.0",
                    "tags": ["test", "example"],
                    "metaProperties": {"author": "test-author"},
                    "prompt": "This is version 2.0.0 of the test prompt"
                }
            }"#,
    );

    assert!(result.is_ok());
    let template = result.unwrap();
    assert_eq!(template.version, Some("2.0.0".to_string()));
    assert_eq!(
        template.segments[0].template,
        "This is version 2.0.0 of the test prompt"
    );
}

#[test]
fn test_fetch_missing_prompt() {
    let result = fetch(
        "test-prompt",
        Version::Latest,
        LATEST,
        200,
        r#"{
                "err": {},
                "res": {
                    "promptId": "12345678-1234-1234-1234-123456789012",
                    "versionId": "87654321-4321-4321-4321-210987654321",
                    "name": "test-prompt",
                    "version": "1.0.0",
                    "tags": ["test", "example"],
                    "metaProperties": {"author": "test-author"}
                }
            }"#,
    );

    assert!(result.is_err());
    match result {
        Err(PromptError::PromptExtraction(msg)) => {
            assert!(msg.contains("`prompt` field missing"));
        }
        _ => panic!("Expected PromptError::PromptExtraction"),
    }
}

#[test]
fn openlit_test_fetch_api_error() {
    let result = fetch(
        "test-prompt",
        Version::Latest,
        LATEST,
        200,
        r#"{
                "err": {"message": "Prompt not found"},
                "res": null
            }"#,
    );

    assert!(result.is_err());
    match result {
        Err(PromptError::Api(msg)) => {
            assert_eq!(msg, "Object {\"message\": String(\"Prompt not found\")}");
        }
        _ => panic!("Expected PromptError::Api"),
    }
}

#[test]
fn test_http_error() {
    let result = fetch("test-prompt", Version::Latest, LATEST, 404, "Not found");

    assert!(result.is_err());
    match result {
        Err(PromptError::Api(msg)) => {
            assert!(msg.contains("404"));
            assert_eq!(msg, "OpenLIT returned status 404 Not Found");
        }
        _ => panic!("Expected PromptError::Api"),
    }
}

#[test]
fn openlit_test_query_method() {
    let body = r#"{
                "err": {},
                "res": {
                    "promptId": "12345678-1234-1234-1234-123456789012",
                    "versionId": "87654321-4321-4321-4321-210987654321",
                    "name": "test-prompt",
                    "version": "1.0.0",
                    "tags": ["test", "example"],
                    "metaProperties": {"author": "test-author"},
                    "prompt": "This is a test prompt for query method"
                }
            }"#;
    let openlit = repository();
    let query = OpenLitQuery {
        query_type: QueryType::ByName("test-prompt"),
        version: Version::Latest,
    };
    assert_eq!(
        openlit.query_request(query),
        openlit.fetch_request("test-prompt", Version::Latest)
    );
    let exchange = Exchange::Answered(Status::from_u16(200).unwrap(), Ok(decode(body)));
    let result = query_outcome(&openlit, query, exchange);

    assert!(result.is_ok());
    let template = result.unwrap();
    assert_eq!(template.id, "openlit:test-prompt");
    assert_eq!(
        template.segments[0].template,
        "This is a test prompt for query method"
    );
}

fn body_of(query_type: QueryType, version: Version, compile: bool) -> String {
    ApiRequest {
        query_type,
        version,
        compile,
    }
    .body()
    .unwrap()
}

#[test]
fn a_query_by_identifier_says_so() {
    assert_eq!(
        body_of(QueryType::ById("22843c90"), Version::Ref("0.1.0"), false),
        r#"{"id":"22843c90","version":"0.1.0","compile":false}"#
    );
    assert_eq!(
        body_of(QueryType::ByName("n"), Version::Latest, true),
        r#"{"name":"n","compile":true}"#
    );
}

#[test]
fn names_are_escaped() {
    assert_eq!(
        body_of(
            QueryType::ByName("a\"b\\c\u{8}\t\n\u{c}\r\u{1}\u{1f}\u{7f}é/"),
            Version::Latest,
            false
        ),
        "{\"name\":\"a\\\"b\\\\c\\b\\t\\n\\f\\r\\u0001\\u001f\u{7f}é/\",\"compile\":false}"
    );
}

#[test]
fn a_query_is_never_compiled() {
    let query = OpenLitQuery {
        query_type: QueryType::ById("1"),
        version: Version::Latest,
    };
    assert!(!ApiRequest::from(query).compile);
    let request: ApiRequest = query.into();
    assert_eq!(request.body().unwrap(), r#"{"id":"1","compile":false}"#);
}

#[test]
fn a_null_error_is_no_error() {
    let body = PROMPT.replace("\"err\": {}", "\"err\": null");
    let template = fetch("test-prompt", Version::Latest, LATEST, 200, &body).unwrap();
    assert_eq!(template.segments[0].syntax, TemplateSyntax::Moustache);
    assert_eq!(template.metadata.entries().len(), 4);
    assert_eq!(
        *template.metadata.get("tags").unwrap(),
        Value::from(vec!["test", "example"])
    );
    assert_eq!(
        *template.metadata.get("metaProperties").unwrap(),
        serde_json::from_str::<Value>(r#"{"author": "test-author"}"#).unwrap()
    );
}

#[test]
fn an_error_text_is_the_error() {
    let body = PROMPT.replace("\"err\": {}", "\"err\": \"boom\"");
    let result = fetch("test-prompt", Version::Latest, LATEST, 200, &body);
    assert_eq!(result.map(|t| t.id), Err(PromptError::Api("boom".to_string())));
}

#[test]
fn an_answer_without_error_and_payload_is_an_error() {
    for body in [r#"{"err": {}, "res": null}"#, r#"{}"#] {
        let result = fetch("test-prompt", Version::Latest, LATEST, 200, body);
        assert_eq!(
            result.map(|t| t.id),
            Err(PromptError::Other("Response missing payload".to_string()))
        );
    }
}

#[test]
fn openlit_addresses() {
    let request = OpenLit::new("k".to_string())
        .fetch_request("n", Version::Latest)
        .unwrap();
    assert_eq!(request.url, "http://localhost:3000/api/prompt/get-compiled");
}

#[test]
fn openlit_answers_that_do_not_decode() {
    let result = repository().fetch_result("p", Version::Ref("1"), Err("bad body".to_string()));
    assert_eq!(
        result.map(|t| t.id),
        Err(PromptError::Deserialization("bad body".to_string()))
    );
}

#[test]
fn bodies_tell_queries_apart() {
    let bodies = [
        body_of(QueryType::ById("a"), Version::Latest, false),
        body_of(QueryType::ByName("a"), Version::Latest, false),
        body_of(QueryType::ByName("a"), Version::Ref("latest"), false),
        body_of(QueryType::ByName("a\",\"version\":\"latest"), Version::Latest, false),
        body_of(QueryType::ByName("a"), Version::Ref(""), false),
    ];
    for i in 0..bodies.len() {
        for j in 0..i {
            assert_ne!(bodies[i], bodies[j]);
        }
    }
}
