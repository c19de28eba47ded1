use prompt_repository::langsmith::{determine_role, determine_syntax, extract_ids, CommitResponse};
use prompt_repository::{
    fetch_outcome, query_outcome, Exchange, LangSmith, Method, PromptError, PromptQuery,
    PromptRepository, PromptTemplate, Role, Status, TemplateSyntax, Version,
};
use serde_json::Value;
use vstd::hash_set::StringHashSet;

fn parse(text: &str) -> Value {
    serde_json::from_str(text).unwrap()
}

fn commit(body: &str) -> CommitResponse {
    let v = parse(body);
    CommitResponse {
        commit_hash: v["commit_hash"].as_str().unwrap().to_string(),
        manifest: v["manifest"].clone(),
        examples: v["examples"].as_array().unwrap().clone(),
    }
}

fn repository() -> LangSmith {
    LangSmith::from_url("test-api-key".to_string(), "http://127.0.0.1:1234".to_string())
}

fn fetch(
    path: &str,
    version: Version,
    expected_path: &str,
    status: u16,
    body: &str,
) -> Result<PromptTemplate, PromptError> {
    let langsmith = repository();
    let request = langsmith.fetch_request(path, version).unwrap();
    assert_eq!(request.method, Method::Get);
    assert_eq!(request.url, format!("http://127.0.0.1:1234{}", expected_path));
    assert_eq!(
        request.headers,
        vec![("x-api-key".to_string(), "test-api-key".to_string())]
    );
    assert_eq!(request.body, None);
    let decoded = match serde_json::from_str::<Value>(body) {
        Ok(_) => Ok(commit(body)),
        Err(e) => Err(e.to_string()),
    };
    let exchange = Exchange::Answered(Status::from_u16(status).unwrap(), decoded);
    fetch_outcome(&langsmith, path, version, exchange)
}

#[test]
fn langsmith_test_fetch_success() {
    let result = fetch(
        "test-path",
        Version::Latest,
        "/commits/test-path/latest",
        200,
        r#"{
                "commit_hash": "abc123",
                "manifest": {
                    "id": ["ChatPromptTemplate"],
                    "kwargs": {
                        "messages": [
                            {
                                "id": ["SystemMessagePromptTemplate"],
                                "kwargs": {
                                    "prompt": {
                                        "kwargs": {
                                            "template": "You are a helpful assistant.",
                                            "input_variables": []
                                        }
                                    }
                                }
                            },
                            {
                                "id": ["HumanMessagePromptTemplate"],
                                "kwargs": {
                                    "prompt": {
                                        "kwargs": {
                                            "template": "Hello, {{name}}!",
                                            "input_variables": ["name"]
                                        }
                                    }
                                }
                            }
                        ]
                    }
                },
                "examples": []
            }"#,
    );

    assert!(result.is_ok());
    let template = result.unwrap();
    assert_eq!(template.id, "langsmith:test-path");
    assert_eq!(template.version, Some("abc123".to_string()));
    assert_eq!(template.segments.len(), 2);
    assert_eq!(template.segments[0].role, Role::System);
    assert_eq!(
        template.segments[0].template,
        "You are a helpful assistant."
    );
    assert_eq!(template.segments[1].role, Role::User);
    assert_eq!(template.segments[1].template, "Hello, {{name}}!");
}

const INSTRUCT: &str = r#"{
                "commit_hash": "def456",
                "manifest": {
                    "id": ["PromptTemplate"],
                    "kwargs": {
                        "template": "Answer the following question: {{question}}",
                        "template_format": "f-string",
                        "input_variables": ["question"]
                    }
                },
                "examples": []
            }"#;

#[test]
fn test_fetch_instruct_prompt() {
    let result = fetch(
        "test-path",
        Version::Latest,
        "/commits/test-path/latest",
        200,
        INSTRUCT,
    );

    assert!(result.is_ok());
    let template = result.unwrap();
    assert_eq!(template.id, "langsmith:test-path");
    assert_eq!(template.version, Some("def456".to_string()));
    assert_eq!(template.segments.len(), 1);
    assert_eq!(template.segments[0].role, Role::User);
}

#[test]
fn langsmith_test_fetch_with_version() {
    let result = fetch(
        "test-path",
        Version::Ref("specific-version"),
        "/commits/test-path/specific-version",
        200,
        r#"{
                "commit_hash": "specific-version",
                "manifest": {
                    "id": ["ChatPromptTemplate"],
                    "kwargs": {
                        "messages": [
                            {
                                "id": ["HumanMessagePromptTemplate"],
                                "kwargs": {
                                    "prompt": {
                                        "kwargs": {
                                            "template": "Version specific prompt",
                                            "input_variables": []
                                        }
                                    }
                                }
                            }
                        ]
                    }
                },
                "examples": []
            }"#,
    );

    assert!(result.is_ok());
    let template = result.unwrap();
    assert_eq!(template.version, Some("specific-version".to_string()));
    assert_eq!(template.segments[0].template, "Version specific prompt");
}

#[test]
fn test_fetch_error_handling() {
    let result = fetch(
        "test-path",
        Version::Latest,
        "/commits/test-path/latest",
        404,
        "Not found",
    );

    assert!(result.is_err());
    if let Err(PromptError::Api(msg)) = result {
        assert!(msg.contains("404"));
        assert_eq!(msg, "LangSmith returned status 404 Not Found");
    } else {
        panic!("Expected PromptError::Api");
    }
}

#[test]
fn langsmith_test_query_method() {
    let body = r#"{
                "commit_hash": "abc123",
                "manifest": {
                    "id": ["ChatPromptTemplate"],
                    "kwargs": {
                        "messages": [
                            {
                                "id": ["HumanMessagePromptTemplate"],
                                "kwargs": {
                                    "prompt": {
                                        "kwargs": {
                                            "template": "Query test",
                                            "input_variables": []
                                        }
                                    }
                                }
                            }
                        ]
                    }
                },
                "examples": []
            }"#;
    let langsmith = repository();
    let query = PromptQuery {
        id: "test-path",
        version: Version::Latest,
    };
    let request = langsmith.query_request(query).unwrap();
    assert_eq!(request.url, "http://127.0.0.1:1234/commits/test-path/latest");
    assert_eq!(
        request,
        langsmith.fetch_request("test-path", Version::Latest).unwrap()
    );
    let exchange = Exchange::Answered(Status::from_u16(200).unwrap(), Ok(commit(body)));
    let result = query_outcome(&langsmith, query, exchange);

    assert!(result.is_ok());
}

#[test]
fn test_determine_role() {
    let system_ids = vec![Value::from("SystemMessagePromptTemplate")];
    assert_eq!(determine_role(Some(&system_ids)), Role::System);

    let human_ids = vec![Value::from("HumanMessagePromptTemplate")];
    assert_eq!(determine_role(Some(&human_ids)), Role::User);

    let ai_ids = vec![Value::from("AIMessagePromptTemplate")];
    assert_eq!(determine_role(Some(&ai_ids)), Role::Assistant);

    let unknown_ids = vec![Value::from("UnknownTemplate")];
    if let Role::Custom(role) = determine_role(Some(&unknown_ids)) {
        assert_eq!(role, "unknown");
    } else {
        panic!("Expected Role::Custom");
    }
}

#[test]
fn roles_come_by_rank_and_need_a_text() {
    let both = vec![
        Value::from("AIMessagePromptTemplate"),
        Value::from(7),
        Value::from("HumanMessagePromptTemplate"),
    ];
    assert_eq!(determine_role(Some(&both)), Role::User);
    assert_eq!(determine_role(None), Role::Custom("unknown".to_string()));
    assert_eq!(
        determine_role(Some(&vec![])),
        Role::Custom("unknown".to_string())
    );
}

#[test]
fn syntax_is_moustache_unless_it_is_f_string() {
    assert_eq!(
        determine_syntax(Some(&Value::from("f-string"))),
        TemplateSyntax::FString
    );
    assert_eq!(
        determine_syntax(Some(&Value::from("moustache"))),
        TemplateSyntax::Moustache
    );
    assert_eq!(
        determine_syntax(Some(&Value::from("jinja2"))),
        TemplateSyntax::Moustache
    );
    assert_eq!(determine_syntax(Some(&Value::Null)), TemplateSyntax::Moustache);
    assert_eq!(determine_syntax(None), TemplateSyntax::Moustache);
}

#[test]
fn ids_are_the_texts_of_the_id_array() {
    let manifest = parse(r#"{"id": ["langchain", 3, null, "ChatPromptTemplate"]}"#);
    assert_eq!(
        extract_ids(&manifest).unwrap(),
        vec!["langchain", "ChatPromptTemplate"]
    );
    for text in [r#"{"id": "ChatPromptTemplate"}"#, r#"{"kwargs": {}}"#, r#"["id"]"#] {
        assert_eq!(
            extract_ids(&parse(text)),
            Err(PromptError::PromptExtraction("missing id array".to_string()))
        );
    }
}

#[test]
fn an_instruct_prompt_keeps_its_syntax_and_its_commit() {
    let template = LangSmith::manifest_to_template("foo/bar", "def456", &commit(INSTRUCT).manifest)
        .unwrap();
    assert_eq!(template.id, "langsmith:foo/bar");
    assert_eq!(
        template.segments[0].template,
        "Answer the following question: {{question}}"
    );
    assert_eq!(template.segments[0].syntax, TemplateSyntax::FString);
    assert_eq!(template.metadata.entries().len(), 1);
    assert_eq!(
        template.metadata.get("commit_hash"),
        Some(&Value::from("def456"))
    );
    assert_eq!(template.clone().metadata.get("commit_hash"), template.metadata.get("commit_hash"));
}

#[test]
fn an_instruct_prompt_names_its_variables() {
    let mut segments = vec![];
    let mut variables = StringHashSet::new();
    let manifest = parse(
        r#"{"kwargs": {"template": "t", "input_variables": ["a", 1, "b", "a"]}}"#,
    );
    assert_eq!(
        LangSmith::extract_instruct_prompt(&manifest, &mut segments, &mut variables),
        Ok(())
    );
    assert_eq!(segments.len(), 1);
    assert_eq!(variables.len(), 2);
    assert!(variables.contains("a"));
    assert!(variables.contains("b"));
}

#[test]
fn an_instruct_prompt_without_a_template_is_an_error() {
    let manifest = parse(r#"{"id": ["PromptTemplate"], "kwargs": {"template": 5}}"#);
    assert_eq!(
        LangSmith::manifest_to_template("p", "c", &manifest).map(|t| t.id),
        Err(PromptError::PromptExtraction(
            "instruct prompt missing template".to_string()
        ))
    );
}

#[test]
fn a_chat_without_messages_is_an_error() {
    let manifest = parse(r#"{"id": ["ChatPromptTemplate"], "kwargs": {"messages": {}}}"#);
    assert_eq!(
        LangSmith::manifest_to_template("p", "c", &manifest).map(|t| t.id),
        Err(PromptError::PromptExtraction(
            "chat prompt missing messages".to_string()
        ))
    );
}

#[test]
fn a_chat_is_read_up_to_the_first_message_without_a_template() {
    let manifest = parse(
        r#"{"id": ["ChatPromptTemplate"], "kwargs": {"messages": [
            {"id": ["AIMessagePromptTemplate"], "kwargs": {"prompt": {"kwargs": {
                "template": "one", "template_format": "f-string", "input_variables": ["x"]}}}},
            {"id": ["HumanMessagePromptTemplate"], "kwargs": {"prompt": {"kwargs": {
                "input_variables": ["y"]}}}},
            {"id": ["SystemMessagePromptTemplate"], "kwargs": {"prompt": {"kwargs": {
                "template": "three"}}}}
        ]}}"#,
    );
    let mut segments = vec![];
    let mut variables = StringHashSet::new();
    let expected = PromptError::PromptExtraction("message missing template".to_string());
    assert_eq!(
        LangSmith::extract_chat_messages(&manifest, &mut segments, &mut variables),
        Err(expected.clone())
    );
    assert_eq!(segments.len(), 1);
    assert_eq!(segments[0].role, Role::Assistant);
    assert_eq!(segments[0].template, "one");
    assert_eq!(segments[0].syntax, TemplateSyntax::FString);
    assert!(variables.contains("x"));
    assert!(!variables.contains("y"));
    assert_eq!(
        LangSmith::manifest_to_template("p", "c", &manifest).map(|t| t.id),
        Err(expected)
    );
}

#[test]
fn slashes_at_the_end_of_the_address_are_cut_off() {
    let plain = LangSmith::from_url("k".to_string(), "http://host".to_string());
    let slashed = LangSmith::from_url("k".to_string(), "http://host//".to_string());
    let version = Version::Ref("head");
    let request = slashed.fetch_request("foo/bar", version).unwrap();
    assert_eq!(request.url, "http://host/commits/foo/bar/head");
    assert_eq!(request, plain.fetch_request("foo/bar", version).unwrap());
}

#[test]
fn latest_and_the_reference_latest_are_one_request() {
    let langsmith = LangSmith::new("k".to_string());
    let request = langsmith.fetch_request("p", Version::Latest).unwrap();
    assert_eq!(
        request.url,
        "https://api.smith.langchain.com/commits/p/latest"
    );
    assert_eq!(
        request,
        langsmith.fetch_request("p", Version::Ref("latest")).unwrap()
    );
}

#[test]
fn an_answer_that_does_not_decode_is_an_error() {
    let result = repository().fetch_result("p", Version::Latest, Err("bad body".to_string()));
    assert_eq!(
        result.map(|t| t.id),
        Err(PromptError::Deserialization("bad body".to_string()))
    );
}

#[test]
fn listing_is_not_supported() {
    assert_eq!(
        repository().list(),
        Err(PromptError::Unsupported(
            "repository does not support `list()`".to_string()
        ))
    );
}
