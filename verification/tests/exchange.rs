use prompt_repository::haystack::PromptPayload;
use prompt_repository::openlit::{OpenLitQuery, QueryType};
use prompt_repository::promthub::PromptHubQuery;
use prompt_repository::{
    fetch_outcome, query_outcome, Exchange, HaystackPromptHub, LangSmith, OpenLit, PromptError,
    PromptHub, PromptQuery, PromptTemplate, Status, Version,
};
use serde_json::Value;

fn payload(text: Option<&str>) -> PromptPayload {
    PromptPayload {
        name: "n".to_string(),
        tags: vec![],
        meta: Value::Null,
        version: "1.0.0".to_string(),
        text: text.map(|t| t.to_string()),
        description: "d".to_string(),
    }
}

fn assert_network(result: Result<PromptTemplate, PromptError>) {
    assert_eq!(
        result.map(|t| t.id),
        Err(PromptError::Network("connection reset".to_string()))
    );
}

#[test]
fn an_exchange_without_an_answer_is_a_network_error() {
    let words = || "connection reset".to_string();
    let key = || "k".to_string();
    let by_id = PromptQuery {
        id: "p",
        version: Version::Ref("1"),
    };
    let langsmith = LangSmith::new(key());
    assert_network(fetch_outcome(
        &langsmith,
        "p",
        Version::Latest,
        Exchange::Unanswered(words()),
    ));
    assert_network(query_outcome(&langsmith, by_id, Exchange::Unanswered(words())));
    let haystack = HaystackPromptHub::new();
    assert_network(fetch_outcome(
        &haystack,
        "p",
        Version::Latest,
        Exchange::Unanswered(words()),
    ));
    assert_network(query_outcome(&haystack, by_id, Exchange::Unanswered(words())));
    let prompthub = PromptHub::new(key());
    assert_network(fetch_outcome(
        &prompthub,
        "p",
        Version::Ref("1"),
        Exchange::Unanswered(words()),
    ));
    let head = PromptHubQuery {
        id: "p",
        branch: None,
    };
    assert_network(query_outcome(&prompthub, head, Exchange::Unanswered(words())));
    let openlit = OpenLit::new(key());
    assert_network(fetch_outcome(
        &openlit,
        "p",
        Version::Latest,
        Exchange::Unanswered(words()),
    ));
    let by_name = OpenLitQuery {
        query_type: QueryType::ByName("p"),
        version: Version::Latest,
    };
    assert_network(query_outcome(&openlit, by_name, Exchange::Unanswered(words())));
}

#[test]
fn the_status_is_judged_before_the_body() {
    let haystack = HaystackPromptHub::new();
    let query = PromptQuery {
        id: "n",
        version: Version::Ref("2.0.0"),
    };
    for code in [199, 304, 500] {
        for text in [Some("x"), None] {
            let status = Status::from_u16(code).unwrap();
            let expected = Err(PromptError::Api(format!(
                "Haystack PromptHub returned status {}",
                status.text()
            )));
            let good = Exchange::Answered(status, Ok(payload(text)));
            let fetched = fetch_outcome(&haystack, "n", Version::Latest, good);
            assert_eq!(fetched.map(|t| t.id), expected);
            let good = Exchange::Answered(status, Ok(payload(text)));
            assert_eq!(query_outcome(&haystack, query, good).map(|t| t.id), expected);
            let bad = Exchange::Answered(status, Err("bad body".to_string()));
            let fetched = fetch_outcome(&haystack, "n", Version::Latest, bad);
            assert_eq!(fetched.map(|t| t.id), expected);
        }
    }
}

#[test]
fn a_successful_answer_ends_by_its_body() {
    let haystack = HaystackPromptHub::new();
    for code in [200, 204, 299] {
        let status = Status::from_u16(code).unwrap();
        let good = Exchange::Answered(status, Ok(payload(Some("x"))));
        let template = fetch_outcome(&haystack, "n", Version::Latest, good).unwrap();
        assert_eq!(template.segments[0].template, "x");
        let bad = Exchange::Answered(status, Err("bad body".to_string()));
        assert_eq!(
            fetch_outcome(&haystack, "n", Version::Latest, bad).map(|t| t.id),
            Err(PromptError::Deserialization("bad body".to_string()))
        );
    }
}
