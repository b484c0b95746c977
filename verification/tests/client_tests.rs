use hindsight_cli::client::{classify_response, outcome_gate, ApiClient, ApiError, ClientError, HttpMethod};
use hindsight_cli::model::{BatchMemoryRequest, MemoryItem, Outcome, SearchRequest, ThinkRequest};

fn client() -> ApiClient {
    ApiClient::new(String::from("http://h:1")).unwrap()
}

fn one_item_batch() -> BatchMemoryRequest {
    BatchMemoryRequest {
        items: vec![MemoryItem { content: String::from("m"), context: None }],
        document_id: Some(String::from("d")),
    }
}

#[test]
fn construction_rejects_bad_base_url() {
    let e = ApiClient::new(String::from("h:1")).unwrap_err();
    match e {
        ClientError::InvalidBaseUrl(u) => assert_eq!(u, "h:1"),
    }
    assert!(ApiClient::new(String::from("https://ok")).is_ok());
}

#[test]
fn list_agents_request() {
    let r = client().list_agents();
    assert_eq!(r.method, HttpMethod::Get);
    assert_eq!(r.url, "http://h:1/agents");
    assert!(r.body.is_none());
}

#[test]
fn profile_and_stats_requests() {
    let c = client();
    assert_eq!(c.get_profile("a1").url, "http://h:1/agents/a1/profile");
    assert_eq!(c.get_stats("a1").url, "http://h:1/agents/a1/stats");
}

#[test]
fn name_and_background_requests() {
    let c = client();
    let r = c.update_agent_name("a1", "Ada");
    assert_eq!(r.method, HttpMethod::Put);
    assert_eq!(r.url, "http://h:1/agents/a1/name");
    assert_eq!(r.body.unwrap(), "{\"name\":\"Ada\"}");
    let b = c.add_background("a1", "grew up at sea", true);
    assert_eq!(b.url, "http://h:1/agents/a1/background");
    assert_eq!(
        b.body.unwrap(),
        "{\"background\":\"grew up at sea\",\"update_personality\":true}"
    );
}

#[test]
fn search_request_is_exact() {
    let c = client();
    let req = SearchRequest {
        query: String::from("blue?"),
        fact_type: vec![String::from("world"), String::from("opinion")],
        thinking_budget: 100,
        max_tokens: 4096,
        trace: false,
    };
    let r = c.search("a1", &req);
    assert_eq!(r.method, HttpMethod::Post);
    assert_eq!(r.url, "http://h:1/agents/a1/search");
    assert_eq!(
        r.body.unwrap(),
        "{\"query\":\"blue?\",\"fact_type\":[\"world\",\"opinion\"],\"thinking_budget\":100,\"max_tokens\":4096,\"trace\":false}"
    );
}

#[test]
fn think_request_is_exact() {
    let c = client();
    let req = ThinkRequest {
        query: String::from("why"),
        thinking_budget: 50,
        context: None,
    };
    let r = c.think("a1", &req);
    assert_eq!(r.url, "http://h:1/agents/a1/think");
    assert_eq!(
        r.body.unwrap(),
        "{\"query\":\"why\",\"thinking_budget\":50,\"context\":null}"
    );
}

#[test]
fn put_memories_async_flag_changes_url_only() {
    let c = client();
    let batch = one_item_batch();
    let sync = c.put_memories("a1", &batch, false);
    let qd = c.put_memories("a1", &batch, true);
    assert_eq!(sync.url, "http://h:1/agents/a1/memories");
    assert_eq!(qd.url, "http://h:1/agents/a1/memories?async=true");
    assert_eq!(sync.body, qd.body);
    assert_eq!(
        sync.body.unwrap(),
        "{\"items\":[{\"content\":\"m\",\"context\":null}],\"document_id\":\"d\"}"
    );
}

#[test]
fn empty_batch_is_rejected_before_transport() {
    let c = client();
    let empty = BatchMemoryRequest { items: vec![], document_id: None };
    let e = c.try_put_memories("a1", &empty, false).unwrap_err();
    assert!(matches!(e, ApiError::OutcomeFailure(_)));
    let ok = c.try_put_memories("a1", &one_item_batch(), false);
    assert!(ok.is_ok());
}

#[test]
fn delete_and_clear_requests() {
    let c = client();
    let d = c.delete_memory("a1", "u9");
    assert_eq!(d.method, HttpMethod::Delete);
    assert_eq!(d.url, "http://h:1/agents/a1/memories/u9");
    let all = c.clear_memories("a1", None);
    assert_eq!(all.url, "http://h:1/agents/a1/memories");
    let one = c.clear_memories("a1", Some("world"));
    assert_eq!(one.url, "http://h:1/agents/a1/memories?fact_type=world");
}

#[test]
fn document_requests() {
    let c = client();
    let l = c.list_documents("a1", None, 100, 0);
    assert_eq!(l.url, "http://h:1/agents/a1/documents?limit=100&offset=0");
    let lq = c.list_documents("a1", Some("report"), 10, 5);
    assert_eq!(lq.url, "http://h:1/agents/a1/documents?limit=10&offset=5&q=report");
    assert_eq!(c.get_document("a1", "d1").url, "http://h:1/agents/a1/documents/d1");
    let del = c.delete_document("a1", "d1");
    assert_eq!(del.method, HttpMethod::Delete);
    assert_eq!(del.url, "http://h:1/agents/a1/documents/d1");
}

#[test]
fn operation_requests() {
    let c = client();
    assert_eq!(c.list_operations("a1").url, "http://h:1/agents/a1/operations");
    let r = c.cancel_operation("a1", "op-7");
    assert_eq!(r.method, HttpMethod::Post);
    assert_eq!(r.url, "http://h:1/agents/a1/operations/op-7/cancel");
}

#[test]
fn http_method_names() {
    assert_eq!(HttpMethod::Get.name(), "GET");
    assert_eq!(HttpMethod::Post.name(), "POST");
    assert_eq!(HttpMethod::Put.name(), "PUT");
    assert_eq!(HttpMethod::Delete.name(), "DELETE");
}

#[test]
fn response_classification() {
    assert!(classify_response(200, true, String::new()).is_ok());
    assert!(classify_response(204, true, String::new()).is_ok());
    match classify_response(404, true, String::from("missing")).unwrap_err() {
        ApiError::Protocol(status, body) => {
            assert_eq!(status, 404);
            assert_eq!(body, "missing");
        },
        _ => panic!("expected a protocol error"),
    }
    match classify_response(200, false, String::from("not json")).unwrap_err() {
        ApiError::Protocol(status, body) => {
            assert_eq!(status, 200);
            assert_eq!(body, "not json");
        },
        _ => panic!("expected a protocol error"),
    }
}

#[test]
fn outcome_gate_surfaces_embedded_failure() {
    let ok = outcome_gate(Outcome { success: true, message: String::from("done") }).unwrap();
    assert_eq!(ok.message, "done");
    let e = outcome_gate(Outcome { success: false, message: String::from("denied") }).unwrap_err();
    match e {
        ApiError::OutcomeFailure(m) => assert_eq!(m, "denied"),
        _ => panic!("expected an outcome failure"),
    }
}

#[test]
fn negative_budget_renders_signed() {
    let c = client();
    let req = ThinkRequest {
        query: String::from("q"),
        thinking_budget: -1,
        context: Some(String::from("ctx")),
    };
    let r = c.think("a1", &req);
    assert_eq!(
        r.body.unwrap(),
        "{\"query\":\"q\",\"thinking_budget\":-1,\"context\":\"ctx\"}"
    );
}
