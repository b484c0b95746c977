use hindsight_cli::model::{
    AgentInfo, AgentProfile, DocumentInfo, DocumentsResponse, Fact, MemoryStats, Operation,
    OperationsResponse, Outcome, Personality, PutMemoriesResult, SearchResponse, ThinkResponse,
    TraceInfo,
};
use hindsight_cli::render::{
    i32_string, json_escape, json_quote, render_agents_json, render_documents_json,
    render_operations_json, render_outcome_json, render_outcome_yaml, render_profile_json,
    render_profile_yaml, render_put_result_json, render_put_result_yaml,
    render_search_response_json, render_search_response_yaml, render_stats_json,
    render_think_response_json, render_trait_bar, u64_string,
};

fn sample_personality() -> Personality {
    Personality {
        openness: 750,
        conscientiousness: 500,
        extraversion: 250,
        agreeableness: 1000,
        neuroticism: 0,
        bias_strength: 333,
    }
}

fn sample_fact() -> Fact {
    Fact {
        text: String::from("the sky is blue"),
        fact_type: Some(String::from("world")),
        activation: Some(420),
        context: None,
        occurred_start: None,
        occurred_end: None,
        event_date: None,
        mentioned_at: Some(String::from("2024-01-01")),
        document_id: Some(String::from("doc-1")),
    }
}

#[test]
fn numbers_render_in_decimal() {
    assert_eq!(u64_string(0), "0");
    assert_eq!(u64_string(7), "7");
    assert_eq!(u64_string(1234567890), "1234567890");
    assert_eq!(i32_string(-42), "-42");
    assert_eq!(i32_string(100), "100");
    assert_eq!(i32_string(i32::MIN), "-2147483648");
}

#[test]
fn strings_are_escaped() {
    assert_eq!(json_escape("plain"), "plain");
    assert_eq!(json_escape("a\"b\\c\nd\te\r"), "a\\\"b\\\\c\\nd\\te\\r");
    assert_eq!(json_quote("hi"), "\"hi\"");
}

#[test]
fn outcome_json_is_exact() {
    let o = Outcome { success: true, message: String::from("ok") };
    assert_eq!(render_outcome_json(&o), "{\"success\":true,\"message\":\"ok\"}");
    let f = Outcome { success: false, message: String::from("no \"luck\"") };
    assert_eq!(
        render_outcome_json(&f),
        "{\"success\":false,\"message\":\"no \\\"luck\\\"\"}"
    );
}

#[test]
fn rendering_twice_is_byte_identical() {
    let o = Outcome { success: false, message: String::from("x\ny") };
    assert_eq!(render_outcome_json(&o), render_outcome_json(&o));
    let resp = SearchResponse {
        results: vec![sample_fact(), sample_fact()],
        trace: Some(TraceInfo { total_time_us: Some(1500), activation_count: None }),
    };
    let once = render_search_response_json(&resp);
    let twice = render_search_response_json(&resp);
    assert_eq!(once.as_bytes(), twice.as_bytes());
}

#[test]
fn put_result_json_is_exact() {
    let queued = PutMemoriesResult {
        job_id: Some(String::from("op-9")),
        stored_count: None,
        items_count: Some(3),
    };
    assert_eq!(
        render_put_result_json(&queued),
        "{\"job_id\":\"op-9\",\"stored_count\":null,\"items_count\":3}"
    );
    let stored = PutMemoriesResult { job_id: None, stored_count: Some(5), items_count: None };
    assert_eq!(
        render_put_result_json(&stored),
        "{\"job_id\":null,\"stored_count\":5,\"items_count\":null}"
    );
}

#[test]
fn profile_json_is_exact() {
    let p = AgentProfile {
        agent_id: String::from("a1"),
        name: String::from("Ada"),
        background: String::from("calm"),
        personality: sample_personality(),
    };
    assert_eq!(
        render_profile_json(&p),
        "{\"agent_id\":\"a1\",\"name\":\"Ada\",\"background\":\"calm\",\"personality\":{\"openness\":750,\"conscientiousness\":500,\"extraversion\":250,\"agreeableness\":1000,\"neuroticism\":0,\"bias_strength\":333}}"
    );
}

#[test]
fn search_response_json_is_exact() {
    let resp = SearchResponse { results: vec![sample_fact()], trace: None };
    assert_eq!(
        render_search_response_json(&resp),
        "{\"results\":[{\"text\":\"the sky is blue\",\"fact_type\":\"world\",\"activation\":420,\"context\":null,\"occurred_start\":null,\"occurred_end\":null,\"event_date\":null,\"mentioned_at\":\"2024-01-01\",\"document_id\":\"doc-1\"}],\"trace\":null}"
    );
}

#[test]
fn empty_search_response_renders_empty_array() {
    let resp = SearchResponse { results: vec![], trace: None };
    assert_eq!(
        render_search_response_json(&resp),
        "{\"results\":[],\"trace\":null}"
    );
}

#[test]
fn think_response_json_is_exact() {
    let resp = ThinkResponse {
        text: String::from("an answer"),
        based_on: vec![String::from("m1"), String::from("m2")],
    };
    assert_eq!(
        render_think_response_json(&resp),
        "{\"text\":\"an answer\",\"based_on\":[\"m1\",\"m2\"]}"
    );
}

#[test]
fn operations_json_is_exact() {
    let resp = OperationsResponse {
        operations: vec![Operation {
            id: String::from("op-1"),
            task_type: String::from("put"),
            status: String::from("pending"),
            items_count: 2,
            document_id: None,
        }],
    };
    assert_eq!(
        render_operations_json(&resp),
        "{\"operations\":[{\"id\":\"op-1\",\"task_type\":\"put\",\"status\":\"pending\",\"items_count\":2,\"document_id\":null}]}"
    );
}

#[test]
fn agents_json_is_exact() {
    let aa = vec![
        AgentInfo { agent_id: String::from("a1") },
        AgentInfo { agent_id: String::from("a2") },
    ];
    assert_eq!(
        render_agents_json(&aa),
        "[{\"agent_id\":\"a1\"},{\"agent_id\":\"a2\"}]"
    );
}

#[test]
fn documents_json_is_exact() {
    let resp = DocumentsResponse {
        items: vec![DocumentInfo {
            id: String::from("d1"),
            agent_id: String::from("a1"),
            created_at: String::from("2024-01-01"),
            updated_at: String::from("2024-01-02"),
            text_length: 10,
            memory_unit_count: 3,
            original_text: String::from("hello"),
        }],
        total: 1,
    };
    assert_eq!(
        render_documents_json(&resp),
        "{\"items\":[{\"id\":\"d1\",\"agent_id\":\"a1\",\"created_at\":\"2024-01-01\",\"updated_at\":\"2024-01-02\",\"text_length\":10,\"memory_unit_count\":3,\"original_text\":\"hello\"}],\"total\":1}"
    );
}

#[test]
fn stats_json_is_exact() {
    let st = MemoryStats {
        total_nodes: 4,
        total_links: 2,
        total_documents: 1,
        nodes_by_fact_type: vec![(String::from("world"), 3), (String::from("agent"), 1)],
        links_by_link_type: vec![],
        links_by_fact_type: vec![(String::from("world"), 2)],
        pending_operations: 0,
        failed_operations: 0,
    };
    assert_eq!(
        render_stats_json(&st),
        "{\"total_nodes\":4,\"total_links\":2,\"total_documents\":1,\"nodes_by_fact_type\":{\"world\":3,\"agent\":1},\"links_by_link_type\":{},\"links_by_fact_type\":{\"world\":2},\"pending_operations\":0,\"failed_operations\":0}"
    );
}

#[test]
fn rendered_json_parses_back() {
    let resp = SearchResponse {
        results: vec![sample_fact()],
        trace: Some(TraceInfo { total_time_us: Some(12), activation_count: Some(3) }),
    };
    let text = render_search_response_json(&resp);
    let v: serde_json::Value = serde_json::from_str(&text).unwrap();
    assert_eq!(v["results"][0]["text"], "the sky is blue");
    assert_eq!(v["results"][0]["activation"], 420);
    assert_eq!(v["trace"]["total_time_us"], 12);
}

#[test]
fn yaml_outcome_is_exact() {
    let o = Outcome { success: true, message: String::from("done") };
    assert_eq!(render_outcome_yaml(&o), "success: true\nmessage: \"done\"\n");
}

#[test]
fn yaml_put_result_is_exact() {
    let p = PutMemoriesResult { job_id: None, stored_count: Some(2), items_count: None };
    assert_eq!(
        render_put_result_yaml(&p),
        "job_id: null\nstored_count: 2\nitems_count: null\n"
    );
}

#[test]
fn yaml_profile_carries_all_fields() {
    let p = AgentProfile {
        agent_id: String::from("a1"),
        name: String::from("Ada"),
        background: String::from(""),
        personality: sample_personality(),
    };
    let y = render_profile_yaml(&p);
    assert!(y.starts_with("agent_id: \"a1\"\nname: \"Ada\"\nbackground: \"\"\npersonality: {"));
    assert!(y.ends_with("}\n"));
}

#[test]
fn yaml_search_response_mirrors_json_pieces() {
    let resp = SearchResponse { results: vec![], trace: None };
    assert_eq!(render_search_response_yaml(&resp), "results: []\ntrace: null\n");
}

#[test]
fn full_trait_renders_full_bar() {
    let bar = render_trait_bar(1000);
    assert_eq!(bar.chars().count(), 40);
    assert!(bar.chars().all(|c| c == '\u{2588}'));
}

#[test]
fn empty_trait_renders_empty_bar() {
    let bar = render_trait_bar(0);
    assert_eq!(bar.chars().count(), 40);
    assert!(bar.chars().all(|c| c == '\u{2591}'));
}

#[test]
fn half_trait_renders_half_bar() {
    let bar = render_trait_bar(500);
    let filled = bar.chars().filter(|c| *c == '\u{2588}').count();
    let empty = bar.chars().filter(|c| *c == '\u{2591}').count();
    assert_eq!(filled, 20);
    assert_eq!(empty, 20);
}

#[test]
fn yaml_operations_list() {
    let resp = OperationsResponse { operations: vec![] };
    assert_eq!(
        hindsight_cli::render::render_operations_yaml(&resp),
        "operations: []\n"
    );
}
