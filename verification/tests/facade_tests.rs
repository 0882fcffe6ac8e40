use blackroad::AgentListOptions;
use blackroad::BlackRoadClient;
use blackroad::ClientConfig;
use blackroad::DispatchTaskOptions;
use blackroad::Json;
use blackroad::LogMemoryOptions;
use blackroad::MemoryQueryOptions;
use blackroad::Method;
use blackroad::RegisterAgentOptions;
use blackroad::TaskListOptions;
use blackroad::Timestamp;

fn client() -> BlackRoadClient {
    BlackRoadClient::new(ClientConfig::default(), Some(String::from("k")), None).unwrap()
}

fn pair(k: &str, v: &str) -> (String, String) {
    (String::from(k), String::from(v))
}

#[test]
fn agent_list_without_options_has_no_query() {
    let desc = client().agents().list(None);
    assert_eq!(desc.method, Method::Get);
    assert_eq!(desc.path, "/agents");
    assert!(desc.query.is_empty());
    assert!(desc.body.is_none());
    assert_eq!(desc.envelope, Some(String::from("agents")));
}

#[test]
fn agent_list_carries_exactly_the_present_filters() {
    let mut opts = AgentListOptions::default();
    opts.agent_type = Some(String::from("ai"));
    opts.level = Some(2);
    opts.offset = Some(40);
    let desc = client().agents().list(Some(opts));
    assert_eq!(
        desc.query,
        vec![pair("type", "ai"), pair("level", "2"), pair("offset", "40")]
    );
}

#[test]
fn commanders_equals_list_with_level_two_only() {
    let c = client();
    let mut opts = AgentListOptions::default();
    opts.level = Some(2);
    assert_eq!(c.agents().commanders(), c.agents().list(Some(opts)));
}

#[test]
fn managers_and_workers_fill_levels_three_and_four() {
    let c = client();
    assert_eq!(c.agents().managers().query, vec![pair("level", "3")]);
    assert_eq!(c.agents().workers().query, vec![pair("level", "4")]);
}

#[test]
fn agents_by_division_fills_only_that_filter() {
    let desc = client().agents().by_division("ops");
    assert_eq!(desc.path, "/agents");
    assert_eq!(desc.query, vec![pair("division", "ops")]);
}

#[test]
fn agent_get_builds_the_id_path() {
    let desc = client().agents().get("a-1");
    assert_eq!(desc.method, Method::Get);
    assert_eq!(desc.path, "/agents/a-1");
    assert!(desc.envelope.is_none());
}

#[test]
fn register_defaults_type_and_level() {
    let mut opts = RegisterAgentOptions::default();
    opts.name = String::from("scout");
    let desc = client().agents().register(opts);
    assert_eq!(desc.method, Method::Post);
    assert_eq!(desc.path, "/agents");
    let body = desc.body.unwrap().to_text();
    assert_eq!(body, "{\"name\":\"scout\",\"type\":\"ai\",\"level\":4}");
}

#[test]
fn register_includes_present_optionals_only() {
    let mut opts = RegisterAgentOptions::default();
    opts.name = String::from("scout");
    opts.agent_type = Some(String::from("human"));
    opts.level = Some(1);
    opts.division = Some(String::from("ops"));
    opts.metadata = Some(Json::Obj(vec![(String::from("note"), Json::Str(String::from("x")))]));
    let desc = client().agents().register(opts);
    let body = desc.body.unwrap().to_text();
    assert_eq!(
        body,
        "{\"name\":\"scout\",\"type\":\"human\",\"level\":1,\"division\":\"ops\",\"metadata\":{\"note\":\"x\"}}"
    );
}

#[test]
fn heartbeat_sends_the_load_or_an_empty_object() {
    let c = client();
    let desc = c.agents().heartbeat("a-1", Some(Json::Num(String::from("0.5"))));
    assert_eq!(desc.path, "/agents/a-1/heartbeat");
    assert_eq!(desc.body.unwrap().to_text(), "{\"load\":0.5}");
    let desc = c.agents().heartbeat("a-1", None);
    assert_eq!(desc.body.unwrap().to_text(), "{}");
}

#[test]
fn update_status_and_delete_target_the_agent() {
    let c = client();
    let desc = c.agents().update_status("a-1", "idle");
    assert_eq!(desc.method, Method::Put);
    assert_eq!(desc.path, "/agents/a-1");
    assert_eq!(desc.body.unwrap().to_text(), "{\"status\":\"idle\"}");
    let desc = c.agents().delete("a-1");
    assert_eq!(desc.method, Method::Delete);
    assert_eq!(desc.path, "/agents/a-1");
    assert!(desc.body.is_none());
}

#[test]
fn stats_descriptors_use_fixed_paths() {
    let c = client();
    assert_eq!(c.agents().stats().path, "/agents/stats");
    assert_eq!(c.tasks().stats().path, "/tasks/stats");
    assert_eq!(c.memory().stats().path, "/memory/stats");
}

#[test]
fn dispatch_with_only_a_title_serialises_title_and_default_priority_only() {
    let mut opts = DispatchTaskOptions::default();
    opts.title = String::from("T");
    let desc = client().tasks().dispatch(opts);
    assert_eq!(desc.method, Method::Post);
    assert_eq!(desc.path, "/tasks");
    let body = desc.body.unwrap().to_text();
    assert_eq!(body, "{\"title\":\"T\",\"priority\":\"medium\"}");
    let parsed: serde_json::Value = serde_json::from_str(&body).unwrap();
    let obj = parsed.as_object().unwrap();
    assert_eq!(obj.len(), 2);
    assert_eq!(obj["title"], serde_json::Value::String(String::from("T")));
    assert_eq!(obj["priority"], serde_json::Value::String(String::from("medium")));
    assert!(!obj.contains_key("description"));
    assert!(!obj.contains_key("division"));
    assert!(!obj.contains_key("target_level"));
    assert!(!obj.contains_key("metadata"));
}

#[test]
fn dispatch_includes_present_optionals_in_order() {
    let mut opts = DispatchTaskOptions::default();
    opts.title = String::from("T");
    opts.priority = Some(String::from("urgent"));
    opts.description = Some(String::from("do it"));
    opts.target_level = Some(2);
    let desc = client().tasks().dispatch(opts);
    assert_eq!(
        desc.body.unwrap().to_text(),
        "{\"title\":\"T\",\"priority\":\"urgent\",\"description\":\"do it\",\"target_level\":2}"
    );
}

#[test]
fn task_list_carries_exactly_the_present_filters() {
    let mut opts = TaskListOptions::default();
    opts.status = Some(String::from("pending"));
    opts.limit = Some(5);
    let desc = client().tasks().list(Some(opts));
    assert_eq!(desc.path, "/tasks");
    assert_eq!(desc.envelope, Some(String::from("tasks")));
    assert_eq!(desc.query, vec![pair("status", "pending"), pair("limit", "5")]);
}

#[test]
fn complete_and_fail_set_status_and_optional_result() {
    let c = client();
    let desc = c.tasks().complete("t-1", Some("done"));
    assert_eq!(desc.method, Method::Put);
    assert_eq!(desc.path, "/tasks/t-1");
    assert_eq!(
        desc.body.unwrap().to_text(),
        "{\"status\":\"completed\",\"result\":\"done\"}"
    );
    let desc = c.tasks().complete("t-1", None);
    assert_eq!(desc.body.unwrap().to_text(), "{\"status\":\"completed\"}");
    let desc = c.tasks().fail("t-1", Some("broke"));
    assert_eq!(
        desc.body.unwrap().to_text(),
        "{\"status\":\"failed\",\"result\":\"broke\"}"
    );
}

#[test]
fn assign_names_the_agent_then_the_status() {
    let desc = client().tasks().assign("t-1", "a-9");
    assert_eq!(desc.path, "/tasks/t-1");
    assert_eq!(
        desc.body.unwrap().to_text(),
        "{\"assigned_agent\":\"a-9\",\"status\":\"assigned\"}"
    );
}

#[test]
fn cancel_deletes_the_task() {
    let desc = client().tasks().cancel("t-1");
    assert_eq!(desc.method, Method::Delete);
    assert_eq!(desc.path, "/tasks/t-1");
    assert!(desc.body.is_none());
}

#[test]
fn task_convenience_filters_match_the_general_list() {
    let c = client();
    let mut opts = TaskListOptions::default();
    opts.status = Some(String::from("pending"));
    assert_eq!(c.tasks().pending(), c.tasks().list(Some(opts)));
    let mut opts = TaskListOptions::default();
    opts.status = Some(String::from("in_progress"));
    assert_eq!(c.tasks().in_progress(), c.tasks().list(Some(opts)));
    let mut opts = TaskListOptions::default();
    opts.priority = Some(String::from("urgent"));
    assert_eq!(c.tasks().urgent(), c.tasks().list(Some(opts)));
    let mut opts = TaskListOptions::default();
    opts.division = Some(String::from("ops"));
    assert_eq!(c.tasks().by_division("ops"), c.tasks().list(Some(opts)));
}

#[test]
fn memory_query_defaults_the_limit_to_one_hundred() {
    let desc = client().memory().query(None);
    assert_eq!(desc.method, Method::Get);
    assert_eq!(desc.path, "/memory");
    assert_eq!(desc.envelope, Some(String::from("entries")));
    assert_eq!(desc.query, vec![pair("limit", "100")]);
    let desc = client().memory().query(Some(MemoryQueryOptions::default()));
    assert_eq!(desc.query, vec![pair("limit", "100")]);
}

#[test]
fn memory_query_carries_filters_tags_and_timestamps() {
    let mut opts = MemoryQueryOptions::default();
    opts.search = Some(String::from("needle"));
    opts.action = Some(String::from("update"));
    opts.tags = Some(vec![String::from("a"), String::from("b"), String::from("c")]);
    opts.since = Some(Timestamp { secs: 0, nanos: 0 });
    opts.limit = Some(10);
    opts.offset = Some(20);
    let desc = client().memory().query(Some(opts));
    assert_eq!(
        desc.query,
        vec![
            pair("q", "needle"),
            pair("action", "update"),
            pair("tags", "a,b,c"),
            pair("since", "1970-01-01T00:00:00+00:00"),
            pair("limit", "10"),
            pair("offset", "20"),
        ]
    );
}

#[test]
fn recent_is_idempotent_and_matches_a_limit_only_query() {
    let c = client();
    let first = c.memory().recent(Some(10));
    let second = c.memory().recent(Some(10));
    assert_eq!(first, second);
    assert_eq!(first.query, vec![pair("limit", "10")]);
    let mut opts = MemoryQueryOptions::default();
    opts.limit = Some(10);
    assert_eq!(first, c.memory().query(Some(opts)));
    assert_eq!(c.memory().recent(None).query, vec![pair("limit", "50")]);
}

#[test]
fn log_serialises_only_present_fields() {
    let mut opts = LogMemoryOptions::default();
    opts.action = String::from("create");
    opts.entity = String::from("agent");
    let desc = client().memory().log(opts);
    assert_eq!(desc.method, Method::Post);
    assert_eq!(desc.path, "/memory");
    assert_eq!(
        desc.body.unwrap().to_text(),
        "{\"action\":\"create\",\"entity\":\"agent\"}"
    );
    let mut opts = LogMemoryOptions::default();
    opts.action = String::from("create");
    opts.entity = String::from("agent");
    opts.details = Some(String::from("d"));
    opts.tags = Some(vec![String::from("x"), String::from("y")]);
    let desc = client().memory().log(opts);
    assert_eq!(
        desc.body.unwrap().to_text(),
        "{\"action\":\"create\",\"entity\":\"agent\",\"details\":\"d\",\"tags\":[\"x\",\"y\"]}"
    );
}

#[test]
fn til_logs_a_tagged_learning() {
    let desc = client().memory().til("rust", "lifetimes");
    assert_eq!(desc.method, Method::Post);
    assert_eq!(desc.path, "/memory");
    assert_eq!(
        desc.body.unwrap().to_text(),
        "{\"action\":\"til\",\"entity\":\"rust\",\"details\":\"lifetimes\",\"tags\":[\"til\",\"rust\"]}"
    );
}

#[test]
fn memory_get_and_agent_state_build_their_paths() {
    let c = client();
    assert_eq!(c.memory().get("abc123").path, "/memory/abc123");
    let desc = c.memory().agent_state("a-1");
    assert_eq!(desc.method, Method::Get);
    assert_eq!(desc.path, "/memory/agents/a-1/state");
}

#[test]
fn sync_state_posts_the_state_object() {
    let state = Json::Obj(vec![(String::from("mood"), Json::Str(String::from("calm")))]);
    let desc = client().memory().sync_state("a-1", state);
    assert_eq!(desc.method, Method::Post);
    assert_eq!(desc.path, "/memory/agents/a-1/state");
    assert_eq!(desc.body.unwrap().to_text(), "{\"mood\":\"calm\"}");
}

#[test]
fn broadcast_sends_type_and_payload() {
    let desc = client().memory().broadcast("alert", "all hands");
    assert_eq!(desc.method, Method::Post);
    assert_eq!(desc.path, "/memory/broadcast");
    assert_eq!(desc.envelope, Some(String::from("broadcast_id")));
    assert_eq!(
        desc.body.unwrap().to_text(),
        "{\"type\":\"alert\",\"payload\":\"all hands\"}"
    );
}

#[test]
fn timestamps_format_as_rfc3339_in_queries() {
    let mut opts = MemoryQueryOptions::default();
    opts.since = Some(Timestamp { secs: 1700000000, nanos: 0 });
    opts.until = Some(Timestamp { secs: i64::MAX, nanos: 0 });
    let desc = client().memory().query(Some(opts));
    assert_eq!(
        desc.query,
        vec![pair("since", "2023-11-14T22:13:20+00:00"), pair("limit", "100")]
    );
}

#[test]
fn verify_chain_optionally_names_a_start_hash() {
    let c = client();
    let desc = c.memory().verify_chain(Some("h1"));
    assert_eq!(desc.path, "/memory/verify");
    assert_eq!(desc.query, vec![pair("start", "h1")]);
    let desc = c.memory().verify_chain(None);
    assert!(desc.query.is_empty());
}
