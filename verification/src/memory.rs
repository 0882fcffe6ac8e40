//! The memory facade: one request descriptor per memory-ledger operation.

use vstd::prelude::*;

verus! {

use vstd::string::StringExecFns;
use crate::client::BlackRoadClient;
use crate::json::Json;
use crate::json::JsonV;
use crate::json::jview;
use crate::json::jview_seq;
use crate::json::lemma_jview_fields;
use crate::json::lemma_jview_seq;
use crate::json::jview_fields;
use crate::request::DescriptorView;
use crate::request::Method;
use crate::request::RequestDescriptor;
use crate::request::opt_field;
use crate::request::opt_int_param;
use crate::request::opt_json;
use crate::request::opt_param;
use crate::request::opt_ref_str;
use crate::request::opt_str;
use crate::text::comma_join;
use crate::text::i64_text;
use crate::text::int_text;
use crate::text::join_commas;
use crate::text::str_views;
use crate::types::LogMemoryOptions;
use crate::types::MemoryQueryOptions;
use crate::types::Timestamp;
use crate::types::rfc3339_opt;
use crate::types::rfc3339_text;

/// The facade for memory operations; it shares the one immutable client.
#[derive(Debug, Clone)]
pub struct MemoryAPI {
    pub client: BlackRoadClient,
}

/// The log body: action and entity always, then only the present optional
/// fields; tags become a JSON array of strings.
pub open spec fn log_body(opts: LogMemoryOptions) -> JsonV {
    JsonV::Obj(
        seq![("action"@, JsonV::Str(opts.action@)), ("entity"@, JsonV::Str(opts.entity@))]
            + opt_field(
            "details"@,
            match opts.details {
                Some(d) => Some(JsonV::Str(d@)),
                None => None,
            },
        ) + opt_field(
            "tags"@,
            match opts.tags {
                Some(ts) => Some(JsonV::Arr(tag_views(ts@))),
                None => None,
            },
        ) + opt_field("metadata"@, opt_json(opts.metadata)),
    )
}

/// The JSON string values for a list of tags.
pub open spec fn tag_views(ts: Seq<String>) -> Seq<JsonV> {
    ts.map_values(|t: String| JsonV::Str(t@))
}

/// The request that logs a memory entry.
pub open spec fn memory_log_desc(opts: LogMemoryOptions) -> DescriptorView {
    DescriptorView {
        method: Method::Post,
        path: "/memory"@,
        query: Seq::empty(),
        body: Some(log_body(opts)),
        envelope: None,
    }
}

/// The formatted text of an optional timestamp filter: present exactly when
/// the filter is given and the calendar library can format it.
pub open spec fn ts_text(t: Option<Timestamp>) -> Option<Seq<char>> {
    match t {
        Some(ts) => rfc3339_opt(ts.secs as int, ts.nanos as int),
        None => None,
    }
}

/// The query parameters of a memory query: the present filters in
/// declaration order, with the limit always present and defaulting to 100.
pub open spec fn memory_query_params(opts: Option<MemoryQueryOptions>) -> Seq<
    (Seq<char>, Seq<char>),
> {
    match opts {
        None => seq![("limit"@, "100"@)],
        Some(o) => opt_param("q"@, opt_str(o.search)) + opt_param("action"@, opt_str(o.action))
            + opt_param("entity"@, opt_str(o.entity)) + opt_param(
            "tags"@,
            match o.tags {
                Some(ts) => Some(comma_join(str_views(ts@))),
                None => None,
            },
        ) + opt_param("since"@, ts_text(o.since)) + opt_param("until"@, ts_text(o.until)) + seq![
            (
                "limit"@,
                match o.limit {
                    Some(l) => int_text(l as int),
                    None => "100"@,
                },
            ),
        ] + opt_int_param("offset"@, o.offset),
    }
}

/// The memory query request; the entries arrive under the `entries` key.
pub open spec fn memory_query_desc(opts: Option<MemoryQueryOptions>) -> DescriptorView {
    DescriptorView {
        method: Method::Get,
        path: "/memory"@,
        query: memory_query_params(opts),
        body: None,
        envelope: Some("entries"@),
    }
}

/// The request for one memory entry by hash.
pub open spec fn memory_get_desc(entry_hash: Seq<char>) -> DescriptorView {
    DescriptorView {
        method: Method::Get,
        path: "/memory/"@ + entry_hash,
        query: Seq::empty(),
        body: None,
        envelope: None,
    }
}

/// The query options of a recent-entries request: only the limit is set,
/// defaulting to 50.
pub open spec fn recent_options(limit: Option<i32>) -> MemoryQueryOptions {
    MemoryQueryOptions {
        search: None,
        action: None,
        entity: None,
        tags: None,
        since: None,
        until: None,
        limit: Some(
            match limit {
                Some(l) => l,
                None => 50,
            },
        ),
        offset: None,
    }
}

/// The request for an agent's state.
pub open spec fn agent_state_desc(agent_id: Seq<char>) -> DescriptorView {
    DescriptorView {
        method: Method::Get,
        path: "/memory/agents/"@ + agent_id + "/state"@,
        query: Seq::empty(),
        body: None,
        envelope: None,
    }
}

/// The request that stores an agent's state.
pub open spec fn sync_state_desc(agent_id: Seq<char>, state: JsonV) -> DescriptorView {
    DescriptorView {
        method: Method::Post,
        path: "/memory/agents/"@ + agent_id + "/state"@,
        query: Seq::empty(),
        body: Some(state),
        envelope: None,
    }
}

/// The broadcast request; the response's interesting part arrives under the
/// `broadcast_id` key.
pub open spec fn broadcast_desc(msg_type: Seq<char>, payload: Seq<char>) -> DescriptorView {
    DescriptorView {
        method: Method::Post,
        path: "/memory/broadcast"@,
        query: Seq::empty(),
        body: Some(
            JsonV::Obj(seq![("type"@, JsonV::Str(msg_type)), ("payload"@, JsonV::Str(payload))]),
        ),
        envelope: Some("broadcast_id"@),
    }
}

/// The request that logs a TIL ("today I learned") entry.
pub open spec fn til_desc(category: Seq<char>, learning: Seq<char>) -> DescriptorView {
    DescriptorView {
        method: Method::Post,
        path: "/memory"@,
        query: Seq::empty(),
        body: Some(til_body(category, learning)),
        envelope: None,
    }
}

/// The log body of a TIL ("today I learned") entry for a category and a
/// learning text.
pub open spec fn til_body(category: Seq<char>, learning: Seq<char>) -> JsonV {
    JsonV::Obj(
        seq![
            ("action"@, JsonV::Str("til"@)),
            ("entity"@, JsonV::Str(category)),
            ("details"@, JsonV::Str(learning)),
            ("tags"@, JsonV::Arr(seq![JsonV::Str("til"@), JsonV::Str(category)])),
        ],
    )
}

/// The memory statistics request.
pub open spec fn memory_stats_desc() -> DescriptorView {
    DescriptorView {
        method: Method::Get,
        path: "/memory/stats"@,
        query: Seq::empty(),
        body: None,
        envelope: None,
    }
}

/// The hash-chain verification request, optionally from a start hash.
pub open spec fn verify_chain_desc(start_hash: Option<Seq<char>>) -> DescriptorView {
    DescriptorView {
        method: Method::Get,
        path: "/memory/verify"@,
        query: opt_param("start"@, start_hash),
        body: None,
        envelope: None,
    }
}

/// A recent-entries request is the general query whose options set only the
/// limit.  The descriptor is a function of the limit alone, so repeated
/// calls with the same limit issue the identical request.
pub proof fn lemma_recent_matches_limit_only_query(opts: MemoryQueryOptions, limit: Option<i32>)
    requires
        opts.search is None,
        opts.action is None,
        opts.entity is None,
        opts.tags is None,
        opts.since is None,
        opts.until is None,
        opts.limit == recent_options(limit).limit,
        opts.offset is None,
    ensures
        memory_query_desc(Some(opts)) == memory_query_desc(Some(recent_options(limit))),
{
    assert(opts == recent_options(limit));
}

impl MemoryAPI {
    /// Creates the facade around a client handle.
    pub(crate) fn new(client: BlackRoadClient) -> (r: Self)
        ensures
            r.client == client,
    {
        MemoryAPI { client }
    }

    /// The request that logs a new memory entry.
    pub fn log(&self, opts: LogMemoryOptions) -> (r: RequestDescriptor)
        ensures
            r@ == memory_log_desc(opts),
    {
        let mut fields: Vec<(String, Json)> = Vec::new();
        fields.push((String::from_str("action"), Json::Str(opts.action)));
        fields.push((String::from_str("entity"), Json::Str(opts.entity)));
        if let Some(d) = opts.details {
            fields.push((String::from_str("details"), Json::Str(d)));
        }
        match opts.tags {
            Some(ts) => {
                let mut items: Vec<Json> = Vec::new();
                let mut i: usize = 0;
                proof {
                    lemma_jview_seq(items@);
                    assert(jview_seq(items@) =~= tag_views(ts@.take(0)));
                }
                #[verifier::loop_isolation(false)]
                while i < ts.len()
                    invariant
                        i <= ts.len(),
                        jview_seq(items@) == tag_views(ts@.take(i as int)),
                    decreases ts.len() - i,
                {
                    let ghost prev: Seq<Json> = items@;
                    items.push(Json::Str(ts[i].clone()));
                    proof {
                        lemma_jview_seq(items@);
                        assert(items@.drop_last() =~= prev);
                        assert(items@.last() == Json::Str(ts@[i as int]));
                        assert(jview_seq(items@) == jview_seq(prev).push(
                            JsonV::Str(ts@[i as int]@),
                        ));
                        assert(ts@.take(i as int + 1).drop_last() =~= ts@.take(i as int));
                        assert(ts@.take(i as int + 1).last() == ts@[i as int]);
                        assert(jview_seq(items@) =~= tag_views(ts@.take(i as int + 1)));
                    }
                    i = i + 1;
                }
                proof {
                    assert(ts@.take(ts@.len() as int) =~= ts@);
                }
                fields.push((String::from_str("tags"), Json::Arr(items)));
            },
            None => {},
        }
        if let Some(m) = opts.metadata {
            fields.push((String::from_str("metadata"), m));
        }
        proof {
            lemma_jview_fields(fields@);
        }
        let r = RequestDescriptor {
            method: Method::Post,
            path: String::from_str("/memory"),
            query: Vec::new(),
            body: Some(Json::Obj(fields)),
            envelope: None,
        };
        proof {
            assert(r@.query =~= memory_log_desc(opts).query);
            assert(jview_fields(fields@) =~= log_body(opts)->Obj_0);
        }
        r
    }

    /// The request that queries memory entries under the given filters.
    #[verifier::rlimit(60)]
    pub fn query(&self, opts: Option<MemoryQueryOptions>) -> (r: RequestDescriptor)
        ensures
            r@ == memory_query_desc(opts),
    {
        let mut query: Vec<(String, String)> = Vec::new();
        match opts {
            None => {
                query.push((String::from_str("limit"), String::from_str("100")));
            },
            Some(o) => {
                if let Some(s) = o.search {
                    query.push((String::from_str("q"), s));
                }
                if let Some(a) = o.action {
                    query.push((String::from_str("action"), a));
                }
                if let Some(e) = o.entity {
                    query.push((String::from_str("entity"), e));
                }
                if let Some(ts) = o.tags {
                    query.push((String::from_str("tags"), join_commas(&ts)));
                }
                if let Some(since) = o.since {
                    if let Some(text) = rfc3339_text(since) {
                        query.push((String::from_str("since"), text));
                    }
                }
                if let Some(until) = o.until {
                    if let Some(text) = rfc3339_text(until) {
                        query.push((String::from_str("until"), text));
                    }
                }
                let limit_value: String = match o.limit {
                    Some(l) => i64_text(l as i64),
                    None => String::from_str("100"),
                };
                query.push((String::from_str("limit"), limit_value));
                if let Some(of) = o.offset {
                    query.push((String::from_str("offset"), i64_text(of as i64)));
                }
            },
        }
        let r = RequestDescriptor {
            method: Method::Get,
            path: String::from_str("/memory"),
            query,
            body: None,
            envelope: Some(String::from_str("entries")),
        };
        proof {
            assert(r@.query =~= memory_query_params(opts));
        }
        r
    }

    /// The request for one memory entry by hash.
    pub fn get(&self, entry_hash: &str) -> (r: RequestDescriptor)
        ensures
            r@ == memory_get_desc(entry_hash@),
    {
        let mut path: String = String::from_str("/memory/");
        path.append(entry_hash);
        let r = RequestDescriptor {
            method: Method::Get,
            path,
            query: Vec::new(),
            body: None,
            envelope: None,
        };
        proof {
            assert(r@.query =~= memory_get_desc(entry_hash@).query);
        }
        r
    }

    /// The request for recent memory entries: the general query with only a
    /// limit, defaulting to 50.  The descriptor depends on the limit alone,
    /// so two calls with the same limit issue the same request.
    pub fn recent(&self, limit: Option<i32>) -> (r: RequestDescriptor)
        ensures
            r@ == memory_query_desc(Some(recent_options(limit))),
    {
        let mut o: MemoryQueryOptions = MemoryQueryOptions::default();
        o.limit = Some(
            match limit {
                Some(l) => l,
                None => 50,
            },
        );
        proof {
            assert(o == recent_options(limit));
        }
        self.query(Some(o))
    }

    /// The request for an agent's state.
    pub fn agent_state(&self, agent_id: &str) -> (r: RequestDescriptor)
        ensures
            r@ == agent_state_desc(agent_id@),
    {
        let mut path: String = String::from_str("/memory/agents/");
        path.append(agent_id);
        path.append("/state");
        let r = RequestDescriptor {
            method: Method::Get,
            path,
            query: Vec::new(),
            body: None,
            envelope: None,
        };
        proof {
            assert(r@.query =~= agent_state_desc(agent_id@).query);
        }
        r
    }

    /// The request that stores an agent's state, given as a JSON object.
    pub fn sync_state(&self, agent_id: &str, state: Json) -> (r: RequestDescriptor)
        ensures
            r@ == sync_state_desc(agent_id@, jview(state)),
    {
        let mut path: String = String::from_str("/memory/agents/");
        path.append(agent_id);
        path.append("/state");
        let r = RequestDescriptor {
            method: Method::Post,
            path,
            query: Vec::new(),
            body: Some(state),
            envelope: None,
        };
        proof {
            assert(r@.query =~= Seq::<(Seq<char>, Seq<char>)>::empty());
        }
        r
    }

    /// The request that broadcasts a message.
    pub fn broadcast(&self, msg_type: &str, payload: &str) -> (r: RequestDescriptor)
        ensures
            r@ == broadcast_desc(msg_type@, payload@),
    {
        let mut fields: Vec<(String, Json)> = Vec::new();
        fields.push((String::from_str("type"), Json::Str(String::from_str(msg_type))));
        fields.push((String::from_str("payload"), Json::Str(String::from_str(payload))));
        proof {
            lemma_jview_fields(fields@);
        }
        let r = RequestDescriptor {
            method: Method::Post,
            path: String::from_str("/memory/broadcast"),
            query: Vec::new(),
            body: Some(Json::Obj(fields)),
            envelope: Some(String::from_str("broadcast_id")),
        };
        proof {
            assert(r@.query =~= broadcast_desc(msg_type@, payload@).query);
            assert(jview_fields(fields@) =~= broadcast_desc(
                msg_type@,
                payload@,
            ).body->Some_0->Obj_0);
        }
        r
    }

    /// The request that logs a TIL ("today I learned") entry: a log whose
    /// action is `til`, whose entity is the category, and whose tags are
    /// `til` and the category.
    pub fn til(&self, category: &str, learning: &str) -> (r: RequestDescriptor)
        ensures
            r@ == til_desc(category@, learning@),
    {
        let mut tags: Vec<String> = Vec::new();
        tags.push(String::from_str("til"));
        tags.push(String::from_str(category));
        let opts = LogMemoryOptions {
            action: String::from_str("til"),
            entity: String::from_str(category),
            details: Some(String::from_str(learning)),
            tags: Some(tags),
            metadata: None,
        };
        let r = self.log(opts);
        proof {
            assert(tag_views(opts.tags->Some_0@) =~= seq![
                JsonV::Str("til"@),
                JsonV::Str(category@),
            ]);
            assert(log_body(opts)->Obj_0 =~= til_body(category@, learning@)->Obj_0);
            assert(r@ =~= til_desc(category@, learning@));
        }
        r
    }

    /// The memory statistics request.
    pub fn stats(&self) -> (r: RequestDescriptor)
        ensures
            r@ == memory_stats_desc(),
    {
        let r = RequestDescriptor {
            method: Method::Get,
            path: String::from_str("/memory/stats"),
            query: Vec::new(),
            body: None,
            envelope: None,
        };
        proof {
            assert(r@.query =~= memory_stats_desc().query);
        }
        r
    }

    /// The request that verifies hash-chain integrity, optionally from a
    /// start hash.
    pub fn verify_chain(&self, start_hash: Option<&str>) -> (r: RequestDescriptor)
        ensures
            r@ == verify_chain_desc(opt_ref_str(start_hash)),
    {
        let mut query: Vec<(String, String)> = Vec::new();
        if let Some(h) = start_hash {
            query.push((String::from_str("start"), String::from_str(h)));
        }
        let r = RequestDescriptor {
            method: Method::Get,
            path: String::from_str("/memory/verify"),
            query,
            body: None,
            envelope: None,
        };
        proof {
            assert(r@.query =~= verify_chain_desc(opt_ref_str(start_hash)).query);
        }
        r
    }
}

} // verus!
