//! The agents facade: one request descriptor per remote agent operation.
//!
//! Every method assembles a descriptor from its arguments alone, delegating
//! execution entirely to the pipeline; the convenience filters pre-fill one
//! field of the general list options and change nothing else.

use vstd::prelude::*;

verus! {

use vstd::string::StringExecFns;
use crate::client::BlackRoadClient;
use crate::json::Json;
use crate::json::JsonV;
use crate::json::lemma_jview_fields;
use crate::json::jview_fields;
use crate::request::DescriptorView;
use crate::request::Method;
use crate::request::RequestDescriptor;
use crate::request::opt_field;
use crate::request::opt_int_param;
use crate::request::opt_json;
use crate::request::opt_param;
use crate::request::opt_str;
use crate::text::i64_text;
use crate::types::AgentListOptions;
use crate::types::RegisterAgentOptions;

/// The facade for agent operations; it shares the one immutable client.
#[derive(Debug, Clone)]
pub struct AgentAPI {
    pub client: BlackRoadClient,
}

/// The query parameters of an agent listing: exactly the present filters,
/// in declaration order.
pub open spec fn agent_list_query(opts: Option<AgentListOptions>) -> Seq<(Seq<char>, Seq<char>)> {
    match opts {
        None => Seq::empty(),
        Some(o) => opt_param("type"@, opt_str(o.agent_type)) + opt_param(
            "division"@,
            opt_str(o.division),
        ) + opt_int_param("level"@, o.level) + opt_param("status"@, opt_str(o.status))
            + opt_int_param("limit"@, o.limit) + opt_int_param("offset"@, o.offset),
    }
}

/// The agent listing request; the agents arrive under the `agents` key.
pub open spec fn agent_list_desc(opts: Option<AgentListOptions>) -> DescriptorView {
    DescriptorView {
        method: Method::Get,
        path: "/agents"@,
        query: agent_list_query(opts),
        body: None,
        envelope: Some("agents"@),
    }
}

/// The request for one agent by id.
pub open spec fn agent_get_desc(agent_id: Seq<char>) -> DescriptorView {
    DescriptorView {
        method: Method::Get,
        path: "/agents/"@ + agent_id,
        query: Seq::empty(),
        body: None,
        envelope: None,
    }
}

/// The registration body: name always, type defaulting to `ai`, level
/// defaulting to 4, then only the present optional fields.
pub open spec fn register_body(opts: RegisterAgentOptions) -> JsonV {
    JsonV::Obj(
        seq![
            ("name"@, JsonV::Str(opts.name@)),
            (
                "type"@,
                JsonV::Str(
                    match opts.agent_type {
                        Some(t) => t@,
                        None => "ai"@,
                    },
                ),
            ),
            (
                "level"@,
                JsonV::Int(
                    match opts.level {
                        Some(l) => l as int,
                        None => 4,
                    },
                ),
            ),
        ] + opt_field(
            "division"@,
            match opts.division {
                Some(d) => Some(JsonV::Str(d@)),
                None => None,
            },
        ) + opt_field("metadata"@, opt_json(opts.metadata)),
    )
}

/// The agent registration request.
pub open spec fn agent_register_desc(opts: RegisterAgentOptions) -> DescriptorView {
    DescriptorView {
        method: Method::Post,
        path: "/agents"@,
        query: Seq::empty(),
        body: Some(register_body(opts)),
        envelope: None,
    }
}

/// The heartbeat body: the load when given, else an empty object.
pub open spec fn heartbeat_body(load: Option<Json>) -> JsonV {
    JsonV::Obj(opt_field("load"@, opt_json(load)))
}

/// The heartbeat request for one agent.
pub open spec fn agent_heartbeat_desc(agent_id: Seq<char>, load: Option<Json>) -> DescriptorView {
    DescriptorView {
        method: Method::Post,
        path: "/agents/"@ + agent_id + "/heartbeat"@,
        query: Seq::empty(),
        body: Some(heartbeat_body(load)),
        envelope: None,
    }
}

/// The status update request for one agent.
pub open spec fn agent_update_status_desc(agent_id: Seq<char>, status: Seq<char>) -> DescriptorView {
    DescriptorView {
        method: Method::Put,
        path: "/agents/"@ + agent_id,
        query: Seq::empty(),
        body: Some(JsonV::Obj(seq![("status"@, JsonV::Str(status))])),
        envelope: None,
    }
}

/// The deletion request for one agent.
pub open spec fn agent_delete_desc(agent_id: Seq<char>) -> DescriptorView {
    DescriptorView {
        method: Method::Delete,
        path: "/agents/"@ + agent_id,
        query: Seq::empty(),
        body: None,
        envelope: None,
    }
}

/// The agent statistics request.
pub open spec fn agent_stats_desc() -> DescriptorView {
    DescriptorView {
        method: Method::Get,
        path: "/agents/stats"@,
        query: Seq::empty(),
        body: None,
        envelope: None,
    }
}

/// The list options with only the level filter set.
pub open spec fn level_only_options(level: i32) -> AgentListOptions {
    AgentListOptions {
        agent_type: None,
        division: None,
        level: Some(level),
        status: None,
        limit: None,
        offset: None,
    }
}

/// Listing commanders is behaviourally identical to the general listing
/// whose options set only `level: Some(2)`: same endpoint, same query, same
/// envelope.  The same holds of managers and workers for their levels.
pub proof fn lemma_level_filter_matches_list(opts: AgentListOptions, level: i32)
    requires
        opts.agent_type is None,
        opts.division is None,
        opts.level == Some(level),
        opts.status is None,
        opts.limit is None,
        opts.offset is None,
    ensures
        agent_list_desc(Some(opts)) == agent_list_desc(Some(level_only_options(level))),
{
    assert(opts == level_only_options(level));
}

impl AgentAPI {
    /// Creates the facade around a client handle.
    pub(crate) fn new(client: BlackRoadClient) -> (r: Self)
        ensures
            r.client == client,
    {
        AgentAPI { client }
    }

    /// The request that lists agents under the given filters.
    pub fn list(&self, opts: Option<AgentListOptions>) -> (r: RequestDescriptor)
        ensures
            r@ == agent_list_desc(opts),
    {
        let mut query: Vec<(String, String)> = Vec::new();
        match opts {
            None => {},
            Some(o) => {
                if let Some(t) = o.agent_type {
                    query.push((String::from_str("type"), t));
                }
                if let Some(d) = o.division {
                    query.push((String::from_str("division"), d));
                }
                if let Some(l) = o.level {
                    query.push((String::from_str("level"), i64_text(l as i64)));
                }
                if let Some(s) = o.status {
                    query.push((String::from_str("status"), s));
                }
                if let Some(l) = o.limit {
                    query.push((String::from_str("limit"), i64_text(l as i64)));
                }
                if let Some(of) = o.offset {
                    query.push((String::from_str("offset"), i64_text(of as i64)));
                }
            },
        }
        let r = RequestDescriptor {
            method: Method::Get,
            path: String::from_str("/agents"),
            query,
            body: None,
            envelope: Some(String::from_str("agents")),
        };
        proof {
            assert(r@.query =~= agent_list_query(opts));
        }
        r
    }

    /// The request for one agent by id.
    pub fn get(&self, agent_id: &str) -> (r: RequestDescriptor)
        ensures
            r@ == agent_get_desc(agent_id@),
    {
        let mut path: String = String::from_str("/agents/");
        path.append(agent_id);
        let r = RequestDescriptor {
            method: Method::Get,
            path,
            query: Vec::new(),
            body: None,
            envelope: None,
        };
        proof {
            assert(r@.query =~= agent_get_desc(agent_id@).query);
        }
        r
    }

    /// The request that registers a new agent.
    pub fn register(&self, opts: RegisterAgentOptions) -> (r: RequestDescriptor)
        ensures
            r@ == agent_register_desc(opts),
    {
        let mut fields: Vec<(String, Json)> = Vec::new();
        fields.push((String::from_str("name"), Json::Str(opts.name)));
        let type_value: String = match opts.agent_type {
            Some(t) => t,
            None => String::from_str("ai"),
        };
        fields.push((String::from_str("type"), Json::Str(type_value)));
        let level_value: i64 = match opts.level {
            Some(l) => l as i64,
            None => 4,
        };
        fields.push((String::from_str("level"), Json::Int(level_value)));
        if let Some(d) = opts.division {
            fields.push((String::from_str("division"), Json::Str(d)));
        }
        if let Some(m) = opts.metadata {
            fields.push((String::from_str("metadata"), m));
        }
        proof {
            lemma_jview_fields(fields@);
        }
        let r = RequestDescriptor {
            method: Method::Post,
            path: String::from_str("/agents"),
            query: Vec::new(),
            body: Some(Json::Obj(fields)),
            envelope: None,
        };
        proof {
            assert(r@.query =~= agent_register_desc(opts).query);
            assert(jview_fields(fields@) =~= register_body(opts)->Obj_0);
        }
        r
    }

    /// The heartbeat request for an agent, with an optional load reading
    /// (a JSON number such as `Json::Num`).
    pub fn heartbeat(&self, agent_id: &str, load: Option<Json>) -> (r: RequestDescriptor)
        ensures
            r@ == agent_heartbeat_desc(agent_id@, load),
    {
        let mut path: String = String::from_str("/agents/");
        path.append(agent_id);
        path.append("/heartbeat");
        let mut fields: Vec<(String, Json)> = Vec::new();
        if let Some(l) = load {
            fields.push((String::from_str("load"), l));
        }
        proof {
            lemma_jview_fields(fields@);
        }
        let r = RequestDescriptor {
            method: Method::Post,
            path,
            query: Vec::new(),
            body: Some(Json::Obj(fields)),
            envelope: None,
        };
        proof {
            assert(r@.query =~= agent_heartbeat_desc(agent_id@, load).query);
            assert(jview_fields(fields@) =~= heartbeat_body(load)->Obj_0);
        }
        r
    }

    /// The request that updates an agent's status.
    pub fn update_status(&self, agent_id: &str, status: &str) -> (r: RequestDescriptor)
        ensures
            r@ == agent_update_status_desc(agent_id@, status@),
    {
        let mut path: String = String::from_str("/agents/");
        path.append(agent_id);
        let mut fields: Vec<(String, Json)> = Vec::new();
        fields.push((String::from_str("status"), Json::Str(String::from_str(status))));
        proof {
            lemma_jview_fields(fields@);
        }
        let r = RequestDescriptor {
            method: Method::Put,
            path,
            query: Vec::new(),
            body: Some(Json::Obj(fields)),
            envelope: None,
        };
        proof {
            assert(r@.query =~= agent_update_status_desc(agent_id@, status@).query);
            assert(jview_fields(fields@) =~= agent_update_status_desc(
                agent_id@,
                status@,
            ).body->Some_0->Obj_0);
        }
        r
    }

    /// The request that deletes an agent.
    pub fn delete(&self, agent_id: &str) -> (r: RequestDescriptor)
        ensures
            r@ == agent_delete_desc(agent_id@),
    {
        let mut path: String = String::from_str("/agents/");
        path.append(agent_id);
        let r = RequestDescriptor {
            method: Method::Delete,
            path,
            query: Vec::new(),
            body: None,
            envelope: None,
        };
        proof {
            assert(r@.query =~= agent_delete_desc(agent_id@).query);
        }
        r
    }

    /// The agent statistics request.
    pub fn stats(&self) -> (r: RequestDescriptor)
        ensures
            r@ == agent_stats_desc(),
    {
        let r = RequestDescriptor {
            method: Method::Get,
            path: String::from_str("/agents/stats"),
            query: Vec::new(),
            body: None,
            envelope: None,
        };
        proof {
            assert(r@.query =~= agent_stats_desc().query);
        }
        r
    }

    /// The request that lists the agents of one division: the general
    /// listing with only the division filter set.
    pub fn by_division(&self, division: &str) -> (r: RequestDescriptor)
        ensures
            r@ == (DescriptorView {
                query: opt_param("division"@, Some(division@)),
                ..agent_list_desc(None)
            }),
    {
        let mut o: AgentListOptions = AgentListOptions::default();
        o.division = Some(String::from_str(division));
        let r = self.list(Some(o));
        proof {
            assert(r@.query =~= opt_param("division"@, Some(division@)));
        }
        r
    }

    /// The request that lists Level 2 commander agents: behaviourally the
    /// general listing with only `level: Some(2)` set.
    pub fn commanders(&self) -> (r: RequestDescriptor)
        ensures
            r@ == agent_list_desc(Some(level_only_options(2))),
    {
        self.level_only(2)
    }

    /// The request that lists Level 3 manager agents.
    pub fn managers(&self) -> (r: RequestDescriptor)
        ensures
            r@ == agent_list_desc(Some(level_only_options(3))),
    {
        self.level_only(3)
    }

    /// The request that lists Level 4 worker agents.
    pub fn workers(&self) -> (r: RequestDescriptor)
        ensures
            r@ == agent_list_desc(Some(level_only_options(4))),
    {
        self.level_only(4)
    }

    /// The general listing with only the level filter set.
    fn level_only(&self, level: i32) -> (r: RequestDescriptor)
        ensures
            r@ == agent_list_desc(Some(level_only_options(level))),
    {
        let mut o: AgentListOptions = AgentListOptions::default();
        o.level = Some(level);
        proof {
            assert(o == level_only_options(level));
        }
        self.list(Some(o))
    }
}

} // verus!
