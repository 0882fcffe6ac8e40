//! The tasks facade: one request descriptor per remote task operation.

use vstd::prelude::*;

verus! {

use vstd::string::StringExecFns;
use crate::client::BlackRoadClient;
use crate::json::Json;
use crate::json::JsonV;
use crate::json::lemma_jview_fields;
use crate::json::jview_fields;
use crate::request::DescriptorView;
use crate::request::Method;
use crate::request::RequestDescriptor;
use crate::request::opt_field;
use crate::request::opt_int_param;
use crate::request::opt_json;
use crate::request::opt_param;
use crate::request::opt_ref_str;
use crate::request::opt_str;
use crate::text::i64_text;
use crate::types::DispatchTaskOptions;
use crate::types::TaskListOptions;

/// The facade for task operations; it shares the one immutable client.
#[derive(Debug, Clone)]
pub struct TaskAPI {
    pub client: BlackRoadClient,
}

/// The dispatch body: title always, priority defaulting to `medium`, then
/// only the present optional fields.
pub open spec fn dispatch_body(opts: DispatchTaskOptions) -> JsonV {
    JsonV::Obj(
        seq![
            ("title"@, JsonV::Str(opts.title@)),
            (
                "priority"@,
                JsonV::Str(
                    match opts.priority {
                        Some(p) => p@,
                        None => "medium"@,
                    },
                ),
            ),
        ] + opt_field(
            "description"@,
            match opts.description {
                Some(d) => Some(JsonV::Str(d@)),
                None => None,
            },
        ) + opt_field(
            "division"@,
            match opts.division {
                Some(d) => Some(JsonV::Str(d@)),
                None => None,
            },
        ) + opt_field(
            "target_level"@,
            match opts.target_level {
                Some(l) => Some(JsonV::Int(l as int)),
                None => None,
            },
        ) + opt_field("metadata"@, opt_json(opts.metadata)),
    )
}

/// The task dispatch request.
pub open spec fn task_dispatch_desc(opts: DispatchTaskOptions) -> DescriptorView {
    DescriptorView {
        method: Method::Post,
        path: "/tasks"@,
        query: Seq::empty(),
        body: Some(dispatch_body(opts)),
        envelope: None,
    }
}

/// The request for one task by id.
pub open spec fn task_get_desc(task_id: Seq<char>) -> DescriptorView {
    DescriptorView {
        method: Method::Get,
        path: "/tasks/"@ + task_id,
        query: Seq::empty(),
        body: None,
        envelope: None,
    }
}

/// The query parameters of a task listing: exactly the present filters, in
/// declaration order.
pub open spec fn task_list_query(opts: Option<TaskListOptions>) -> Seq<(Seq<char>, Seq<char>)> {
    match opts {
        None => Seq::empty(),
        Some(o) => opt_param("status"@, opt_str(o.status)) + opt_param(
            "priority"@,
            opt_str(o.priority),
        ) + opt_param("division"@, opt_str(o.division)) + opt_int_param("limit"@, o.limit)
            + opt_int_param("offset"@, o.offset),
    }
}

/// The task listing request; the tasks arrive under the `tasks` key.
pub open spec fn task_list_desc(opts: Option<TaskListOptions>) -> DescriptorView {
    DescriptorView {
        method: Method::Get,
        path: "/tasks"@,
        query: task_list_query(opts),
        body: None,
        envelope: Some("tasks"@),
    }
}

/// The status-transition body shared by complete, fail and assign: the new
/// status, an optional result text, and for assignment the agent.
pub open spec fn status_body(status: Seq<char>, result: Option<Seq<char>>) -> JsonV {
    JsonV::Obj(
        seq![("status"@, JsonV::Str(status))] + opt_field(
            "result"@,
            match result {
                Some(r) => Some(JsonV::Str(r)),
                None => None,
            },
        ),
    )
}

/// The status update request for one task.
pub open spec fn task_update_desc(task_id: Seq<char>, body: JsonV) -> DescriptorView {
    DescriptorView {
        method: Method::Put,
        path: "/tasks/"@ + task_id,
        query: Seq::empty(),
        body: Some(body),
        envelope: None,
    }
}

/// The assignment body: the agent, then status `assigned`.
pub open spec fn assign_body(agent_id: Seq<char>) -> JsonV {
    JsonV::Obj(
        seq![("assigned_agent"@, JsonV::Str(agent_id)), ("status"@, JsonV::Str("assigned"@))],
    )
}

/// The cancellation request for one task.
pub open spec fn task_cancel_desc(task_id: Seq<char>) -> DescriptorView {
    DescriptorView {
        method: Method::Delete,
        path: "/tasks/"@ + task_id,
        query: Seq::empty(),
        body: None,
        envelope: None,
    }
}

/// The task statistics request.
pub open spec fn task_stats_desc() -> DescriptorView {
    DescriptorView {
        method: Method::Get,
        path: "/tasks/stats"@,
        query: Seq::empty(),
        body: None,
        envelope: None,
    }
}

/// A task listing filtered by one field only.
pub open spec fn one_filter_desc(key: Seq<char>, value: Seq<char>) -> DescriptorView {
    DescriptorView { query: opt_param(key, Some(value)), ..task_list_desc(None) }
}

/// A one-filter listing equals the general listing whose options carry
/// exactly that filter: the convenience methods add no independent logic.
pub proof fn lemma_one_filter_matches_list(opts: TaskListOptions, key: Seq<char>, value: Seq<char>)
    requires
        key == "status"@ && opt_str(opts.status) == Some(value) || key == "priority"@ && opt_str(
            opts.priority,
        ) == Some(value) || key == "division"@ && opt_str(opts.division) == Some(value),
        key == "status"@ || opts.status is None,
        key == "priority"@ || opts.priority is None,
        key == "division"@ || opts.division is None,
        opts.limit is None,
        opts.offset is None,
    ensures
        task_list_desc(Some(opts)) == one_filter_desc(key, value),
{
    reveal_strlit("status");
    reveal_strlit("priority");
    reveal_strlit("division");
    assert("status"@ != "priority"@ && "status"@ != "division"@ && "priority"@ != "division"@) by {
        assert("priority"@[0] == 'p' && "division"@[0] == 'd' && "status"@[0] == 's');
    }
    assert(task_list_query(Some(opts)) =~= opt_param(key, Some(value)));
}

/// A dispatch whose optional fields are all absent serialises to a body
/// holding exactly the title and the defaulted `medium` priority: no key
/// appears for an absent field.
pub proof fn lemma_dispatch_body_minimal(opts: DispatchTaskOptions)
    requires
        opts.description is None,
        opts.priority is None,
        opts.division is None,
        opts.target_level is None,
        opts.metadata is None,
    ensures
        dispatch_body(opts) == JsonV::Obj(
            seq![
                ("title"@, JsonV::Str(opts.title@)),
                ("priority"@, JsonV::Str("medium"@)),
            ],
        ),
{
    assert(dispatch_body(opts)->Obj_0 =~= seq![
        ("title"@, JsonV::Str(opts.title@)),
        ("priority"@, JsonV::Str("medium"@)),
    ]);
}

impl TaskAPI {
    /// Creates the facade around a client handle.
    pub(crate) fn new(client: BlackRoadClient) -> (r: Self)
        ensures
            r.client == client,
    {
        TaskAPI { client }
    }

    /// The request that dispatches a new task.
    pub fn dispatch(&self, opts: DispatchTaskOptions) -> (r: RequestDescriptor)
        ensures
            r@ == task_dispatch_desc(opts),
    {
        let mut fields: Vec<(String, Json)> = Vec::new();
        fields.push((String::from_str("title"), Json::Str(opts.title)));
        let priority_value: String = match opts.priority {
            Some(p) => p,
            None => String::from_str("medium"),
        };
        fields.push((String::from_str("priority"), Json::Str(priority_value)));
        if let Some(d) = opts.description {
            fields.push((String::from_str("description"), Json::Str(d)));
        }
        if let Some(d) = opts.division {
            fields.push((String::from_str("division"), Json::Str(d)));
        }
        if let Some(l) = opts.target_level {
            fields.push((String::from_str("target_level"), Json::Int(l as i64)));
        }
        if let Some(m) = opts.metadata {
            fields.push((String::from_str("metadata"), m));
        }
        proof {
            lemma_jview_fields(fields@);
        }
        let r = RequestDescriptor {
            method: Method::Post,
            path: String::from_str("/tasks"),
            query: Vec::new(),
            body: Some(Json::Obj(fields)),
            envelope: None,
        };
        proof {
            assert(r@.query =~= task_dispatch_desc(opts).query);
            assert(jview_fields(fields@) =~= dispatch_body(opts)->Obj_0);
        }
        r
    }

    /// The request for one task by id.
    pub fn get(&self, task_id: &str) -> (r: RequestDescriptor)
        ensures
            r@ == task_get_desc(task_id@),
    {
        let mut path: String = String::from_str("/tasks/");
        path.append(task_id);
        let r = RequestDescriptor {
            method: Method::Get,
            path,
            query: Vec::new(),
            body: None,
            envelope: None,
        };
        proof {
            assert(r@.query =~= task_get_desc(task_id@).query);
        }
        r
    }

    /// The request that lists tasks under the given filters.
    pub fn list(&self, opts: Option<TaskListOptions>) -> (r: RequestDescriptor)
        ensures
            r@ == task_list_desc(opts),
    {
        let mut query: Vec<(String, String)> = Vec::new();
        match opts {
            None => {},
            Some(o) => {
                if let Some(s) = o.status {
                    query.push((String::from_str("status"), s));
                }
                if let Some(p) = o.priority {
                    query.push((String::from_str("priority"), p));
                }
                if let Some(d) = o.division {
                    query.push((String::from_str("division"), d));
                }
                if let Some(l) = o.limit {
                    query.push((String::from_str("limit"), i64_text(l as i64)));
                }
                if let Some(of) = o.offset {
                    query.push((String::from_str("offset"), i64_text(of as i64)));
                }
            },
        }
        let r = RequestDescriptor {
            method: Method::Get,
            path: String::from_str("/tasks"),
            query,
            body: None,
            envelope: Some(String::from_str("tasks")),
        };
        proof {
            assert(r@.query =~= task_list_query(opts));
        }
        r
    }

    /// The request that completes a task, with an optional result text.
    pub fn complete(&self, task_id: &str, result: Option<&str>) -> (r: RequestDescriptor)
        ensures
            r@ == task_update_desc(task_id@, status_body("completed"@, opt_ref_str(result))),
    {
        self.update_status_with_result(task_id, "completed", result)
    }

    /// The request that fails a task, with an optional reason text.
    pub fn fail(&self, task_id: &str, reason: Option<&str>) -> (r: RequestDescriptor)
        ensures
            r@ == task_update_desc(task_id@, status_body("failed"@, opt_ref_str(reason))),
    {
        self.update_status_with_result(task_id, "failed", reason)
    }

    /// The shared status-transition request.
    fn update_status_with_result(&self, task_id: &str, status: &str, result: Option<&str>) -> (r:
        RequestDescriptor)
        ensures
            r@ == task_update_desc(task_id@, status_body(status@, opt_ref_str(result))),
    {
        let mut path: String = String::from_str("/tasks/");
        path.append(task_id);
        let mut fields: Vec<(String, Json)> = Vec::new();
        fields.push((String::from_str("status"), Json::Str(String::from_str(status))));
        if let Some(text) = result {
            fields.push((String::from_str("result"), Json::Str(String::from_str(text))));
        }
        proof {
            lemma_jview_fields(fields@);
        }
        let r = RequestDescriptor {
            method: Method::Put,
            path,
            query: Vec::new(),
            body: Some(Json::Obj(fields)),
            envelope: None,
        };
        proof {
            assert(r@.query =~= Seq::<(Seq<char>, Seq<char>)>::empty());
            assert(jview_fields(fields@) =~= status_body(status@, opt_ref_str(result))->Obj_0);
        }
        r
    }

    /// The request that assigns a task to an agent.
    pub fn assign(&self, task_id: &str, agent_id: &str) -> (r: RequestDescriptor)
        ensures
            r@ == task_update_desc(task_id@, assign_body(agent_id@)),
    {
        let mut path: String = String::from_str("/tasks/");
        path.append(task_id);
        let mut fields: Vec<(String, Json)> = Vec::new();
        fields.push((String::from_str("assigned_agent"), Json::Str(String::from_str(agent_id))));
        fields.push((String::from_str("status"), Json::Str(String::from_str("assigned"))));
        proof {
            lemma_jview_fields(fields@);
        }
        let r = RequestDescriptor {
            method: Method::Put,
            path,
            query: Vec::new(),
            body: Some(Json::Obj(fields)),
            envelope: None,
        };
        proof {
            assert(r@.query =~= Seq::<(Seq<char>, Seq<char>)>::empty());
            assert(jview_fields(fields@) =~= assign_body(agent_id@)->Obj_0);
        }
        r
    }

    /// The request that cancels a task.
    pub fn cancel(&self, task_id: &str) -> (r: RequestDescriptor)
        ensures
            r@ == task_cancel_desc(task_id@),
    {
        let mut path: String = String::from_str("/tasks/");
        path.append(task_id);
        let r = RequestDescriptor {
            method: Method::Delete,
            path,
            query: Vec::new(),
            body: None,
            envelope: None,
        };
        proof {
            assert(r@.query =~= task_cancel_desc(task_id@).query);
        }
        r
    }

    /// The task statistics request.
    pub fn stats(&self) -> (r: RequestDescriptor)
        ensures
            r@ == task_stats_desc(),
    {
        let r = RequestDescriptor {
            method: Method::Get,
            path: String::from_str("/tasks/stats"),
            query: Vec::new(),
            body: None,
            envelope: None,
        };
        proof {
            assert(r@.query =~= task_stats_desc().query);
        }
        r
    }

    /// The request that lists pending tasks: the general listing with only
    /// the status filter set to `pending`.
    pub fn pending(&self) -> (r: RequestDescriptor)
        ensures
            r@ == one_filter_desc("status"@, "pending"@),
    {
        self.status_only("pending")
    }

    /// The request that lists in-progress tasks.
    pub fn in_progress(&self) -> (r: RequestDescriptor)
        ensures
            r@ == one_filter_desc("status"@, "in_progress"@),
    {
        self.status_only("in_progress")
    }

    /// The request that lists the tasks of one division.
    pub fn by_division(&self, division: &str) -> (r: RequestDescriptor)
        ensures
            r@ == one_filter_desc("division"@, division@),
    {
        let mut o: TaskListOptions = TaskListOptions::default();
        o.division = Some(String::from_str(division));
        let r = self.list(Some(o));
        proof {
            lemma_one_filter_matches_list(o, "division"@, division@);
        }
        r
    }

    /// The request that lists urgent tasks: the general listing with only
    /// the priority filter set to `urgent`.
    pub fn urgent(&self) -> (r: RequestDescriptor)
        ensures
            r@ == one_filter_desc("priority"@, "urgent"@),
    {
        let mut o: TaskListOptions = TaskListOptions::default();
        o.priority = Some(String::from_str("urgent"));
        let r = self.list(Some(o));
        proof {
            lemma_one_filter_matches_list(o, "priority"@, "urgent"@);
        }
        r
    }

    /// The general listing with only the status filter set.
    fn status_only(&self, status: &str) -> (r: RequestDescriptor)
        ensures
            r@ == one_filter_desc("status"@, status@),
    {
        let mut o: TaskListOptions = TaskListOptions::default();
        o.status = Some(String::from_str(status));
        let r = self.list(Some(o));
        proof {
            lemma_one_filter_matches_list(o, "status"@, status@);
        }
        r
    }
}

} // verus!
