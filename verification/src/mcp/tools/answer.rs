//! Turning the outcome of a tool's gateway call into the tool's result.

use vstd::prelude::*;
use crate::gateway::error::GatewayError;
use crate::gateway::models::{
    created_json, health_json, session_created_json, session_info_json, target_json, task_action_json,
    task_json, version_json, HealthStatus, ResourceCreated, SessionCreated, SessionInfo, Target,
    TargetList, Task, TaskAction, TaskList, VersionInfo,
};
use crate::json::{str_views, summarize_list, summarize_spec, JsonValue};
use crate::mcp::error::{describe_spec, gateway_tool_error};
use super::common::{acknowledge, acknowledge_json, owned_views, OutputSpec, Reply, ToolCall, ToolOutput};
use super::reports::{artifact_output, artifact_output_spec};
use super::targets::{target_list_json, target_list_output};
use super::tasks::{task_list_json, task_list_output};

verus! {

/// A successful gateway answer, decoded as the call's reply expects.
pub enum Answer {
    /// Any JSON (pass-through and summarized lists).
    Json(JsonValue),
    /// A success whose body carries nothing.
    Empty,
    /// A target list.
    Targets(TargetList),
    /// A task list.
    Tasks(TaskList),
    /// One target.
    Target(Target),
    /// One task.
    Task(Task),
    /// A creation envelope.
    Created(ResourceCreated),
    /// A start/resume answer.
    Action(TaskAction),
    /// The version answer.
    Version(VersionInfo),
    /// The liveness answer.
    Health(HealthStatus),
    /// A session creation answer.
    Session(SessionCreated),
    /// A session description.
    SessionInfo(SessionInfo),
    /// A downloaded artifact: bytes, `Content-Type` and file name.
    Artifact { bytes: Vec<u8>, content_type: Option<String>, filename: Option<String> },
}

/// The answer is of the kind the reply expects.
pub open spec fn answer_fits(reply: Reply, answer: Answer) -> bool {
    match reply {
        Reply::Passthrough => answer is Json,
        Reply::Summarize { .. } => answer is Json,
        Reply::Acknowledge { .. } => answer is Empty,
        Reply::TargetRows => answer is Targets,
        Reply::TaskRows => answer is Tasks,
        Reply::Decoded(shape) => match shape {
            super::common::Shape::Target => answer is Target,
            super::common::Shape::Task => answer is Task,
            super::common::Shape::Created => answer is Created,
            super::common::Shape::TaskAction => answer is Action,
            super::common::Shape::Version => answer is Version,
            super::common::Shape::Health => answer is Health,
            super::common::Shape::Session => answer is Session,
            super::common::Shape::SessionInfo => answer is SessionInfo,
        },
        Reply::Artifact => answer is Artifact,
    }
}

/// Whether `answer` is of the kind `reply` expects.
pub fn fits(reply: &Reply, answer: &Answer) -> (r: bool)
    ensures
        r == answer_fits(*reply, *answer),
{
    match reply {
        Reply::Passthrough | Reply::Summarize { .. } => matches!(answer, Answer::Json(_)),
        Reply::Acknowledge { .. } => matches!(answer, Answer::Empty),
        Reply::TargetRows => matches!(answer, Answer::Targets(_)),
        Reply::TaskRows => matches!(answer, Answer::Tasks(_)),
        Reply::Decoded(shape) => match shape {
            super::common::Shape::Target => matches!(answer, Answer::Target(_)),
            super::common::Shape::Task => matches!(answer, Answer::Task(_)),
            super::common::Shape::Created => matches!(answer, Answer::Created(_)),
            super::common::Shape::TaskAction => matches!(answer, Answer::Action(_)),
            super::common::Shape::Version => matches!(answer, Answer::Version(_)),
            super::common::Shape::Health => matches!(answer, Answer::Health(_)),
            super::common::Shape::Session => matches!(answer, Answer::Session(_)),
            super::common::Shape::SessionInfo => matches!(answer, Answer::SessionInfo(_)),
        },
        Reply::Artifact => matches!(answer, Answer::Artifact { .. }),
    }
}

/// The tool result for a successful answer.
pub open spec fn render_spec(reply: Reply, answer: Answer) -> OutputSpec {
    match (reply, answer) {
        (Reply::Summarize { out_key, keys }, Answer::Json(v)) => OutputSpec::Json(
            summarize_spec(v.model(), out_key@, owned_views(keys@)),
        ),
        (Reply::Acknowledge { flag, id }, _) => OutputSpec::Json(acknowledge_json(flag@, id@)),
        (_, Answer::Json(v)) => OutputSpec::Json(v.model()),
        (_, Answer::Targets(l)) => OutputSpec::Json(target_list_json(l)),
        (_, Answer::Tasks(l)) => OutputSpec::Json(task_list_json(l)),
        (_, Answer::Target(t)) => OutputSpec::Json(target_json(t)),
        (_, Answer::Task(t)) => OutputSpec::Json(task_json(t)),
        (_, Answer::Created(c)) => OutputSpec::Json(created_json(c)),
        (_, Answer::Action(a)) => OutputSpec::Json(task_action_json(a)),
        (_, Answer::Version(v)) => OutputSpec::Json(version_json(v)),
        (_, Answer::Health(h)) => OutputSpec::Json(health_json(h)),
        (_, Answer::Session(c)) => OutputSpec::Json(session_created_json(c)),
        (_, Answer::SessionInfo(i)) => OutputSpec::Json(session_info_json(i)),
        (_, Answer::Artifact { bytes, content_type, filename }) => artifact_output_spec(
            bytes@,
            content_type,
            filename,
        ),
        (_, Answer::Empty) => OutputSpec::Json(crate::json::Json::Null),
    }
}

fn key_slices(keys: &Vec<String>) -> (r: Vec<&str>)
    ensures
        str_views(r@) == owned_views(keys@),
{
    let mut r: Vec<&str> = Vec::new();
    let mut i: usize = 0;
    while i < keys.len()
        invariant
            i <= keys@.len(),
            str_views(r@) == owned_views(keys@).take(i as int),
        decreases keys@.len() - i,
    {
        let ghost before = r@;
        r.push(keys[i].as_str());
        assert(str_views(r@) =~= str_views(before).push(keys@[i as int]@));
        assert(owned_views(keys@).take(i + 1) =~= owned_views(keys@).take(i as int).push(keys@[i as int]@));
        i = i + 1;
    }
    assert(owned_views(keys@).take(keys@.len() as int) =~= owned_views(keys@));
    r
}

/// The tool result of a call: the answer rendered as the call's reply says,
/// or, when the call failed, a tool error naming the call's stage.
pub fn finish_call(call: &ToolCall, outcome: Result<Answer, GatewayError>) -> (r: ToolOutput)
    requires
        outcome matches Ok(answer) ==> answer_fits(call.reply, answer),
    ensures
        r.model() == match outcome {
            Ok(answer) => render_spec(call.reply, answer),
            Err(err) => OutputSpec::Error(describe_spec(call.stage@, err)),
        },
{
    match outcome {
        Err(err) => gateway_tool_error(call.stage.as_str(), &err),
        Ok(answer) => match &call.reply {
            Reply::Summarize { out_key, keys } => match answer {
                Answer::Json(v) => {
                    let ks = key_slices(keys);
                    ToolOutput::Json(summarize_list(&v, out_key.as_str(), ks.as_slice()))
                },
                _ => {
                    assert(false);
                    ToolOutput::Json(JsonValue::Null)
                },
            },
            Reply::Acknowledge { flag, id } => ToolOutput::Json(acknowledge(flag.as_str(), id.as_str())),
            _ => match answer {
                Answer::Json(v) => ToolOutput::Json(v),
                Answer::Targets(l) => ToolOutput::Json(target_list_output(l)),
                Answer::Tasks(l) => ToolOutput::Json(task_list_output(l)),
                Answer::Target(t) => ToolOutput::Json(t.to_json()),
                Answer::Task(t) => ToolOutput::Json(t.to_json()),
                Answer::Created(c) => ToolOutput::Json(c.to_json()),
                Answer::Action(a) => ToolOutput::Json(a.to_json()),
                Answer::Version(v) => ToolOutput::Json(v.to_json()),
                Answer::Health(h) => ToolOutput::Json(h.to_json()),
                Answer::Session(c) => ToolOutput::Json(c.to_json()),
                Answer::SessionInfo(i) => ToolOutput::Json(i.to_json()),
                Answer::Artifact { bytes, content_type, filename } => artifact_output(bytes, content_type, filename),
                Answer::Empty => {
                    assert(false);
                    ToolOutput::Json(JsonValue::Null)
                },
            },
        },
    }
}

} // verus!
