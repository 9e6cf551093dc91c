//! What an inbound message asks of the client: which callbacks it invokes and
//! in which order, and what goes into the queue of outbound messages.
use crate::api::ApiClientError;
use crate::opamp::spec::agent::opt_view;
use crate::opamp::spec::server::REPORT_FULL_STATE;
use crate::opamp::spec::{AgentToServer, AgentToServerView, ServerToAgent};
use vstd::prelude::*;

verus! {

/// One thing that an inbound message asks for: a callback, or a report of the
/// agent's own state.
#[derive(Clone, Copy, Debug, PartialEq, Eq, Structural)]
pub enum Step {
    /// The message holds a command.
    Command,
    /// The message holds an error of the server.
    Error,
    /// The message asks this instance for its full state.
    ReportSelf,
    /// The message asks another instance for its full state.
    HealthCheck,
    /// The message holds a configuration.
    RemoteConfig,
    /// The message offers settings for the agent's own metrics.
    OwnMetrics,
    /// The message offers settings for the agent's own traces.
    OwnTraces,
    /// The message offers settings for the agent's own logs.
    OwnLogs,
    /// The message offers packages.
    Packages,
}

/// The step, where the message asks for it.
pub open spec fn wanted(present: bool, step: Step) -> Seq<Step> {
    if present {
        seq![step]
    } else {
        Seq::empty()
    }
}

/// Whether the message asks for a full state.
pub open spec fn reports_full_state(msg: ServerToAgent) -> bool {
    msg.flags & REPORT_FULL_STATE != 0
}

/// Whether the message asks the instance `instance` for its own full state.
pub open spec fn asks_own_state(msg: ServerToAgent, instance: Seq<char>) -> bool {
    reports_full_state(msg) && msg.instance_uid@ == instance
}

/// The steps that an inbound message asks of the instance `instance`, in the
/// order in which they are taken.
pub open spec fn plan_of(msg: ServerToAgent, instance: Seq<char>) -> Seq<Step> {
    wanted(msg.command is Some, Step::Command) + wanted(msg.error_response is Some, Step::Error)
        + wanted(asks_own_state(msg, instance), Step::ReportSelf)
        + wanted(reports_full_state(msg) && msg.instance_uid@ != instance, Step::HealthCheck)
        + wanted(msg.remote_config is Some, Step::RemoteConfig) + wanted(
        msg.connection_settings matches Some(offers) && offers.own_metrics is Some,
        Step::OwnMetrics,
    ) + wanted(
        msg.connection_settings matches Some(offers) && offers.own_traces is Some,
        Step::OwnTraces,
    ) + wanted(
        msg.connection_settings matches Some(offers) && offers.own_logs is Some,
        Step::OwnLogs,
    ) + wanted(msg.packages_available is Some, Step::Packages)
}

/// The reply that an answer of a callback stands for: none where the callback
/// had nothing to send or failed.
pub open spec fn reply_of(answer: Result<Option<AgentToServer>, ApiClientError>) -> Option<
    AgentToServerView,
> {
    match answer {
        Ok(Some(m)) => Some(m@),
        _ => None,
    }
}

/// What one step puts into the queue: the agent's own state for a report of
/// it, nothing for an error of the server, and otherwise the reply of the
/// callback, if there is one.
pub open spec fn step_emitted(
    step: Step,
    reply: Option<AgentToServerView>,
    status: AgentToServerView,
) -> Seq<AgentToServerView> {
    match step {
        Step::ReportSelf => seq![status],
        Step::Error => Seq::empty(),
        _ => match reply {
            Some(m) => seq![m],
            None => Seq::empty(),
        },
    }
}

/// What the steps of a plan put into the queue, given the reply to each.
pub open spec fn emitted(
    plan: Seq<Step>,
    replies: Seq<Option<AgentToServerView>>,
    status: AgentToServerView,
) -> Seq<AgentToServerView>
    decreases plan.len(),
{
    if plan.len() == 0 {
        Seq::empty()
    } else {
        emitted(plan.drop_last(), replies.drop_last(), status) + step_emitted(
            plan.last(),
            replies.last(),
            status,
        )
    }
}

/// What a plan puts into the queue is what its first steps put there,
/// followed by what the others do.
pub proof fn lemma_emitted_split(
    plan: Seq<Step>,
    replies: Seq<Option<AgentToServerView>>,
    status: AgentToServerView,
    k: int,
)
    requires
        replies.len() == plan.len(),
        0 <= k <= plan.len(),
    ensures
        emitted(plan, replies, status) == emitted(plan.take(k), replies.take(k), status) + emitted(
            plan.skip(k),
            replies.skip(k),
            status,
        ),
    decreases plan.len(),
{
    if k == plan.len() {
        assert(plan.take(k) =~= plan);
        assert(replies.take(k) =~= replies);
        assert(emitted(plan, replies, status) =~= emitted(plan, replies, status) + Seq::empty());
    } else {
        lemma_emitted_split(plan.drop_last(), replies.drop_last(), status, k);
        assert(plan.drop_last().take(k) =~= plan.take(k));
        assert(replies.drop_last().take(k) =~= replies.take(k));
        assert(plan.skip(k).drop_last() =~= plan.drop_last().skip(k));
        assert(replies.skip(k).drop_last() =~= replies.drop_last().skip(k));
        assert(plan.skip(k).last() == plan.last());
        assert(replies.skip(k).last() == replies.last());
        assert(emitted(plan, replies, status) =~= emitted(plan.take(k), replies.take(k), status)
            + emitted(plan.skip(k), replies.skip(k), status));
    }
}

/// A message that asks the instance for its own full state has that state
/// put into the queue, whatever the callbacks reply; and it is the first that
/// the message puts there, unless a command in the message was replied to.
pub proof fn lemma_own_state_is_reported(
    msg: ServerToAgent,
    instance: Seq<char>,
    replies: Seq<Option<AgentToServerView>>,
    status: AgentToServerView,
)
    requires
        asks_own_state(msg, instance),
        replies.len() == plan_of(msg, instance).len(),
    ensures
        emitted(plan_of(msg, instance), replies, status).contains(status),
        msg.command is None || replies[0] is None ==> emitted(
            plan_of(msg, instance),
            replies,
            status,
        ).len() > 0 && emitted(plan_of(msg, instance), replies, status)[0] == status,
{
    let plan = plan_of(msg, instance);
    let before = wanted(msg.command is Some, Step::Command) + wanted(
        msg.error_response is Some,
        Step::Error,
    );
    let k = before.len() as int;
    assert(plan.take(k) =~= before);
    assert(plan[k] == Step::ReportSelf);
    lemma_emitted_split(plan, replies, status, k + 1);
    let head_plan = plan.take(k + 1);
    let head_replies = replies.take(k + 1);
    assert(head_plan.last() == Step::ReportSelf);
    let first = emitted(head_plan.drop_last(), head_replies.drop_last(), status);
    let head = emitted(head_plan, head_replies, status);
    assert(head == first + seq![status]);
    assert(head[first.len() as int] == status);
    let all = emitted(plan, replies, status);
    assert(all[first.len() as int] == status);
    if msg.command is None || replies[0] is None {
        assert(head_plan.drop_last() =~= before);
        lemma_quiet_steps(before, head_replies.drop_last(), status);
        assert(first.len() == 0);
    }
}

/// Steps that are errors of the server, or commands without a reply, put
/// nothing into the queue.
proof fn lemma_quiet_steps(
    plan: Seq<Step>,
    replies: Seq<Option<AgentToServerView>>,
    status: AgentToServerView,
)
    requires
        replies.len() == plan.len(),
        forall|i: int|
            0 <= i < plan.len() ==> plan[i] == Step::Error || (plan[i] == Step::Command
                && replies[i] is None),
    ensures
        emitted(plan, replies, status).len() == 0,
    decreases plan.len(),
{
    if plan.len() > 0 {
        lemma_quiet_steps(plan.drop_last(), replies.drop_last(), status);
    }
}

fn add_step(steps: &mut Vec<Step>, present: bool, step: Step)
    ensures
        final(steps)@ == old(steps)@ + wanted(present, step),
{
    if present {
        steps.push(step);
        assert(steps@ =~= old(steps)@ + wanted(present, step));
    } else {
        assert(steps@ =~= old(steps)@ + wanted(present, step));
    }
}

/// The steps that `msg` asks of the instance `instance`, in the order in
/// which they are taken.
pub fn plan(msg: &ServerToAgent, instance: &String) -> (steps: Vec<Step>)
    ensures
        steps@ == plan_of(*msg, instance@),
{
    let mut steps: Vec<Step> = Vec::new();
    let report = msg.flags & REPORT_FULL_STATE != 0;
    let own = msg.instance_uid == *instance;
    add_step(&mut steps, msg.command.is_some(), Step::Command);
    add_step(&mut steps, msg.error_response.is_some(), Step::Error);
    add_step(&mut steps, report && own, Step::ReportSelf);
    add_step(&mut steps, report && !own, Step::HealthCheck);
    add_step(&mut steps, msg.remote_config.is_some(), Step::RemoteConfig);
    let (metrics, traces, logs) = match &msg.connection_settings {
        Some(offers) => (
            offers.own_metrics.is_some(),
            offers.own_traces.is_some(),
            offers.own_logs.is_some(),
        ),
        None => (false, false, false),
    };
    add_step(&mut steps, metrics, Step::OwnMetrics);
    add_step(&mut steps, traces, Step::OwnTraces);
    add_step(&mut steps, logs, Step::OwnLogs);
    add_step(&mut steps, msg.packages_available.is_some(), Step::Packages);
    steps
}

/// Whether `msg` asks the instance `instance` for its own full state.
pub fn wants_own_state(msg: &ServerToAgent, instance: &String) -> (b: bool)
    ensures
        b == asks_own_state(*msg, instance@),
{
    msg.flags & REPORT_FULL_STATE != 0 && msg.instance_uid == *instance
}

/// The reply that an answer of a callback stands for: an error is dropped.
pub fn accept(answer: Result<Option<AgentToServer>, ApiClientError>) -> (reply: Option<
    AgentToServer,
>)
    ensures
        opt_view(reply) == reply_of(answer),
{
    match answer {
        Ok(Some(m)) => Some(m),
        Ok(None) => None,
        Err(_) => None,
    }
}

} // verus!
