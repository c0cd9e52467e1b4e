//! The request pipeline as an explicit machine: gate, then forwarding, then
//! the observer on the way back.
//!
//! The machine decides; its caller does the work. For each request the caller
//! starts in `PipelineState::Accepted`, feeds `PipelineEvent::Start`, carries
//! out the action that comes back, and reports what the forwarding engine
//! answered as a second event.

use vstd::prelude::*;
use crate::addr::IpAddr;
use crate::config::Config;
use crate::gate::{FORBIDDEN, GateDecision, check_ip_whitelist, gate_decision};
use crate::observer::{
    LogRecord, RecordView, RequestContext, RequestView, is_logged, log_traffic,
    record_for, record_view,
};

verus! {

/// What the forwarding engine hands back for one request. It always answers:
/// where the upstream cannot be reached, times out or drops, the answer is an
/// error response of the engine's own.
#[derive(Clone, Copy, Debug, PartialEq, Eq, Structural)]
pub enum ForwardResult {
    /// The upstream's response, with its status.
    Relayed { status: u16 },
    /// The engine's own response to a failed attempt.
    GatewayError { status: u16 },
}

/// The response that the client is sent. Each request has exactly one.
#[derive(Clone, Copy, Debug, PartialEq, Eq, Structural)]
pub enum PipelineOutcome {
    /// Refused by access control: status `FORBIDDEN`, no body.
    GateRejection,
    /// The upstream's response, passed on as it came.
    Relayed { status: u16 },
    /// The gateway's own error response.
    GatewayError { status: u16 },
}

/// How far a request has come.
#[derive(Clone, Copy, Debug, PartialEq, Eq, Structural)]
pub enum PipelineState {
    /// The connection is accepted and nothing is decided.
    Accepted,
    /// Access control has passed the request and the engine has it.
    Forwarding,
    /// The response is determined.
    Finished,
}

/// What the caller reports to the machine.
#[derive(Clone, Copy, Debug, PartialEq, Eq, Structural)]
pub enum PipelineEvent {
    /// The request has arrived.
    Start,
    /// The forwarding engine has answered.
    Upstream(ForwardResult),
}

/// What the caller is to do next.
#[derive(Clone, Debug, PartialEq, Eq)]
pub enum PipelineAction {
    /// Hand the request, unchanged, to the forwarding engine.
    Forward,
    /// Send `outcome` to the client. Before that, log a warning that names
    /// `warning` and emit `record`, where they are present.
    Respond { outcome: PipelineOutcome, warning: Option<IpAddr>, record: Option<LogRecord> },
    /// The event does not belong to the state: do nothing.
    Ignore,
}

/// An action as contracts see it.
pub enum ActionView {
    Forward,
    Respond { outcome: PipelineOutcome, warning: Option<IpAddr>, record: Option<RecordView> },
    Ignore,
}

impl View for PipelineAction {
    type V = ActionView;

    open spec fn view(&self) -> ActionView {
        match *self {
            PipelineAction::Forward => ActionView::Forward,
            PipelineAction::Respond { outcome, warning, record } => ActionView::Respond {
                outcome,
                warning,
                record: record_view(record),
            },
            PipelineAction::Ignore => ActionView::Ignore,
        }
    }
}

impl ForwardResult {
    pub open spec fn spec_status(&self) -> u16 {
        match *self {
            ForwardResult::Relayed { status } => status,
            ForwardResult::GatewayError { status } => status,
        }
    }

    /// The status of the engine's response.
    #[verifier::when_used_as_spec(spec_status)]
    pub fn status(&self) -> (status: u16)
        ensures
            status == self.spec_status(),
    {
        match *self {
            ForwardResult::Relayed { status } => status,
            ForwardResult::GatewayError { status } => status,
        }
    }

    pub open spec fn spec_outcome(&self) -> PipelineOutcome {
        match *self {
            ForwardResult::Relayed { status } => PipelineOutcome::Relayed { status },
            ForwardResult::GatewayError { status } => PipelineOutcome::GatewayError { status },
        }
    }

    /// The outcome that sends this response on, of the same kind and status.
    #[verifier::when_used_as_spec(spec_outcome)]
    pub fn outcome(&self) -> (outcome: PipelineOutcome)
        ensures
            outcome == self.spec_outcome(),
    {
        match *self {
            ForwardResult::Relayed { status } => PipelineOutcome::Relayed { status },
            ForwardResult::GatewayError { status } => PipelineOutcome::GatewayError { status },
        }
    }
}

impl PipelineOutcome {
    pub open spec fn spec_status(&self) -> u16 {
        match *self {
            PipelineOutcome::GateRejection => FORBIDDEN,
            PipelineOutcome::Relayed { status } => status,
            PipelineOutcome::GatewayError { status } => status,
        }
    }

    /// The status that the client sees.
    #[verifier::when_used_as_spec(spec_status)]
    pub fn status(&self) -> (status: u16)
        ensures
            status == self.spec_status(),
    {
        match *self {
            PipelineOutcome::GateRejection => FORBIDDEN,
            PipelineOutcome::Relayed { status } => status,
            PipelineOutcome::GatewayError { status } => status,
        }
    }

    /// The body that the gateway writes itself: the empty one of a rejection.
    /// `None` where the body is the forwarding engine's to stream.
    pub open spec fn spec_own_body(&self) -> Option<Seq<u8>> {
        match *self {
            PipelineOutcome::GateRejection => Some(Seq::empty()),
            _ => None,
        }
    }

    pub fn own_body(&self) -> (body: Option<Vec<u8>>)
        ensures
            body is Some <==> self.spec_own_body() is Some,
            body matches Some(bytes) ==> self.spec_own_body() == Some(bytes@),
    {
        match *self {
            PipelineOutcome::GateRejection => Some(Vec::new()),
            _ => None,
        }
    }
}

/// The machine's one rule.
///
/// From `Accepted`, `Start` consults the allow-list: a listed peer is forwarded, any
/// other is refused and the request is finished. From `Forwarding`, the
/// engine's answer is sent on with what the observer records of it. Every
/// other pair of state and event changes nothing.
pub open spec fn next(
    whitelist: Seq<IpAddr>,
    request: RequestView,
    state: PipelineState,
    event: PipelineEvent,
) -> (PipelineState, ActionView) {
    match (state, event) {
        (PipelineState::Accepted, PipelineEvent::Start) => match gate_decision(
            whitelist,
            request.peer_address.ip,
        ) {
            GateDecision::Pass => (PipelineState::Forwarding, ActionView::Forward),
            GateDecision::Reject { peer } => (
                PipelineState::Finished,
                ActionView::Respond {
                    outcome: PipelineOutcome::GateRejection,
                    warning: Some(peer),
                    record: None,
                },
            ),
        },
        (PipelineState::Forwarding, PipelineEvent::Upstream(result)) => (
            PipelineState::Finished,
            ActionView::Respond {
                outcome: result.spec_outcome(),
                warning: None,
                record: record_for(request, result.spec_status()),
            },
        ),
        _ => (state, ActionView::Ignore),
    }
}

/// Takes one step of the pipeline for the request `ctx`.
pub fn step(config: &Config, ctx: &RequestContext, state: PipelineState, event: PipelineEvent) -> (result: (
    PipelineState,
    PipelineAction,
))
    ensures
        (result.0, result.1@) == next(config.server.whitelist@, ctx@, state, event),
{
    match state {
        PipelineState::Accepted => match event {
            PipelineEvent::Start => match check_ip_whitelist(config, ctx.peer_address) {
                GateDecision::Pass => (PipelineState::Forwarding, PipelineAction::Forward),
                GateDecision::Reject { peer } => (
                    PipelineState::Finished,
                    PipelineAction::Respond {
                        outcome: PipelineOutcome::GateRejection,
                        warning: Some(peer),
                        record: None,
                    },
                ),
            },
            PipelineEvent::Upstream(_) => (state, PipelineAction::Ignore),
        },
        PipelineState::Forwarding => match event {
            PipelineEvent::Upstream(result) => {
                let record = log_traffic(ctx, result.status());
                (
                    PipelineState::Finished,
                    PipelineAction::Respond { outcome: result.outcome(), warning: None, record },
                )
            },
            PipelineEvent::Start => (state, PipelineAction::Ignore),
        },
        PipelineState::Finished => (state, PipelineAction::Ignore),
    }
}

/// The actions that the machine gives, in order, when it is fed `events` one
/// after another from `state`.
pub open spec fn trace(
    whitelist: Seq<IpAddr>,
    request: RequestView,
    state: PipelineState,
    events: Seq<PipelineEvent>,
) -> Seq<ActionView>
    decreases events.len(),
{
    if events.len() == 0 {
        Seq::empty()
    } else {
        let (after, action) = next(whitelist, request, state, events[0]);
        seq![action] + trace(whitelist, request, after, events.drop_first())
    }
}

/// The trace has one action for each event.
pub proof fn trace_len(
    whitelist: Seq<IpAddr>,
    request: RequestView,
    state: PipelineState,
    events: Seq<PipelineEvent>,
)
    ensures
        trace(whitelist, request, state, events).len() == events.len(),
    decreases events.len(),
{
    if events.len() > 0 {
        let (after, _) = next(whitelist, request, state, events[0]);
        trace_len(whitelist, request, after, events.drop_first());
    }
}

/// Once a request is finished, no event has any effect.
pub proof fn finished_is_final(
    whitelist: Seq<IpAddr>,
    request: RequestView,
    events: Seq<PipelineEvent>,
    i: int,
)
    requires
        0 <= i < events.len(),
    ensures
        trace(whitelist, request, PipelineState::Finished, events).len() == events.len(),
        trace(whitelist, request, PipelineState::Finished, events)[i] is Ignore,
    decreases events.len(),
{
    trace_len(whitelist, request, PipelineState::Finished, events);
    if i > 0 {
        finished_is_final(whitelist, request, events.drop_first(), i - 1);
    }
}

/// While the engine has the request, the machine never forwards it a second
/// time, and it answers at most once.
proof fn forwarding_answers_once(
    whitelist: Seq<IpAddr>,
    request: RequestView,
    events: Seq<PipelineEvent>,
    i: int,
    j: int,
)
    requires
        0 <= i < j < events.len(),
    ensures
        trace(whitelist, request, PipelineState::Forwarding, events).len() == events.len(),
        trace(whitelist, request, PipelineState::Forwarding, events)[i] !is Forward,
        trace(whitelist, request, PipelineState::Forwarding, events)[j] !is Forward,
        !(trace(whitelist, request, PipelineState::Forwarding, events)[i] is Respond && trace(
            whitelist,
            request,
            PipelineState::Forwarding,
            events,
        )[j] is Respond),
    decreases events.len(),
{
    trace_len(whitelist, request, PipelineState::Forwarding, events);
    let (after, _) = next(whitelist, request, PipelineState::Forwarding, events[0]);
    let rest = events.drop_first();
    trace_len(whitelist, request, after, rest);
    if after == PipelineState::Finished {
        finished_is_final(whitelist, request, rest, j - 1);
        if i > 0 {
            finished_is_final(whitelist, request, rest, i - 1);
        }
    } else {
        if i > 0 {
            forwarding_answers_once(whitelist, request, rest, i - 1, j - 1);
        } else if j > 1 {
            forwarding_answers_once(whitelist, request, rest, 0, j - 1);
        } else {
            forwarding_never_forwards(whitelist, request, rest, 0);
        }
    }
}

/// While the engine has the request, the machine never forwards it again.
proof fn forwarding_never_forwards(
    whitelist: Seq<IpAddr>,
    request: RequestView,
    events: Seq<PipelineEvent>,
    i: int,
)
    requires
        0 <= i < events.len(),
    ensures
        trace(whitelist, request, PipelineState::Forwarding, events).len() == events.len(),
        trace(whitelist, request, PipelineState::Forwarding, events)[i] !is Forward,
        trace(whitelist, request, PipelineState::Forwarding, events)[i] matches ActionView::Respond {
            outcome,
            ..
        } ==> outcome !is GateRejection,
    decreases events.len(),
{
    trace_len(whitelist, request, PipelineState::Forwarding, events);
    let (after, _) = next(whitelist, request, PipelineState::Forwarding, events[0]);
    let rest = events.drop_first();
    trace_len(whitelist, request, after, rest);
    if i > 0 {
        if after == PipelineState::Finished {
            finished_is_final(whitelist, request, rest, i - 1);
        } else {
            forwarding_never_forwards(whitelist, request, rest, i - 1);
        }
    }
}

/// Being on the allow-list is necessary and sufficient for passage: the machine
/// hands a newly arrived request to the forwarding engine exactly when its peer
/// is listed, whatever the request's method, target and path.
pub proof fn listed_peer_is_forwarded(whitelist: Seq<IpAddr>, request: RequestView)
    ensures
        whitelist.contains(request.peer_address.ip) <==> next(
            whitelist,
            request,
            PipelineState::Accepted,
            PipelineEvent::Start,
        ) == (PipelineState::Forwarding, ActionView::Forward),
{
}

/// A peer that is not on the allow-list is answered `403` with an empty body
/// and a warning that names it, the observer writes nothing, and the request is
/// finished at once.
pub proof fn unlisted_peer_is_refused(whitelist: Seq<IpAddr>, request: RequestView)
    requires
        !whitelist.contains(request.peer_address.ip),
    ensures
        next(whitelist, request, PipelineState::Accepted, PipelineEvent::Start) == (
            PipelineState::Finished,
            ActionView::Respond {
                outcome: PipelineOutcome::GateRejection,
                warning: Some(request.peer_address.ip),
                record: None,
            },
        ),
        PipelineOutcome::GateRejection.spec_status() == 403,
        PipelineOutcome::GateRejection.spec_own_body() == Some(Seq::<u8>::empty()),
{
}

/// The forwarding engine is never invoked for a peer that is not on the
/// allow-list: whatever events follow, in whatever order, no action of the
/// machine is `Forward`, and no response is anything but the rejection.
pub proof fn unlisted_peer_is_never_forwarded(
    whitelist: Seq<IpAddr>,
    request: RequestView,
    events: Seq<PipelineEvent>,
    i: int,
)
    requires
        !whitelist.contains(request.peer_address.ip),
        0 <= i < events.len(),
    ensures
        trace(whitelist, request, PipelineState::Accepted, events).len() == events.len(),
        trace(whitelist, request, PipelineState::Accepted, events)[i] !is Forward,
        trace(whitelist, request, PipelineState::Accepted, events)[i] matches ActionView::Respond {
            outcome,
            ..
        } ==> outcome is GateRejection,
    decreases events.len(),
{
    trace_len(whitelist, request, PipelineState::Accepted, events);
    let (after, _) = next(whitelist, request, PipelineState::Accepted, events[0]);
    let rest = events.drop_first();
    trace_len(whitelist, request, after, rest);
    if i > 0 {
        if after == PipelineState::Finished {
            finished_is_final(whitelist, request, rest, i - 1);
        } else {
            unlisted_peer_is_never_forwarded(whitelist, request, rest, i - 1);
        }
    }
}

/// Each request gets at most one response, and is forwarded at most once:
/// whatever events are fed from the start, no two actions of the machine are
/// both responses, and no two are both `Forward`.
pub proof fn one_response_per_request(
    whitelist: Seq<IpAddr>,
    request: RequestView,
    events: Seq<PipelineEvent>,
    i: int,
    j: int,
)
    requires
        0 <= i < j < events.len(),
    ensures
        trace(whitelist, request, PipelineState::Accepted, events).len() == events.len(),
        !(trace(whitelist, request, PipelineState::Accepted, events)[i] is Respond && trace(
            whitelist,
            request,
            PipelineState::Accepted,
            events,
        )[j] is Respond),
        !(trace(whitelist, request, PipelineState::Accepted, events)[i] is Forward && trace(
            whitelist,
            request,
            PipelineState::Accepted,
            events,
        )[j] is Forward),
    decreases events.len(),
{
    trace_len(whitelist, request, PipelineState::Accepted, events);
    let (after, _) = next(whitelist, request, PipelineState::Accepted, events[0]);
    let rest = events.drop_first();
    trace_len(whitelist, request, after, rest);
    match after {
        PipelineState::Finished => {
            finished_is_final(whitelist, request, rest, j - 1);
        },
        PipelineState::Forwarding => {
            if i > 0 {
                forwarding_answers_once(whitelist, request, rest, i - 1, j - 1);
            } else {
                forwarding_never_forwards(whitelist, request, rest, j - 1);
            }
        },
        PipelineState::Accepted => {
            if i > 0 {
                one_response_per_request(whitelist, request, rest, i - 1, j - 1);
            }
        },
    }
}

/// Access control always comes before the forwarding engine: a response that is not
/// the rejection is only ever given for a listed peer, and only after the
/// machine has given `Forward` for that request.
pub proof fn gate_precedes_forwarding(
    whitelist: Seq<IpAddr>,
    request: RequestView,
    events: Seq<PipelineEvent>,
    j: int,
) -> (i: int)
    requires
        0 <= j < events.len(),
        trace(whitelist, request, PipelineState::Accepted, events)[j] matches ActionView::Respond {
            outcome,
            ..
        } && outcome !is GateRejection,
    ensures
        whitelist.contains(request.peer_address.ip),
        0 <= i < j,
        trace(whitelist, request, PipelineState::Accepted, events)[i] is Forward,
    decreases events.len(),
{
    trace_len(whitelist, request, PipelineState::Accepted, events);
    let (after, _) = next(whitelist, request, PipelineState::Accepted, events[0]);
    let rest = events.drop_first();
    trace_len(whitelist, request, after, rest);
    match after {
        PipelineState::Finished => {
            if j > 0 {
                finished_is_final(whitelist, request, rest, j - 1);
            }
            0
        },
        PipelineState::Forwarding => 0,
        PipelineState::Accepted => {
            let i = gate_precedes_forwarding(whitelist, request, rest, j - 1);
            i + 1
        },
    }
}

/// The observer changes nothing and records the true outcome: the response to
/// a forwarded request has the kind and the status that the engine reported,
/// gateway errors included, and the log gets exactly one record with that
/// status, or none where the request is for a static asset.
pub proof fn record_reflects_final_status(
    whitelist: Seq<IpAddr>,
    request: RequestView,
    result: ForwardResult,
)
    ensures
        next(whitelist, request, PipelineState::Forwarding, PipelineEvent::Upstream(result)).0
            == PipelineState::Finished,
        next(
            whitelist,
            request,
            PipelineState::Forwarding,
            PipelineEvent::Upstream(result),
        ).1 matches ActionView::Respond { outcome, warning, record } && {
            &&& outcome == result.spec_outcome()
            &&& outcome.spec_status() == result.spec_status()
            &&& (outcome is GatewayError <==> result is GatewayError)
            &&& outcome.spec_own_body() is None
            &&& warning is None
            &&& record is None <==> !is_logged(request.uri)
            &&& record matches Some(r) ==> {
                &&& r.status == outcome.spec_status()
                &&& r.method == request.method
                &&& r.uri == request.uri
                &&& r.peer_address == request.peer_address
            }
        },
{
}

} // verus!
