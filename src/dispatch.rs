use vstd::prelude::*;
use crate::endpoint::{endpoint_accepts, uri_accepts, uri_authority, validate_endpoint, Endpoint, EndpointFault};
use crate::hex::{hex_text, to_hex};
use crate::peer::{dotted, find_ipv4, first_ipv4, PeerAddress, Resolved, WireAddress};

verus! {

/// The operation chosen on the command line.
#[derive(Clone, Debug)]
pub enum Action {
    GetInfo,
    Connect { address: String },
    Disconnect { address: String },
}

/// Which peer operation waits for an address.
#[derive(Clone, Copy, Debug, PartialEq, Eq, Structural)]
pub enum PeerOp {
    Connect,
    Disconnect,
}

/// What a pending call answers with.
#[derive(Clone, Copy, Debug, PartialEq, Eq, Structural)]
pub enum Reply {
    Info,
    Ack,
}

/// One request to the node.
#[derive(Debug)]
pub enum Request {
    GetInfo,
    ConnectPeer(WireAddress),
    DisconnectPeer(WireAddress),
}

/// The node's answer to `GetInfo`.
#[derive(Debug)]
pub struct NodeInfo {
    pub implementation: String,
    pub protocol_version: u32,
    pub best_block_hash: Vec<u8>,
    pub genesis_block_hash: Vec<u8>,
}

/// The four values handed to the renderer, hashes in hexadecimal.
#[derive(Debug, PartialEq, Eq)]
pub struct Report {
    pub implementation: String,
    pub protocol_version: u32,
    pub best_block_hash: String,
    pub genesis_hash: String,
}

/// Why a run failed. Every failure ends the run.
#[derive(Debug)]
pub enum CliError {
    InvalidEndpoint(EndpointFault),
    UnresolvableAddress,
    ConnectionFailed(String),
    RpcCallFailed(String),
}

/// Where a run stands.
#[derive(Debug)]
pub enum Session {
    /// The peer address is being resolved.
    Resolving { endpoint: Endpoint, op: PeerOp },
    /// The connection is being opened; the request is ready.
    Connecting { request: Request },
    /// The one call is under way.
    Calling { reply: Reply },
    /// Nothing is left to do.
    Finished,
}

/// What the outside world reports back.
#[derive(Debug)]
pub enum Event {
    Resolved(Vec<Resolved>),
    Connected,
    ConnectFailed(String),
    InfoReceived(NodeInfo),
    Acknowledged,
    CallFailed(String),
}

/// What is to be done next.
#[derive(Debug)]
pub enum Step {
    /// Resolve this host[:port] text and report `Event::Resolved`.
    Resolve(String),
    /// Open the one connection to this endpoint.
    Connect(Endpoint),
    /// Issue this request over the open connection.
    Call(Request),
    /// Show these values; the run succeeded.
    Render(Report),
    /// The node acknowledged; the run succeeded.
    Succeed,
    /// The run failed.
    Fail(CliError),
}

#[derive(Clone, Copy, Debug, PartialEq, Eq, Structural)]
pub enum StepKind {
    Resolve,
    Connect,
    Call,
    Render,
    Succeed,
    Fail,
}

pub open spec fn kind_of(s: Step) -> StepKind {
    match s {
        Step::Resolve(_) => StepKind::Resolve,
        Step::Connect(_) => StepKind::Connect,
        Step::Call(_) => StepKind::Call,
        Step::Render(_) => StepKind::Render,
        Step::Succeed => StepKind::Succeed,
        Step::Fail(_) => StepKind::Fail,
    }
}

/// The first step of a run.
pub open spec fn start_kind(text: Seq<char>, action: Action) -> StepKind {
    if !endpoint_accepts(text) {
        StepKind::Fail
    } else if action is GetInfo {
        StepKind::Connect
    } else {
        StepKind::Resolve
    }
}

/// A session with its data left out.
#[derive(Clone, Copy, Debug, PartialEq, Eq, Structural)]
pub enum Phase {
    Resolving,
    Connecting(Reply),
    Calling(Reply),
    Finished,
}

pub open spec fn phase_of(s: Session) -> Phase {
    match s {
        Session::Resolving { .. } => Phase::Resolving,
        Session::Connecting { request } => Phase::Connecting(reply_of(request)),
        Session::Calling { reply } => Phase::Calling(reply),
        Session::Finished => Phase::Finished,
    }
}

/// The phase a run enters at its first step.
pub open spec fn start_phase(text: Seq<char>, action: Action) -> Phase {
    if !endpoint_accepts(text) {
        Phase::Finished
    } else if action is GetInfo {
        Phase::Connecting(Reply::Info)
    } else {
        Phase::Resolving
    }
}

/// Whether a phase waits for this event.
pub open spec fn phase_awaits(p: Phase, ev: Event) -> bool {
    match p {
        Phase::Resolving => ev is Resolved,
        Phase::Connecting(_) => ev is Connected || ev is ConnectFailed,
        Phase::Calling(reply) => ev is CallFailed || (reply == Reply::Info && ev is InfoReceived)
            || (reply == Reply::Ack && ev is Acknowledged),
        Phase::Finished => false,
    }
}

/// Whether a session waits for this event.
pub open spec fn awaits(s: Session, ev: Event) -> bool {
    phase_awaits(phase_of(s), ev)
}

/// The phase that follows an awaited event.
pub open spec fn next_phase(p: Phase, ev: Event) -> Phase {
    match (p, ev) {
        (Phase::Resolving, Event::Resolved(list)) => if first_ipv4(list@) is Some {
            Phase::Connecting(Reply::Ack)
        } else {
            Phase::Finished
        },
        (Phase::Connecting(reply), Event::Connected) => Phase::Calling(reply),
        _ => Phase::Finished,
    }
}

/// The step that follows an awaited event.
pub open spec fn next_kind(ev: Event) -> StepKind {
    match ev {
        Event::Resolved(list) => if first_ipv4(list@) is Some {
            StepKind::Connect
        } else {
            StepKind::Fail
        },
        Event::Connected => StepKind::Call,
        Event::InfoReceived(_) => StepKind::Render,
        Event::Acknowledged => StepKind::Succeed,
        _ => StepKind::Fail,
    }
}

/// The request that carries a resolved peer.
pub open spec fn carries_peer(r: Request, op: PeerOp, p: PeerAddress) -> bool {
    match r {
        Request::ConnectPeer(w) => op == PeerOp::Connect && w.ip@ == dotted(p.octets@) && w.port
            == p.port as u32,
        Request::DisconnectPeer(w) => op == PeerOp::Disconnect && w.ip@ == dotted(p.octets@)
            && w.port == p.port as u32,
        Request::GetInfo => false,
    }
}

pub open spec fn reply_of(r: Request) -> Reply {
    if r is GetInfo {
        Reply::Info
    } else {
        Reply::Ack
    }
}

/// The report holds the node's values unmodified, hashes rendered in hexadecimal.
pub open spec fn reports(info: NodeInfo, rep: Report) -> bool {
    &&& rep.implementation@ == info.implementation@
    &&& rep.protocol_version == info.protocol_version
    &&& rep.best_block_hash@ == hex_text(info.best_block_hash@)
    &&& rep.genesis_hash@ == hex_text(info.genesis_block_hash@)
}

/// Hands the four values of a `GetInfo` answer to the renderer.
pub fn report_of(info: NodeInfo) -> (r: Report)
    ensures
        reports(info, r),
{
    let best_block_hash = to_hex(&info.best_block_hash);
    let genesis_hash = to_hex(&info.genesis_block_hash);
    Report {
        implementation: info.implementation,
        protocol_version: info.protocol_version,
        best_block_hash,
        genesis_hash,
    }
}

/// The request that carries a resolved peer for the chosen operation.
pub fn peer_request(op: PeerOp, p: &PeerAddress) -> (r: Request)
    ensures
        carries_peer(r, op, *p),
{
    match op {
        PeerOp::Connect => Request::ConnectPeer(p.to_wire()),
        PeerOp::Disconnect => Request::DisconnectPeer(p.to_wire()),
    }
}

/// Begins a run: the service URI is validated before anything else, then
/// `GetInfo` goes straight to connecting while a peer operation first
/// resolves its address.
pub fn start(endpoint_text: &str, action: Action) -> (r: (Session, Step))
    ensures
        kind_of(r.1) == start_kind(endpoint_text@, action),
        phase_of(r.0) == start_phase(endpoint_text@, action),
        r.1 matches Step::Fail(e) ==> (e matches CliError::InvalidEndpoint(f) && ((f is Syntax)
            <==> !uri_accepts(endpoint_text@)) && ((f is NoAuthority) <==> (uri_accepts(endpoint_text@)
            && uri_authority(endpoint_text@) is None))),
        r.1 matches Step::Connect(e) ==> e.uri@ == endpoint_text@ && r.0 == (Session::Connecting {
            request: Request::GetInfo,
        }),
        r.1 matches Step::Resolve(a) ==> (r.0 matches Session::Resolving { endpoint, op } && endpoint.uri@
            == endpoint_text@ && ((action matches Action::Connect { address } && op == PeerOp::Connect
            && a@ == address@) || (action matches Action::Disconnect { address } && op
            == PeerOp::Disconnect && a@ == address@))),
{
    match validate_endpoint(endpoint_text) {
        Err(f) => (Session::Finished, Step::Fail(CliError::InvalidEndpoint(f))),
        Ok(endpoint) => match action {
            Action::GetInfo => (Session::Connecting { request: Request::GetInfo }, Step::Connect(endpoint)),
            Action::Connect { address } => (
                Session::Resolving { endpoint, op: PeerOp::Connect },
                Step::Resolve(address),
            ),
            Action::Disconnect { address } => (
                Session::Resolving { endpoint, op: PeerOp::Disconnect },
                Step::Resolve(address),
            ),
        },
    }
}

impl Session {
    /// Whether the session waits for this event.
    pub fn expects(&self, ev: &Event) -> (b: bool)
        ensures
            b == awaits(*self, *ev),
    {
        match self {
            Session::Resolving { .. } => matches!(ev, Event::Resolved(_)),
            Session::Connecting { .. } => matches!(ev, Event::Connected | Event::ConnectFailed(_)),
            Session::Calling { reply } => match ev {
                Event::CallFailed(_) => true,
                Event::InfoReceived(_) => *reply == Reply::Info,
                Event::Acknowledged => *reply == Reply::Ack,
                _ => false,
            },
            Session::Finished => false,
        }
    }

    /// Takes the run one step further on an event that the session waits for.
    pub fn on_event(self, ev: Event) -> (r: (Session, Step))
        requires
            awaits(self, ev),
        ensures
            kind_of(r.1) == next_kind(ev),
            phase_of(r.0) == next_phase(phase_of(self), ev),
            self matches Session::Resolving { endpoint, op } ==> (ev matches Event::Resolved(list)
                ==> match first_ipv4(list@) {
                Some(p) => r.1 == Step::Connect(endpoint) && (r.0 matches Session::Connecting {
                    request,
                } && carries_peer(request, op, p)),
                None => r.1 == Step::Fail(CliError::UnresolvableAddress),
            }),
            self matches Session::Connecting { request } ==> (ev is Connected ==> r.1 == Step::Call(
                request,
            ) && r.0 == (Session::Calling { reply: reply_of(request) })),
            ev matches Event::ConnectFailed(m) ==> r.1 == Step::Fail(CliError::ConnectionFailed(m)),
            ev matches Event::CallFailed(m) ==> r.1 == Step::Fail(CliError::RpcCallFailed(m)),
            ev matches Event::InfoReceived(info) ==> (r.1 matches Step::Render(rep) && reports(
                info,
                rep,
            )),
    {
        match (self, ev) {
            (Session::Resolving { endpoint, op }, Event::Resolved(list)) => match find_ipv4(&list) {
                Some(p) => (Session::Connecting { request: peer_request(op, &p) }, Step::Connect(endpoint)),
                None => (Session::Finished, Step::Fail(CliError::UnresolvableAddress)),
            },
            (Session::Connecting { request }, Event::Connected) => {
                let reply = if matches!(request, Request::GetInfo) {
                    Reply::Info
                } else {
                    Reply::Ack
                };
                (Session::Calling { reply }, Step::Call(request))
            },
            (_, Event::ConnectFailed(m)) => (Session::Finished, Step::Fail(CliError::ConnectionFailed(m))),
            (_, Event::CallFailed(m)) => (Session::Finished, Step::Fail(CliError::RpcCallFailed(m))),
            (_, Event::InfoReceived(info)) => (Session::Finished, Step::Render(report_of(info))),
            (_, _) => (Session::Finished, Step::Succeed),
        }
    }
}

/// The kinds of the steps that follow a phase, one for each event in turn,
/// up to the first event that is not awaited.
pub open spec fn later_steps(p: Phase, evs: Seq<Event>) -> Seq<StepKind>
    decreases evs.len(),
{
    if evs.len() == 0 || !phase_awaits(p, evs[0]) {
        Seq::empty()
    } else {
        seq![next_kind(evs[0])] + later_steps(next_phase(p, evs[0]), evs.drop_first())
    }
}

/// The kinds of all steps of a run: the first one, then one for each awaited event.
pub open spec fn run_steps(text: Seq<char>, action: Action, evs: Seq<Event>) -> Seq<StepKind> {
    seq![start_kind(text, action)] + later_steps(start_phase(text, action), evs)
}

proof fn nothing_follows_finished(evs: Seq<Event>)
    ensures
        later_steps(Phase::Finished, evs) == Seq::<StepKind>::empty(),
{
}

/// A service URI that fails validation ends every run at its first step, a
/// failure, whatever events come after: no connection is ever asked for.
pub proof fn invalid_endpoint_never_connects(text: Seq<char>, action: Action, evs: Seq<Event>)
    requires
        !endpoint_accepts(text),
    ensures
        run_steps(text, action, evs) == seq![StepKind::Fail],
        !run_steps(text, action, evs).contains(StepKind::Connect),
{
    nothing_follows_finished(evs);
    assert(run_steps(text, action, evs) =~= seq![StepKind::Fail]);
    assert(seq![StepKind::Fail][0] != StepKind::Connect);
}

/// A `connect` or `disconnect` run whose address resolves to no IPv4 result
/// never asks for a connection, whatever events come after.
pub proof fn unresolvable_peer_never_connects(text: Seq<char>, action: Action, evs: Seq<Event>)
    requires
        !(action is GetInfo),
        forall|i: int| 0 <= i < evs.len() ==> (#[trigger] evs[i] matches Event::Resolved(list)
            ==> first_ipv4(list@) is None),
    ensures
        !run_steps(text, action, evs).contains(StepKind::Connect),
{
    let first = start_kind(text, action);
    if !endpoint_accepts(text) {
        invalid_endpoint_never_connects(text, action, evs);
    } else {
        assert(first == StepKind::Resolve);
        if evs.len() == 0 || !phase_awaits(Phase::Resolving, evs[0]) {
            assert(run_steps(text, action, evs) =~= seq![first]);
        } else {
            assert(evs[0] is Resolved);
            nothing_follows_finished(evs.drop_first());
            assert(next_phase(Phase::Resolving, evs[0]) == Phase::Finished);
            assert(run_steps(text, action, evs) =~= seq![first, StepKind::Fail]);
        }
        let r = run_steps(text, action, evs);
        assert forall|i: int| 0 <= i < r.len() implies r[i] != StepKind::Connect by {}
    }
}

proof fn steps_after_calling(reply: Reply, evs: Seq<Event>)
    ensures
        forall|i: int|
            0 <= i < later_steps(Phase::Calling(reply), evs).len() ==> #[trigger] later_steps(
                Phase::Calling(reply),
                evs,
            )[i] != StepKind::Connect && later_steps(Phase::Calling(reply), evs)[i]
                != StepKind::Call,
{
    if evs.len() > 0 && phase_awaits(Phase::Calling(reply), evs[0]) {
        nothing_follows_finished(evs.drop_first());
        assert(later_steps(Phase::Calling(reply), evs) =~= seq![next_kind(evs[0])]);
    }
}

proof fn steps_after_connecting(reply: Reply, evs: Seq<Event>)
    ensures
        forall|i: int|
            0 <= i < later_steps(Phase::Connecting(reply), evs).len() ==> #[trigger] later_steps(
                Phase::Connecting(reply),
                evs,
            )[i] != StepKind::Connect && (later_steps(Phase::Connecting(reply), evs)[i]
                == StepKind::Call ==> i == 0),
{
    let l = later_steps(Phase::Connecting(reply), evs);
    if evs.len() > 0 && phase_awaits(Phase::Connecting(reply), evs[0]) {
        let rest = evs.drop_first();
        if evs[0] is Connected {
            steps_after_calling(reply, rest);
            let m = later_steps(Phase::Calling(reply), rest);
            assert(l == seq![StepKind::Call] + m);
            assert forall|i: int| 0 <= i < l.len() implies #[trigger] l[i] != StepKind::Connect && (l[i]
                == StepKind::Call ==> i == 0) by {
                if i > 0 {
                    assert(l[i] == m[i - 1]);
                }
            }
        } else {
            nothing_follows_finished(rest);
            assert(l =~= seq![StepKind::Fail]);
        }
    }
}

proof fn steps_after_resolving(evs: Seq<Event>)
    ensures
        forall|i: int|
            0 <= i < later_steps(Phase::Resolving, evs).len() ==> (#[trigger] later_steps(
                Phase::Resolving,
                evs,
            )[i] == StepKind::Connect ==> i == 0) && (later_steps(Phase::Resolving, evs)[i]
                == StepKind::Call ==> i == 1),
        later_steps(Phase::Resolving, evs).len() > 1 ==> later_steps(Phase::Resolving, evs)[0]
            == StepKind::Connect,
{
    let l = later_steps(Phase::Resolving, evs);
    if evs.len() > 0 && phase_awaits(Phase::Resolving, evs[0]) {
        let rest = evs.drop_first();
        let list = evs[0]->Resolved_0;
        if first_ipv4(list@) is Some {
            steps_after_connecting(Reply::Ack, rest);
            let m = later_steps(Phase::Connecting(Reply::Ack), rest);
            assert(l == seq![StepKind::Connect] + m);
            assert forall|i: int| 0 <= i < l.len() implies (#[trigger] l[i] == StepKind::Connect ==> i
                == 0) && (l[i] == StepKind::Call ==> i == 1) by {
                if i > 0 {
                    assert(l[i] == m[i - 1]);
                }
            }
        } else {
            nothing_follows_finished(rest);
            assert(l =~= seq![StepKind::Fail]);
        }
    }
}

/// Every run opens at most one connection and makes at most one call, and
/// the call comes right after the step that opened the connection.
pub proof fn one_connection_one_call(text: Seq<char>, action: Action, evs: Seq<Event>)
    ensures
        forall|i: int, j: int|
            0 <= i < run_steps(text, action, evs).len() && 0 <= j < run_steps(text, action, evs).len()
                && #[trigger] run_steps(text, action, evs)[i] == StepKind::Connect
                && #[trigger] run_steps(text, action, evs)[j] == StepKind::Connect ==> i == j,
        forall|i: int, j: int|
            0 <= i < run_steps(text, action, evs).len() && 0 <= j < run_steps(text, action, evs).len()
                && #[trigger] run_steps(text, action, evs)[i] == StepKind::Call
                && #[trigger] run_steps(text, action, evs)[j] == StepKind::Call ==> i == j,
        forall|j: int|
            0 <= j < run_steps(text, action, evs).len() && #[trigger] run_steps(text, action, evs)[j]
                == StepKind::Call ==> j >= 1 && run_steps(text, action, evs)[j - 1]
                == StepKind::Connect,
{
    let r = run_steps(text, action, evs);
    let first = start_kind(text, action);
    let l = later_steps(start_phase(text, action), evs);
    assert(r == seq![first] + l);
    if !endpoint_accepts(text) {
        nothing_follows_finished(evs);
        assert(r =~= seq![StepKind::Fail]);
    } else if action is GetInfo {
        steps_after_connecting(Reply::Info, evs);
        assert forall|i: int| 0 <= i < r.len() implies (#[trigger] r[i] == StepKind::Connect ==> i == 0)
            && (r[i] == StepKind::Call ==> i == 1) by {
            if i > 0 {
                assert(r[i] == l[i - 1]);
            }
        }
    } else {
        steps_after_resolving(evs);
        assert forall|i: int| 0 <= i < r.len() implies (#[trigger] r[i] == StepKind::Connect ==> i == 1)
            && (r[i] == StepKind::Call ==> i == 2) by {
            if i > 0 {
                assert(r[i] == l[i - 1]);
            }
        }
        if r.len() > 2 {
            assert(r[1] == l[0]);
        }
    }
}

} // verus!
