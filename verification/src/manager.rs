//! The dialing policy: which endpoint to try next and when to give up.
//!
//! The manager never opens a connection itself. It names the next endpoint
//! to dial, is told how the attempt went, and names the next one or the
//! final result.

use vstd::prelude::*;
use crate::network::{IoFailure, IoFailureKind, NetworkError, P2PConnection, ConnectionView};
use crate::ConnectionMode;

verus! {

/// An endpoint an attempt goes to.
#[derive(Debug, Clone, Copy, PartialEq, Eq, Structural)]
pub enum DialTarget {
    /// The peer itself.
    Direct,
    /// The relay at this position of the manager's list.
    Relay(usize),
}

/// How one attempt ended.
#[derive(Debug, Clone, PartialEq, Eq)]
pub enum AttemptOutcome {
    /// The connection stands.
    Connected,
    /// The dial failed with this error.
    Failed(NetworkError),
    /// The relay entry is not an address; nothing was dialed.
    Skipped,
}

/// Why dialing gave up.
#[derive(Debug, Clone, PartialEq, Eq)]
pub enum DialFailure {
    /// The direct dial failed with this error, and no relay stepped in.
    Direct(NetworkError),
    /// Only relays were tried and none connected.
    RelaysExhausted,
}

/// Where a dialing run stands.
#[derive(Debug, Clone, PartialEq, Eq)]
pub enum DialState {
    /// The peer is to be dialed directly; relays stand by if `fallback`.
    TryDirect { fallback: bool },
    /// The relay at `index` is to be dialed; `direct_error` is what the
    /// direct dial failed with, if one was made.
    TryRelay { index: usize, direct_error: Option<NetworkError> },
    /// A connection stands.
    Connected(DialTarget),
    /// Dialing gave up.
    Failed(DialFailure),
}

/// What is known beforehand of the endpoints: whether the direct dial
/// succeeds, and which relay entries yield a connection.
pub ghost struct Reachability {
    /// The outcome of dialing the peer.
    pub direct: Result<(), NetworkError>,
    /// For each relay entry, whether dialing it yields a connection.
    pub relays: Seq<bool>,
}

/// The first relay at or after `from` that yields a connection.
pub open spec fn first_reachable(relays: Seq<bool>, from: int) -> Option<int>
    decreases relays.len() - from,
{
    if from < 0 || from >= relays.len() {
        None
    } else if relays[from] {
        Some(from)
    } else {
        first_reachable(relays, from + 1)
    }
}

/// What dialing in `mode` ends in.
///
/// Direct-only makes one attempt at the peer. Relay-only goes through the
/// relays in list order and takes the first that connects. Auto dials the
/// peer, falls back to the relays, and if those fail too reports the error
/// of the direct dial.
pub open spec fn dial_result(mode: ConnectionMode, reach: Reachability) -> Result<
    DialTarget,
    DialFailure,
> {
    match mode {
        ConnectionMode::DirectOnly => match reach.direct {
            Ok(_) => Ok(DialTarget::Direct),
            Err(e) => Err(DialFailure::Direct(e)),
        },
        ConnectionMode::RelayOnly => match first_reachable(reach.relays, 0) {
            Some(i) => Ok(DialTarget::Relay(i as usize)),
            None => Err(DialFailure::RelaysExhausted),
        },
        ConnectionMode::Auto => match reach.direct {
            Ok(_) => Ok(DialTarget::Direct),
            Err(e) => match first_reachable(reach.relays, 0) {
                Some(i) => Ok(DialTarget::Relay(i as usize)),
                None => Err(DialFailure::Direct(e)),
            },
        },
    }
}

/// The state in which the relay at `index` is next, or the final failure
/// when the list is used up.
pub open spec fn relay_stage(index: int, relay_count: int, direct_error: Option<NetworkError>) -> DialState {
    if index < relay_count {
        DialState::TryRelay { index: index as usize, direct_error }
    } else {
        match direct_error {
            Some(e) => DialState::Failed(DialFailure::Direct(e)),
            None => DialState::Failed(DialFailure::RelaysExhausted),
        }
    }
}

/// The state dialing starts in.
pub open spec fn start_state(mode: ConnectionMode, relay_count: int) -> DialState {
    match mode {
        ConnectionMode::Auto => DialState::TryDirect { fallback: true },
        ConnectionMode::DirectOnly => DialState::TryDirect { fallback: false },
        ConnectionMode::RelayOnly => relay_stage(0, relay_count, None),
    }
}

/// The state after an attempt ended in `outcome`.
pub open spec fn next_state(state: DialState, outcome: AttemptOutcome, relay_count: int) -> DialState {
    match state {
        DialState::TryDirect { fallback } => match outcome {
            AttemptOutcome::Connected => DialState::Connected(DialTarget::Direct),
            AttemptOutcome::Failed(e) => if fallback {
                relay_stage(0, relay_count, Some(e))
            } else {
                DialState::Failed(DialFailure::Direct(e))
            },
            AttemptOutcome::Skipped => state,
        },
        DialState::TryRelay { index, direct_error } => match outcome {
            AttemptOutcome::Connected => DialState::Connected(DialTarget::Relay(index)),
            _ => relay_stage(index + 1, relay_count, direct_error),
        },
        _ => state,
    }
}

/// The endpoint a state asks to dial, if it asks for one.
pub open spec fn pending_target(state: DialState) -> Option<DialTarget> {
    match state {
        DialState::TryDirect { .. } => Some(DialTarget::Direct),
        DialState::TryRelay { index, .. } => Some(DialTarget::Relay(index)),
        _ => None,
    }
}

/// What an attempt at `target` ends in, given what is known of the
/// endpoints. A relay that does not connect counts as skipped.
pub open spec fn outcome_at(target: DialTarget, reach: Reachability) -> AttemptOutcome {
    match target {
        DialTarget::Direct => match reach.direct {
            Ok(_) => AttemptOutcome::Connected,
            Err(e) => AttemptOutcome::Failed(e),
        },
        DialTarget::Relay(i) => if 0 <= i < reach.relays.len() && reach.relays[i as int] {
            AttemptOutcome::Connected
        } else {
            AttemptOutcome::Skipped
        },
    }
}

/// Attempts still ahead of a state, at most.
pub open spec fn attempts_left(state: DialState, relay_count: int) -> int {
    match state {
        DialState::TryDirect { .. } => relay_count + 1,
        DialState::TryRelay { index, .. } => relay_count - index,
        _ => 0,
    }
}

/// The state a run ends in when every attempt goes as `reach` says.
pub open spec fn run_to_end(state: DialState, reach: Reachability) -> DialState
    decreases attempts_left(state, reach.relays.len() as int),
{
    match pending_target(state) {
        None => state,
        Some(target) => {
            let next = next_state(state, outcome_at(target, reach), reach.relays.len() as int);
            if attempts_left(next, reach.relays.len() as int) < attempts_left(
                state,
                reach.relays.len() as int,
            ) {
                run_to_end(next, reach)
            } else {
                next
            }
        },
    }
}

/// The result a final state stands for.
pub open spec fn state_result(state: DialState) -> Option<Result<DialTarget, DialFailure>> {
    match state {
        DialState::Connected(target) => Some(Ok(target)),
        DialState::Failed(failure) => Some(Err(failure)),
        _ => None,
    }
}

/// From the relay at `index` on, a run ends where the first reachable relay
/// says.
proof fn lemma_relay_run(index: int, direct_error: Option<NetworkError>, reach: Reachability)
    requires
        0 <= index <= reach.relays.len(),
        reach.relays.len() <= usize::MAX,
    ensures
        state_result(run_to_end(relay_stage(index, reach.relays.len() as int, direct_error), reach))
            == Some(
            match first_reachable(reach.relays, index) {
                Some(i) => Ok::<DialTarget, DialFailure>(DialTarget::Relay(i as usize)),
                None => match direct_error {
                    Some(e) => Err(DialFailure::Direct(e)),
                    None => Err(DialFailure::RelaysExhausted),
                },
            },
        ),
    decreases reach.relays.len() - index,
{
    let count = reach.relays.len() as int;
    let state = relay_stage(index, count, direct_error);
    if index < count {
        let outcome = outcome_at(DialTarget::Relay(index as usize), reach);
        let next = next_state(state, outcome, count);
        if !reach.relays[index] {
            lemma_relay_run(index + 1, direct_error, reach);
        }
        assert(run_to_end(state, reach) == run_to_end(next, reach));
    }
}

/// Following the manager step by step ends in exactly what the policy
/// prescribes: every run that starts in `start_state` and is told the true
/// outcome of each attempt ends in `dial_result`.
pub proof fn lemma_run_follows_policy(mode: ConnectionMode, reach: Reachability)
    requires
        reach.relays.len() <= usize::MAX,
    ensures
        state_result(run_to_end(start_state(mode, reach.relays.len() as int), reach)) == Some(
            dial_result(mode, reach),
        ),
{
    let count = reach.relays.len() as int;
    let start = start_state(mode, count);
    match mode {
        ConnectionMode::RelayOnly => {
            lemma_relay_run(0, None, reach);
        },
        _ => {
            let next = next_state(start, outcome_at(DialTarget::Direct, reach), count);
            if mode == ConnectionMode::Auto {
                if let Err(e) = reach.direct {
                    lemma_relay_run(0, Some(e), reach);
                }
            }
            assert(run_to_end(start, reach) == run_to_end(next, reach));
        },
    }
}

// ---------------------------------------------------------------------------
// The manager
// ---------------------------------------------------------------------------

/// The abstract state of a manager.
pub ghost struct ManagerView {
    /// The limit every connection of the manager gets.
    pub max_message_size: usize,
    /// The relay endpoints, in the order they are tried.
    pub relay_servers: Seq<String>,
}

/// The settings connections are made with, and the policy for making them.
pub struct ConnectionManager {
    max_message_size: usize,
    relay_servers: Vec<String>,
}

impl View for ConnectionManager {
    type V = ManagerView;

    closed spec fn view(&self) -> ManagerView {
        ManagerView {
            max_message_size: self.max_message_size,
            relay_servers: self.relay_servers@,
        }
    }
}

impl DialFailure {
    /// Whether `error` is the error this failure is reported as: the error
    /// of the direct dial, or a refused connection that names the relays.
    pub open spec fn reported_as(self, error: NetworkError) -> bool {
        match self {
            DialFailure::Direct(e) => error == e,
            DialFailure::RelaysExhausted => error matches NetworkError::Connection(f) && f.kind
                == IoFailureKind::ConnectionRefused && f.detail@ == "All relay servers failed"@,
        }
    }

    /// The error the failure is reported as.
    pub fn into_error(self) -> (error: NetworkError)
        ensures
            self.reported_as(error),
    {
        match self {
            DialFailure::Direct(e) => e,
            DialFailure::RelaysExhausted => NetworkError::Connection(
                IoFailure {
                    kind: IoFailureKind::ConnectionRefused,
                    detail: "All relay servers failed".to_owned(),
                },
            ),
        }
    }
}

impl DialState {
    /// The endpoint to dial next; none once dialing has ended.
    pub fn target(&self) -> (target: Option<DialTarget>)
        ensures
            target == pending_target(*self),
    {
        match self {
            DialState::TryDirect { .. } => Some(DialTarget::Direct),
            DialState::TryRelay { index, .. } => Some(DialTarget::Relay(*index)),
            _ => None,
        }
    }
}

impl ConnectionManager {
    /// A manager without relays.
    pub fn new(max_message_size: usize) -> (manager: Self)
        ensures
            manager@.max_message_size == max_message_size,
            manager@.relay_servers.len() == 0,
    {
        ConnectionManager { max_message_size, relay_servers: Vec::new() }
    }

    /// A manager with the given relay endpoints, tried in list order.
    pub fn with_relays(max_message_size: usize, relay_servers: Vec<String>) -> (manager: Self)
        ensures
            manager@ == (ManagerView { max_message_size, relay_servers: relay_servers@ }),
    {
        ConnectionManager { max_message_size, relay_servers }
    }

    /// The number of relay endpoints.
    pub fn relay_count(&self) -> (count: usize)
        ensures
            count == self@.relay_servers.len(),
    {
        self.relay_servers.len()
    }

    /// The relay endpoint at `index`, if the list reaches that far.
    pub fn relay_server(&self, index: usize) -> (endpoint: Option<&str>)
        ensures
            index < self@.relay_servers.len() ==> (endpoint matches Some(e) && e@
                == self@.relay_servers[index as int]@),
            index >= self@.relay_servers.len() ==> endpoint is None,
    {
        if index < self.relay_servers.len() {
            Some(self.relay_servers[index].as_str())
        } else {
            None
        }
    }

    /// The stage at which the relay at `index` is next.
    fn stage(&self, index: usize, direct_error: Option<NetworkError>) -> (state: DialState)
        ensures
            state == relay_stage(index as int, self@.relay_servers.len() as int, direct_error),
    {
        if index < self.relay_servers.len() {
            DialState::TryRelay { index, direct_error }
        } else {
            match direct_error {
                Some(e) => DialState::Failed(DialFailure::Direct(e)),
                None => DialState::Failed(DialFailure::RelaysExhausted),
            }
        }
    }

    /// Begins dialing in the given mode.
    pub fn connect_with_mode(&self, mode: ConnectionMode) -> (state: DialState)
        ensures
            state == start_state(mode, self@.relay_servers.len() as int),
    {
        match mode {
            ConnectionMode::Auto => DialState::TryDirect { fallback: true },
            ConnectionMode::DirectOnly => DialState::TryDirect { fallback: false },
            ConnectionMode::RelayOnly => self.stage(0, None),
        }
    }

    /// Begins dialing the peer directly, with the relays as fallback.
    pub fn connect_to_peer(&self) -> (state: DialState)
        ensures
            state == start_state(ConnectionMode::Auto, self@.relay_servers.len() as int),
    {
        self.connect_with_mode(ConnectionMode::Auto)
    }

    /// Takes note of how the pending attempt ended and moves on.
    pub fn advance(&self, state: DialState, outcome: AttemptOutcome) -> (next: DialState)
        ensures
            next == next_state(state, outcome, self@.relay_servers.len() as int),
    {
        match state {
            DialState::TryDirect { fallback } => match outcome {
                AttemptOutcome::Connected => DialState::Connected(DialTarget::Direct),
                AttemptOutcome::Failed(e) => if fallback {
                    self.stage(0, Some(e))
                } else {
                    DialState::Failed(DialFailure::Direct(e))
                },
                AttemptOutcome::Skipped => DialState::TryDirect { fallback },
            },
            DialState::TryRelay { index, direct_error } => match outcome {
                AttemptOutcome::Connected => DialState::Connected(DialTarget::Relay(index)),
                _ => if index < self.relay_servers.len() {
                    self.stage(index + 1, direct_error)
                } else {
                    match direct_error {
                        Some(e) => DialState::Failed(DialFailure::Direct(e)),
                        None => DialState::Failed(DialFailure::RelaysExhausted),
                    }
                },
            },
            DialState::Connected(target) => DialState::Connected(target),
            DialState::Failed(failure) => DialState::Failed(failure),
        }
    }

    /// The rules for a connection that dialing `target` produced: relay
    /// mode for a relay, direct mode for the peer, under the manager's limit.
    pub fn connection(&self, target: DialTarget, peer_addr: String) -> (connection: P2PConnection)
        ensures
            connection@ == (ConnectionView {
                peer_addr: peer_addr@,
                max_message_size: self@.max_message_size,
                is_relay: target is Relay,
            }),
    {
        match target {
            DialTarget::Direct => P2PConnection::new(peer_addr, self.max_message_size, false),
            DialTarget::Relay(_) => P2PConnection::new(peer_addr, self.max_message_size, true),
        }
    }

    /// The rules for the one connection a listener yields: direct mode,
    /// under the manager's limit.
    pub fn start_server(&self, peer_addr: String) -> (connection: P2PConnection)
        ensures
            connection@ == (ConnectionView {
                peer_addr: peer_addr@,
                max_message_size: self@.max_message_size,
                is_relay: false,
            }),
    {
        P2PConnection::new(peer_addr, self.max_message_size, false)
    }
}

} // verus!
