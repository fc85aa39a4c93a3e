//! Connectivity supervision: association with the access point, the climb
//! from link to address to bus session, and the fixed backoff between tries.
//!
//! The supervisor never gives up and never returns an error. A failed
//! association and a lost link both end in `Disconnected`, a backoff of
//! `BACKOFF_MS`, and a fresh attempt.

use vstd::prelude::*;
use crate::pace::Wait;

verus! {

/// Pause between two looks at the link and address status, in milliseconds.
pub const LINK_POLL_MS: u64 = 500;

/// Pause after a failed association or a lost link, in milliseconds.
pub const BACKOFF_MS: u64 = 5000;

/// How far the device has come towards a usable bus session.
#[derive(Clone, Copy, Debug, PartialEq, Eq, Structural)]
pub enum ConnectivityState {
    Disconnected,
    LinkUp,
    AddressAcquired,
    BusConnected,
}

impl ConnectivityState {
    /// Position on the way from `Disconnected` (0) to `BusConnected` (3).
    pub open spec fn rank(self) -> nat {
        match self {
            ConnectivityState::Disconnected => 0,
            ConnectivityState::LinkUp => 1,
            ConnectivityState::AddressAcquired => 2,
            ConnectivityState::BusConnected => 3,
        }
    }

    /// The state after one look at the network: the link is only looked at
    /// while disconnected, the address only once the link is up.
    pub open spec fn polled(self, link_up: bool, has_address: bool) -> ConnectivityState {
        match self {
            ConnectivityState::Disconnected => if !link_up {
                ConnectivityState::Disconnected
            } else if has_address {
                ConnectivityState::AddressAcquired
            } else {
                ConnectivityState::LinkUp
            },
            ConnectivityState::LinkUp => if has_address {
                ConnectivityState::AddressAcquired
            } else {
                ConnectivityState::LinkUp
            },
            ConnectivityState::AddressAcquired => ConnectivityState::AddressAcquired,
            ConnectivityState::BusConnected => ConnectivityState::BusConnected,
        }
    }

    /// The state after the bus session was reported open: it counts only
    /// once an address is held.
    pub open spec fn session_opened(self) -> ConnectivityState {
        match self {
            ConnectivityState::AddressAcquired => ConnectivityState::BusConnected,
            other => other,
        }
    }

    /// Whether the network is ready to carry a bus session.
    pub open spec fn has_address(self) -> bool {
        self.rank() >= 2
    }
}

/// What the radio reports of itself, read right before a step.
#[derive(Clone, Copy, Debug, PartialEq, Eq, Structural)]
pub struct RadioStatus {
    /// The station is associated with the access point.
    pub associated: bool,
    /// The radio has been configured and started in client mode.
    pub started: bool,
}

/// What happened since the last step of the association loop.
#[derive(Clone, Copy, Debug, PartialEq, Eq, Structural)]
pub enum LinkEvent {
    /// Nothing yet: the loop begins.
    Boot,
    /// The radio was configured and started.
    RadioStarted,
    /// The association attempt succeeded.
    Associated,
    /// The association attempt failed.
    AssociationFailed,
    /// The backoff has passed.
    BackoffElapsed,
    /// The access point dropped the station.
    LinkLost,
}

/// What the association loop asks of its caller next.
#[derive(Clone, Copy, Debug, PartialEq, Eq, Structural)]
pub enum LinkAction {
    /// Configure the radio as a client and start it.
    StartRadio,
    /// Try to associate with the access point.
    Associate,
    /// Sleep for this many milliseconds.
    Backoff(u64),
    /// Wait until the access point drops the station.
    AwaitLinkLoss,
}

/// Where the association loop is suspended.
#[derive(Clone, Copy, Debug, PartialEq, Eq, Structural)]
pub enum LinkPhase {
    /// Not yet stepped.
    Idle,
    StartingRadio,
    Associating,
    AwaitingLinkLoss,
    /// Sleeping after a lost link.
    BackoffAfterLoss,
    /// Sleeping after a failed association.
    BackoffAfterFailure,
}

/// Where the loop picks up: an associated station is left alone until it
/// is dropped, a stopped radio is started, a started one associates.
/// After the backoff that follows a lost link the association is not
/// looked at: the loop goes straight on to reconfigure and reconnect.
pub open spec fn resume(check_association: bool, status: RadioStatus) -> LinkAction {
    if check_association && status.associated {
        LinkAction::AwaitLinkLoss
    } else if !status.started {
        LinkAction::StartRadio
    } else {
        LinkAction::Associate
    }
}

/// The action that answers `event`, given where the loop was suspended.
pub open spec fn link_action(phase: LinkPhase, status: RadioStatus, event: LinkEvent) -> LinkAction {
    match event {
        LinkEvent::Boot => resume(true, status),
        LinkEvent::Associated => resume(true, status),
        LinkEvent::BackoffElapsed => resume(phase != LinkPhase::BackoffAfterLoss, status),
        LinkEvent::RadioStarted => LinkAction::Associate,
        LinkEvent::AssociationFailed => LinkAction::Backoff(BACKOFF_MS),
        LinkEvent::LinkLost => LinkAction::Backoff(BACKOFF_MS),
    }
}

/// The suspension point that goes with an action.
pub open spec fn phase_of(action: LinkAction, event: LinkEvent) -> LinkPhase {
    match action {
        LinkAction::StartRadio => LinkPhase::StartingRadio,
        LinkAction::Associate => LinkPhase::Associating,
        LinkAction::AwaitLinkLoss => LinkPhase::AwaitingLinkLoss,
        LinkAction::Backoff(_) => if event == LinkEvent::LinkLost {
            LinkPhase::BackoffAfterLoss
        } else {
            LinkPhase::BackoffAfterFailure
        },
    }
}

/// Whether `event` throws the device back to `Disconnected`.
pub open spec fn resets(event: LinkEvent) -> bool {
    event == LinkEvent::LinkLost || event == LinkEvent::AssociationFailed
}

/// The supervisor as a plain value: what contracts and laws speak of.
pub struct SupervisorModel {
    pub state: ConnectivityState,
    pub phase: LinkPhase,
}

impl SupervisorModel {
    /// A supervisor before its first step.
    pub open spec fn initial() -> SupervisorModel {
        SupervisorModel { state: ConnectivityState::Disconnected, phase: LinkPhase::Idle }
    }

    /// One step of the association loop: the supervisor afterwards.
    pub open spec fn linked(self, status: RadioStatus, event: LinkEvent) -> SupervisorModel {
        SupervisorModel {
            state: if resets(event) {
                ConnectivityState::Disconnected
            } else {
                self.state
            },
            phase: phase_of(link_action(self.phase, status, event), event),
        }
    }

    /// One look at the network: the supervisor afterwards.
    pub open spec fn polled(self, link_up: bool, has_address: bool) -> SupervisorModel {
        SupervisorModel { state: self.state.polled(link_up, has_address), phase: self.phase }
    }

    /// The pause that a look at the network ends in.
    pub open spec fn poll_wait(self, link_up: bool, has_address: bool) -> Wait {
        if self.state.polled(link_up, has_address).has_address() {
            Wait::Ready
        } else {
            Wait::Sleep(LINK_POLL_MS)
        }
    }

    /// The bus session was reported open: the supervisor afterwards.
    pub open spec fn session_opened(self) -> SupervisorModel {
        SupervisorModel { state: self.state.session_opened(), phase: self.phase }
    }
}

/// Keeps the device attached to its network and its message bus.
#[derive(Debug)]
pub struct Supervisor {
    state: ConnectivityState,
    phase: LinkPhase,
}

impl View for Supervisor {
    type V = SupervisorModel;

    closed spec fn view(&self) -> SupervisorModel {
        SupervisorModel { state: self.state, phase: self.phase }
    }
}

impl Supervisor {
    /// A supervisor that has not been stepped: disconnected and idle.
    pub fn new() -> (sup: Supervisor)
        ensures
            sup@ == SupervisorModel::initial(),
    {
        Supervisor { state: ConnectivityState::Disconnected, phase: LinkPhase::Idle }
    }

    /// How far the device has come.
    pub fn state(&self) -> (state: ConnectivityState)
        ensures
            state == self@.state,
    {
        self.state
    }

    /// Where the association loop is suspended.
    pub fn phase(&self) -> (phase: LinkPhase)
        ensures
            phase == self@.phase,
    {
        self.phase
    }

    /// Records that the bus session is open. It counts only once an address
    /// is held; the result says whether the bus is connected afterwards.
    pub fn session_opened(&mut self) -> (connected: bool)
        ensures
            final(self)@ == old(self)@.session_opened(),
            connected == (final(self)@.state == ConnectivityState::BusConnected),
    {
        match self.state {
            ConnectivityState::AddressAcquired => {
                self.state = ConnectivityState::BusConnected;
                true
            },
            ConnectivityState::BusConnected => true,
            _ => false,
        }
    }
}

/// One step of the association loop. `status` is what the radio reports
/// now, `event` what happened since the last step; the result is what to
/// do next. A lost link and a failed association throw the device back to
/// `Disconnected` and ask for the fixed backoff; no other event moves the
/// connectivity state.
pub fn connection(sup: &mut Supervisor, status: RadioStatus, event: LinkEvent) -> (action:
    LinkAction)
    ensures
        action == link_action(old(sup)@.phase, status, event),
        final(sup)@ == old(sup)@.linked(status, event),
{
    let check_association: bool = match sup.phase {
        LinkPhase::BackoffAfterLoss => false,
        _ => true,
    };
    let action = match event {
        LinkEvent::RadioStarted => LinkAction::Associate,
        LinkEvent::AssociationFailed => {
            sup.state = ConnectivityState::Disconnected;
            LinkAction::Backoff(BACKOFF_MS)
        },
        LinkEvent::LinkLost => {
            sup.state = ConnectivityState::Disconnected;
            LinkAction::Backoff(BACKOFF_MS)
        },
        LinkEvent::Boot => pick_up(true, status),
        LinkEvent::Associated => pick_up(true, status),
        LinkEvent::BackoffElapsed => pick_up(check_association, status),
    };
    sup.phase = match action {
        LinkAction::StartRadio => LinkPhase::StartingRadio,
        LinkAction::Associate => LinkPhase::Associating,
        LinkAction::AwaitLinkLoss => LinkPhase::AwaitingLinkLoss,
        LinkAction::Backoff(_) => match event {
            LinkEvent::LinkLost => LinkPhase::BackoffAfterLoss,
            _ => LinkPhase::BackoffAfterFailure,
        },
    };
    action
}

fn pick_up(check_association: bool, status: RadioStatus) -> (action: LinkAction)
    ensures
        action == resume(check_association, status),
{
    if check_association && status.associated {
        LinkAction::AwaitLinkLoss
    } else if !status.started {
        LinkAction::StartRadio
    } else {
        LinkAction::Associate
    }
}

/// One look at the network while waiting for it to come up. The link is
/// looked at until it is up, then the address until one is held; then the
/// wait is over. Until then the caller sleeps `LINK_POLL_MS` and looks
/// again.
pub fn wait_for_connection(sup: &mut Supervisor, link_up: bool, has_address: bool) -> (wait: Wait)
    ensures
        final(sup)@ == old(sup)@.polled(link_up, has_address),
        wait == old(sup)@.poll_wait(link_up, has_address),
{
    if let ConnectivityState::Disconnected = sup.state {
        if link_up {
            sup.state = ConnectivityState::LinkUp;
        }
    }
    if let ConnectivityState::LinkUp = sup.state {
        if has_address {
            sup.state = ConnectivityState::AddressAcquired;
        }
    }
    match sup.state {
        ConnectivityState::AddressAcquired => Wait::Ready,
        ConnectivityState::BusConnected => Wait::Ready,
        _ => Wait::Sleep(LINK_POLL_MS),
    }
}

/// One thing that can happen to the supervisor.
pub enum NetEvent {
    /// A step of the association loop.
    Link { status: RadioStatus, event: LinkEvent },
    /// A look at the network.
    Polled { link_up: bool, has_address: bool },
    /// The bus session was reported open.
    SessionOpened,
}

impl SupervisorModel {
    /// The supervisor after `event`.
    pub open spec fn after(self, event: NetEvent) -> SupervisorModel {
        match event {
            NetEvent::Link { status, event } => self.linked(status, event),
            NetEvent::Polled { link_up, has_address } => self.polled(link_up, has_address),
            NetEvent::SessionOpened => self.session_opened(),
        }
    }

    /// The backoff that the answer to `event` asks for, in milliseconds.
    pub open spec fn backoff(self, event: NetEvent) -> nat {
        match event {
            NetEvent::Link { status, event } => match link_action(self.phase, status, event) {
                LinkAction::Backoff(ms) => ms as nat,
                _ => 0,
            },
            _ => 0,
        }
    }

    /// The supervisor after each of `events`, in order.
    pub open spec fn after_all(self, events: Seq<NetEvent>) -> SupervisorModel
        decreases events.len(),
    {
        if events.len() == 0 {
            self
        } else {
            self.after_all(events.drop_last()).after(events.last())
        }
    }

    /// The backoff asked for over all of `events`, in milliseconds.
    pub open spec fn backoff_through(self, events: Seq<NetEvent>) -> nat
        decreases events.len(),
    {
        if events.len() == 0 {
            0
        } else {
            self.backoff_through(events.drop_last()) + self.after_all(events.drop_last()).backoff(
                events.last(),
            )
        }
    }
}

/// A radio that is started and not associated.
pub open spec fn radio_down() -> RadioStatus {
    RadioStatus { associated: false, started: true }
}

/// A radio that is started and associated.
pub open spec fn radio_up() -> RadioStatus {
    RadioStatus { associated: true, started: true }
}

/// `n` association attempts that fail, each followed by its backoff.
pub open spec fn failed_attempts(n: nat) -> Seq<NetEvent>
    decreases n,
{
    if n == 0 {
        Seq::empty()
    } else {
        failed_attempts((n - 1) as nat).push(
            NetEvent::Link { status: radio_down(), event: LinkEvent::AssociationFailed },
        ).push(NetEvent::Link { status: radio_down(), event: LinkEvent::BackoffElapsed })
    }
}

/// `n` looks at the network that all find the same.
pub open spec fn looks(link_up: bool, has_address: bool, n: nat) -> Seq<NetEvent> {
    Seq::new(n, |i: int| NetEvent::Polled { link_up, has_address })
}

/// One connection attempt that comes through: `failures` failed
/// associations and one that succeeds, then `link_down` looks that find no
/// link, `no_address` looks that find the link without an address, one
/// that finds both, and the bus session.
pub open spec fn attempt(failures: nat, link_down: nat, no_address: nat) -> Seq<NetEvent> {
    failed_attempts(failures).push(
        NetEvent::Link { status: radio_up(), event: LinkEvent::Associated },
    ) + looks(false, false, link_down) + looks(true, false, no_address).push(
        NetEvent::Polled { link_up: true, has_address: true },
    ).push(NetEvent::SessionOpened)
}

/// Events in a row are events one after the other.
pub proof fn lemma_after_all_concat(sup: SupervisorModel, a: Seq<NetEvent>, b: Seq<NetEvent>)
    ensures
        sup.after_all(a + b) == sup.after_all(a).after_all(b),
        sup.backoff_through(a + b) == sup.backoff_through(a) + sup.after_all(a).backoff_through(b),
    decreases b.len(),
{
    if b.len() == 0 {
        assert(a + b =~= a);
    } else {
        lemma_after_all_concat(sup, a, b.drop_last());
        assert((a + b).drop_last() =~= a + b.drop_last());
        assert((a + b).last() == b.last());
    }
}

/// Two events in a row: the supervisor after both, and the backoff asked
/// for over both.
pub proof fn lemma_after_two(sup: SupervisorModel, first: NetEvent, second: NetEvent)
    ensures
        sup.after_all(seq![first, second]) == sup.after(first).after(second),
        sup.backoff_through(seq![first, second]) == sup.backoff(first) + sup.after(first).backoff(
            second,
        ),
{
    let none = Seq::<NetEvent>::empty();
    assert(seq![first, second].drop_last() =~= seq![first]);
    assert(seq![first].drop_last() =~= none);
    assert(sup.after_all(none) == sup);
    assert(sup.backoff_through(none) == 0);
    assert(sup.after_all(seq![first]) == sup.after(first));
    assert(sup.backoff_through(seq![first]) == sup.backoff(first));
}

/// No step but the loss of the link or a failed association moves the
/// state backwards, and those two move it to `Disconnected`.
pub proof fn lemma_forward_or_reset(sup: SupervisorModel, event: NetEvent)
    ensures
        sup.after(event).state.rank() >= sup.state.rank() || sup.after(event).state
            == ConnectivityState::Disconnected,
        sup.after(event).state.rank() < sup.state.rank() ==> (event matches NetEvent::Link {
            event: link,
            ..
        } && resets(link)),
        event matches NetEvent::Link { event: link, .. } && resets(link) ==> sup.after(event).state
            == ConnectivityState::Disconnected && sup.backoff(event) == BACKOFF_MS,
{
}

/// Failure is answered by backoff and another try, as often as it takes.
/// From a supervisor that is associating, `n` failed attempts leave it
/// associating again, having asked for `n` backoffs of `BACKOFF_MS`.
pub proof fn lemma_failures_are_retried(sup: SupervisorModel, n: nat)
    requires
        sup.phase == LinkPhase::Associating,
    ensures
        sup.after_all(failed_attempts(n)).phase == LinkPhase::Associating,
        sup.after_all(failed_attempts(n)).state == if n == 0 {
            sup.state
        } else {
            ConnectivityState::Disconnected
        },
        sup.backoff_through(failed_attempts(n)) == n * BACKOFF_MS,
    decreases n,
{
    if n > 0 {
        let before = failed_attempts((n - 1) as nat);
        let failed = NetEvent::Link { status: radio_down(), event: LinkEvent::AssociationFailed };
        let elapsed = NetEvent::Link { status: radio_down(), event: LinkEvent::BackoffElapsed };
        lemma_failures_are_retried(sup, (n - 1) as nat);
        assert(failed_attempts(n).drop_last() =~= before.push(failed));
        assert(before.push(failed).drop_last() =~= before);
        assert(sup.after_all(before.push(failed)).phase == LinkPhase::BackoffAfterFailure);
        assert(sup.backoff_through(before.push(failed)) == sup.backoff_through(before)
            + BACKOFF_MS);
        assert(sup.after_all(before.push(failed)).backoff(elapsed) == 0);
        assert(n * BACKOFF_MS == (n - 1) * BACKOFF_MS + BACKOFF_MS) by (nonlinear_arith);
    }
}

/// Looks at the network move nothing but the state, and ask for no
/// backoff.
pub proof fn lemma_looks(sup: SupervisorModel, link_up: bool, has_address: bool, n: nat)
    ensures
        sup.after_all(looks(link_up, has_address, n)).phase == sup.phase,
        sup.backoff_through(looks(link_up, has_address, n)) == 0,
        n == 0 ==> sup.after_all(looks(link_up, has_address, n)).state == sup.state,
        n > 0 ==> sup.after_all(looks(link_up, has_address, n)).state == sup.state.polled(
            link_up,
            has_address,
        ),
    decreases n,
{
    if n > 0 {
        lemma_looks(sup, link_up, has_address, (n - 1) as nat);
        assert(looks(link_up, has_address, n).drop_last() =~= looks(
            link_up,
            has_address,
            (n - 1) as nat,
        ));
    }
}

/// An attempt that comes through ends with the bus connected. From a
/// disconnected supervisor that is associating, after any number of
/// failed associations and any number of looks that find the network not
/// ready, the bus is connected as soon as the association holds, the link
/// is up, an address is held and the session is open. The backoff asked
/// for on the way is `BACKOFF_MS` for each failure and no more.
pub proof fn lemma_attempt_connects(
    sup: SupervisorModel,
    failures: nat,
    link_down: nat,
    no_address: nat,
)
    requires
        sup.phase == LinkPhase::Associating,
        sup.state == ConnectivityState::Disconnected,
    ensures
        sup.after_all(attempt(failures, link_down, no_address)).state
            == ConnectivityState::BusConnected,
        sup.after_all(attempt(failures, link_down, no_address)).phase
            == LinkPhase::AwaitingLinkLoss,
        sup.backoff_through(attempt(failures, link_down, no_address)) == failures * BACKOFF_MS,
{
    let associated = NetEvent::Link { status: radio_up(), event: LinkEvent::Associated };
    let ready = NetEvent::Polled { link_up: true, has_address: true };
    let a = failed_attempts(failures).push(associated);
    let b = looks(false, false, link_down);
    let c = looks(true, false, no_address).push(ready).push(NetEvent::SessionOpened);
    lemma_failures_are_retried(sup, failures);
    assert(a.drop_last() =~= failed_attempts(failures));
    let s1 = sup.after_all(a);
    assert(s1.state == ConnectivityState::Disconnected);
    assert(s1.phase == LinkPhase::AwaitingLinkLoss);
    assert(sup.backoff_through(a) == failures * BACKOFF_MS);
    lemma_looks(s1, false, false, link_down);
    let s2 = s1.after_all(b);
    assert(s2.state == ConnectivityState::Disconnected);
    lemma_looks(s2, true, false, no_address);
    let c0 = looks(true, false, no_address);
    assert(c.drop_last() =~= c0.push(ready));
    assert(c0.push(ready).drop_last() =~= c0);
    let s3 = s2.after_all(c0);
    assert(s3.state == ConnectivityState::Disconnected || s3.state == ConnectivityState::LinkUp);
    assert(s2.after_all(c0.push(ready)).state == ConnectivityState::AddressAcquired);
    assert(s2.backoff_through(c0.push(ready)) == 0);
    assert(s2.after_all(c).state == ConnectivityState::BusConnected);
    assert(s2.backoff_through(c) == 0);
    lemma_after_all_concat(sup, a, b);
    lemma_after_all_concat(sup, a + b, c);
}

/// The supervisor gets there from a cold start. It starts the radio,
/// associates, and, if association succeeds after finitely many failures,
/// reaches `BusConnected`, having backed off `BACKOFF_MS` once per
/// failure.
pub proof fn lemma_cold_start_connects(failures: nat, link_down: nat, no_address: nat)
    ensures
        ({
            let cold = RadioStatus { associated: false, started: false };
            let start = seq![
                NetEvent::Link { status: cold, event: LinkEvent::Boot },
                NetEvent::Link { status: radio_down(), event: LinkEvent::RadioStarted },
            ];
            let events = start + attempt(failures, link_down, no_address);
            &&& link_action(LinkPhase::Idle, cold, LinkEvent::Boot) == LinkAction::StartRadio
            &&& SupervisorModel::initial().after_all(events).state
                == ConnectivityState::BusConnected
            &&& SupervisorModel::initial().backoff_through(events) == failures * BACKOFF_MS
        }),
{
    let cold = RadioStatus { associated: false, started: false };
    let boot = NetEvent::Link { status: cold, event: LinkEvent::Boot };
    let started = NetEvent::Link { status: radio_down(), event: LinkEvent::RadioStarted };
    let start = seq![boot, started];
    let sup = SupervisorModel::initial();
    lemma_after_two(sup, boot, started);
    assert(sup.after_all(start).phase == LinkPhase::Associating);
    assert(sup.after_all(start).state == ConnectivityState::Disconnected);
    assert(sup.backoff_through(start) == 0);
    lemma_attempt_connects(sup.after_all(start), failures, link_down, no_address);
    lemma_after_all_concat(sup, start, attempt(failures, link_down, no_address));
}

/// A lost link is recovered from without help. Wherever the supervisor
/// stands, the loss of the link makes it `Disconnected` and asks for one
/// backoff of `BACKOFF_MS`; when that has passed it associates again, and
/// an attempt that comes through connects the bus as after a cold start.
pub proof fn lemma_link_loss_recovers(
    sup: SupervisorModel,
    status: RadioStatus,
    failures: nat,
    link_down: nat,
    no_address: nat,
)
    ensures
        ({
            let lost = NetEvent::Link { status, event: LinkEvent::LinkLost };
            let elapsed = NetEvent::Link { status: radio_down(), event: LinkEvent::BackoffElapsed };
            let events = seq![lost, elapsed] + attempt(failures, link_down, no_address);
            &&& sup.after(lost).state == ConnectivityState::Disconnected
            &&& link_action(sup.phase, status, LinkEvent::LinkLost) == LinkAction::Backoff(
                BACKOFF_MS,
            )
            &&& link_action(sup.after(lost).phase, radio_down(), LinkEvent::BackoffElapsed)
                == LinkAction::Associate
            &&& sup.after_all(events).state == ConnectivityState::BusConnected
            &&& sup.backoff_through(events) == BACKOFF_MS + failures * BACKOFF_MS
        }),
{
    let lost = NetEvent::Link { status, event: LinkEvent::LinkLost };
    let elapsed = NetEvent::Link { status: radio_down(), event: LinkEvent::BackoffElapsed };
    let first = seq![lost, elapsed];
    lemma_after_two(sup, lost, elapsed);
    assert(sup.after_all(first).phase == LinkPhase::Associating);
    assert(sup.after_all(first).state == ConnectivityState::Disconnected);
    assert(sup.backoff_through(first) == BACKOFF_MS);
    lemma_attempt_connects(sup.after_all(first), failures, link_down, no_address);
    lemma_after_all_concat(sup, first, attempt(failures, link_down, no_address));
}

} // verus!
