//! The command router: one inbound bus message at a time, matched against
//! the actuators it owns.
//!
//! A message triggers an actuator when its payload spells `fire` and its
//! topic is `device/<name>_trigger` for that actuator's name. Anything else
//! on the bus is other devices' traffic and is discarded without complaint.
//!
//! The router serves one pulse at a time. While a pulse is in flight it
//! looks at no message: the caller finishes the pulse and hands the message
//! in again, so that a trigger is neither dropped nor laid over another.

use vstd::prelude::*;
use vstd::string::*;
use crate::actuator::{Actuator, ActuatorModel, PULSE_MS};
use crate::text::{spells, str_eq, text_of};

verus! {

/// What every device topic starts with.
pub open spec fn device_prefix() -> Seq<char> {
    "device/"@
}

/// What a trigger topic ends with.
pub open spec fn trigger_suffix() -> Seq<char> {
    "_trigger"@
}

/// The payload that asks for a pulse.
pub open spec fn activation_keyword() -> Seq<char> {
    "fire"@
}

/// The topic on which the actuator called `name` listens.
pub open spec fn trigger_topic(name: Seq<char>) -> Seq<char> {
    device_prefix() + name + trigger_suffix()
}

/// The full topic of `channel` in the device's own namespace.
pub fn device_topic(channel: &str) -> (topic: String)
    ensures
        topic@ == device_prefix() + channel@,
{
    let mut topic = String::from_str("device/");
    topic.append(channel);
    topic
}

/// An inbound bus message as a plain value.
pub struct CommandModel {
    pub topic: Seq<char>,
    pub payload: Seq<u8>,
}

impl CommandModel {
    /// Whether this message asks the actuator called `name` for a pulse.
    pub open spec fn triggers(self, name: Seq<char>) -> bool {
        text_of(self.payload) == Some(activation_keyword()) && self.topic == trigger_topic(name)
    }
}

/// An inbound bus message: borrowed from the session that delivered it,
/// looked at once, and dropped.
#[derive(Clone, Copy, Debug)]
pub struct Command<'a> {
    topic: &'a str,
    payload: &'a [u8],
}

impl<'a> View for Command<'a> {
    type V = CommandModel;

    closed spec fn view(&self) -> CommandModel {
        CommandModel { topic: self.topic@, payload: self.payload@ }
    }
}

impl<'a> Command<'a> {
    /// A message with the full topic it arrived on and its raw payload.
    pub fn new(topic: &'a str, payload: &'a [u8]) -> (command: Command<'a>)
        ensures
            command@.topic == topic@,
            command@.payload == payload@,
    {
        Command { topic, payload }
    }

    /// The topic the message arrived on.
    pub fn topic(&self) -> (topic: &'a str)
        ensures
            topic@ == self@.topic,
    {
        self.topic
    }

    /// The raw payload.
    pub fn payload(&self) -> (payload: &'a [u8])
        ensures
            payload@ == self@.payload,
    {
        self.payload
    }
}

/// Two names with the same trigger topic are the same name.
pub proof fn lemma_trigger_topic_names(a: Seq<char>, b: Seq<char>)
    requires
        trigger_topic(a) == trigger_topic(b),
    ensures
        a == b,
{
    let p = device_prefix();
    let s = trigger_suffix();
    assert(trigger_topic(a).len() == p.len() + a.len() + s.len());
    assert(trigger_topic(b).len() == p.len() + b.len() + s.len());
    assert forall|i: int| 0 <= i < a.len() implies a[i] == b[i] by {
        assert(trigger_topic(a)[p.len() + i] == a[i]);
        assert(trigger_topic(b)[p.len() + i] == b[i]);
    }
    assert(a =~= b);
}

/// Why the router turned an actuator away.
#[derive(Clone, Copy, Debug, PartialEq, Eq, Structural)]
pub enum Rejected {
    /// Another actuator of the router already has this name.
    NameTaken,
    /// The actuator is in the middle of a pulse.
    PulseInFlight,
}

/// What the router made of one message.
#[derive(Clone, Copy, Debug, PartialEq, Eq, Structural)]
pub enum Dispatch {
    /// The message concerns none of the actuators. Take the next one.
    Discard,
    /// A pulse has started on this actuator: its line is high. Hold it for
    /// `hold_ms` milliseconds, then call `Router::release`.
    Pulse { actuator: usize, hold_ms: u64 },
    /// A pulse is in flight on this actuator and the message was not looked
    /// at. Finish the pulse, then hand the same message in again.
    Busy { actuator: usize },
}

/// The router as a plain value: its actuators in the order they were added.
pub struct RouterModel {
    pub actuators: Seq<ActuatorModel>,
}

impl RouterModel {
    /// No two actuators share a name, and at most one pulse is in flight.
    pub open spec fn wf(self) -> bool {
        &&& forall|i: int, j: int|
            0 <= i < self.actuators.len() && 0 <= j < self.actuators.len()
                && #[trigger] self.actuators[i].name == #[trigger] self.actuators[j].name ==> i
                == j
        &&& forall|i: int, j: int|
            0 <= i < self.actuators.len() && 0 <= j < self.actuators.len()
                && #[trigger] self.actuators[i].high && #[trigger] self.actuators[j].high ==> i
                == j
    }

    /// Whether the actuator at `i` has a pulse in flight.
    pub open spec fn pulsing(self, i: int) -> bool {
        0 <= i < self.actuators.len() && self.actuators[i].high
    }

    /// Whether no pulse is in flight.
    pub open spec fn idle(self) -> bool {
        forall|i: int| !self.pulsing(i)
    }

    /// Whether `command` asks the actuator at `i` for a pulse.
    pub open spec fn targets(self, command: CommandModel, i: int) -> bool {
        0 <= i < self.actuators.len() && command.triggers(self.actuators[i].name)
    }

    /// Whether some actuator goes by `name`.
    pub open spec fn has_name(self, name: Seq<char>) -> bool {
        exists|i: int| 0 <= i < self.actuators.len() && #[trigger] self.actuators[i].name == name
    }

    /// The router with the pulse started on the actuator at `i`.
    pub open spec fn started(self, i: int) -> RouterModel {
        RouterModel { actuators: self.actuators.update(i, self.actuators[i].toggled()) }
    }

    /// The router with the actuator at `i` released.
    pub open spec fn released(self, i: int) -> RouterModel {
        RouterModel { actuators: self.actuators.update(i, self.actuators[i].released()) }
    }
}

/// A message is for one actuator at most: names are unique, and a topic
/// is the trigger topic of one name only.
pub proof fn lemma_one_target(router: RouterModel, command: CommandModel, i: int, j: int)
    requires
        router.wf(),
        router.targets(command, i),
        router.targets(command, j),
    ensures
        i == j,
{
    lemma_trigger_topic_names(router.actuators[i].name, router.actuators[j].name);
}

/// Starting a pulse on a router at rest keeps it well-formed, with that
/// one pulse in flight.
pub proof fn lemma_started(router: RouterModel, i: int)
    requires
        router.wf(),
        router.idle(),
        0 <= i < router.actuators.len(),
    ensures
        router.started(i).wf(),
        router.started(i).pulsing(i),
        forall|k: int| router.started(i).pulsing(k) ==> k == i,
{
    let after = router.started(i);
    assert forall|a: int, b: int|
        0 <= a < after.actuators.len() && 0 <= b < after.actuators.len()
            && #[trigger] after.actuators[a].name == #[trigger] after.actuators[b].name implies a
        == b by {
        assert(router.actuators[a].name == router.actuators[b].name);
    }
    assert forall|k: int| after.pulsing(k) implies k == i by {
        assert(!router.pulsing(k));
    }
    assert forall|a: int, b: int|
        0 <= a < after.actuators.len() && 0 <= b < after.actuators.len()
            && #[trigger] after.actuators[a].high && #[trigger] after.actuators[b].high implies a
        == b by {
        assert(after.pulsing(a) && after.pulsing(b));
    }
}

/// Releasing the actuator whose pulse is in flight keeps the router
/// well-formed and leaves it at rest.
pub proof fn lemma_released(router: RouterModel, i: int)
    requires
        router.wf(),
        router.pulsing(i),
    ensures
        router.released(i).wf(),
        router.released(i).idle(),
{
    let after = router.released(i);
    assert forall|a: int, b: int|
        0 <= a < after.actuators.len() && 0 <= b < after.actuators.len()
            && #[trigger] after.actuators[a].name == #[trigger] after.actuators[b].name implies a
        == b by {
        assert(router.actuators[a].name == router.actuators[b].name);
    }
    assert forall|k: int| !after.pulsing(k) by {
        if 0 <= k < router.actuators.len() && k != i {
            assert(router.actuators[i].high);
            assert(!router.actuators[k].high);
        }
    }
}

/// Taking in an actuator at rest under a new name keeps the router
/// well-formed and changes nothing about the pulse in flight.
pub proof fn lemma_added(router: RouterModel, actuator: ActuatorModel)
    requires
        router.wf(),
        !router.has_name(actuator.name),
        !actuator.high,
    ensures
        (RouterModel { actuators: router.actuators.push(actuator) }).wf(),
        forall|k: int|
            (RouterModel { actuators: router.actuators.push(actuator) }).pulsing(k)
                == router.pulsing(k),
{
    let after = RouterModel { actuators: router.actuators.push(actuator) };
    let n = router.actuators.len() as int;
    assert forall|a: int, b: int|
        0 <= a < after.actuators.len() && 0 <= b < after.actuators.len()
            && #[trigger] after.actuators[a].name == #[trigger] after.actuators[b].name implies a
        == b by {
        if a < n && b < n {
            assert(router.actuators[a].name == router.actuators[b].name);
        } else if a < n {
            assert(router.actuators[a].name == actuator.name);
        } else if b < n {
            assert(router.actuators[b].name == actuator.name);
        }
    }
    assert forall|a: int, b: int|
        0 <= a < after.actuators.len() && 0 <= b < after.actuators.len()
            && #[trigger] after.actuators[a].high && #[trigger] after.actuators[b].high implies a
        == b by {
        assert(a < n && b < n);
        assert(router.actuators[a].high && router.actuators[b].high);
    }
}

/// Owns the actuators and decides which of them a message is for.
#[derive(Debug)]
pub struct Router {
    actuators: Vec<Actuator>,
    /// The trigger topic of each actuator, built once when it is added.
    topics: Vec<String>,
    /// The actuator whose pulse is in flight.
    in_flight: Option<usize>,
}

impl View for Router {
    type V = RouterModel;

    closed spec fn view(&self) -> RouterModel {
        RouterModel { actuators: Seq::new(self.actuators@.len(), |i: int| self.actuators@[i]@) }
    }
}

impl Router {
    /// The router's invariant: what `RouterModel::wf` says of its view, and
    /// a trigger topic on file for every actuator.
    pub closed spec fn wf(&self) -> bool {
        &&& self@.wf()
        &&& self.topics@.len() == self.actuators@.len()
        &&& forall|i: int|
            0 <= i < self.topics@.len() ==> (#[trigger] self.topics@[i])@ == trigger_topic(
                self.actuators@[i]@.name,
            )
        &&& match self.in_flight {
            Some(k) => self@.pulsing(k as int),
            None => self@.idle(),
        }
    }

    /// A router without actuators.
    pub fn new() -> (router: Router)
        ensures
            router.wf(),
            router@.wf(),
            router@.actuators.len() == 0,
    {
        let router = Router { actuators: Vec::new(), topics: Vec::new(), in_flight: None };
        assert(router@.actuators =~= Seq::empty());
        router
    }

    /// How many actuators the router owns.
    pub fn len(&self) -> (n: usize)
        ensures
            n == self@.actuators.len(),
    {
        self.actuators.len()
    }

    /// The actuator at `index`, in the order of adding.
    pub fn actuator(&self, index: usize) -> (found: Option<&Actuator>)
        ensures
            match found {
                Some(actuator) => index < self@.actuators.len() && actuator@
                    == self@.actuators[index as int],
                None => index >= self@.actuators.len(),
            },
    {
        if index < self.actuators.len() {
            Some(&self.actuators[index])
        } else {
            None
        }
    }

    /// The topic on which the actuator at `index` listens, for subscribing.
    pub fn trigger_topic(&self, index: usize) -> (found: Option<&str>)
        requires
            self.wf(),
        ensures
            match found {
                Some(topic) => index < self@.actuators.len() && topic@ == trigger_topic(
                    self@.actuators[index as int].name,
                ),
                None => index >= self@.actuators.len(),
            },
    {
        if index < self.topics.len() {
            Some(self.topics[index].as_str())
        } else {
            None
        }
    }

    /// The actuator whose pulse is in flight, if there is one.
    pub fn in_flight(&self) -> (found: Option<usize>)
        requires
            self.wf(),
        ensures
            self@.wf(),
            match found {
                Some(k) => self@.pulsing(k as int),
                None => self@.idle(),
            },
    {
        self.in_flight
    }

    /// Takes an actuator in, at the index that is returned. An actuator
    /// whose name is taken, or which is in the middle of a pulse, is turned
    /// away and the router stays as it was.
    pub fn add(&mut self, actuator: Actuator) -> (added: Result<usize, Rejected>)
        requires
            old(self).wf(),
        ensures
            final(self).wf(),
            final(self)@.wf(),
            match added {
                Ok(index) => {
                    &&& !old(self)@.has_name(actuator@.name)
                    &&& !actuator@.high
                    &&& index == old(self)@.actuators.len()
                    &&& final(self)@.actuators == old(self)@.actuators.push(actuator@)
                },
                Err(Rejected::NameTaken) => {
                    &&& old(self)@.has_name(actuator@.name)
                    &&& final(self)@ == old(self)@
                },
                Err(Rejected::PulseInFlight) => {
                    &&& !old(self)@.has_name(actuator@.name)
                    &&& actuator@.high
                    &&& final(self)@ == old(self)@
                },
            },
    {
        let n: usize = self.actuators.len();
        let mut i: usize = 0;
        while i < n
            invariant
                n == self.actuators@.len(),
                0 <= i <= n,
                *self == *old(self),
                self.wf(),
                forall|j: int| 0 <= j < i ==> self@.actuators[j].name != actuator@.name,
            decreases n - i,
        {
            if str_eq(self.actuators[i].name(), actuator.name()) {
                assert(self@.actuators[i as int].name == actuator@.name);
                return Err(Rejected::NameTaken);
            }
            i += 1;
        }
        if actuator.is_pulsing() {
            return Err(Rejected::PulseInFlight);
        }
        let mut topic = device_topic(actuator.name());
        topic.append("_trigger");
        let ghost before = self@;
        let ghost fresh = actuator@;
        self.topics.push(topic);
        self.actuators.push(actuator);
        proof {
            assert(self@.actuators =~= before.actuators.push(fresh));
            assert(!before.has_name(fresh.name));
            lemma_added(before, fresh);
            assert(self.topics@[n as int]@ =~= trigger_topic(fresh.name));
            assert forall|j: int| 0 <= j < self.topics@.len() implies (#[trigger] self.topics@[j])@
                == trigger_topic(self.actuators@[j]@.name) by {
                if j < n {
                    assert(self.topics@[j] == old(self).topics@[j]);
                    assert(self.actuators@[j] == old(self).actuators@[j]);
                }
            }
            match self.in_flight {
                Some(k) => {
                    assert(before.pulsing(k as int));
                    assert(self@.pulsing(k as int));
                },
                None => {
                    assert forall|k: int| !self@.pulsing(k) by {
                        assert(!before.pulsing(k));
                    }
                },
            }
        }
        Ok(n)
    }

    /// Which actuator `command` is for: the one whose trigger topic the
    /// message arrived on, provided the payload spells the keyword.
    pub fn route(&self, command: &Command) -> (target: Option<usize>)
        requires
            self.wf(),
        ensures
            self@.wf(),
            match target {
                Some(i) => self@.targets(command@, i as int),
                None => forall|j: int| !self@.targets(command@, j),
            },
    {
        if !spells(command.payload(), "fire") {
            return None;
        }
        let n: usize = self.topics.len();
        let mut i: usize = 0;
        while i < n
            invariant
                self.wf(),
                n == self.topics@.len(),
                0 <= i <= n,
                text_of(command@.payload) == Some(activation_keyword()),
                forall|j: int| 0 <= j < i ==> !self@.targets(command@, j),
            decreases n - i,
        {
            if str_eq(command.topic(), self.topics[i].as_str()) {
                assert(self@.targets(command@, i as int));
                return Some(i);
            }
            i += 1;
        }
        None
    }

    /// Starts the pulse on the actuator at `index` of a router at rest.
    fn start(&mut self, index: usize) -> (hold_ms: u64)
        requires
            old(self).wf(),
            old(self)@.idle(),
            index < old(self)@.actuators.len(),
        ensures
            hold_ms == PULSE_MS,
            final(self)@ == old(self)@.started(index as int),
            final(self).wf(),
            final(self)@.wf(),
    {
        let ghost before = self@;
        assert(!before.pulsing(index as int));
        let hold = self.actuators[index].toggle();
        self.in_flight = Some(index);
        proof {
            assert(self@.actuators =~= before.started(index as int).actuators);
            lemma_started(before, index as int);
        }
        match hold {
            Some(ms) => ms,
            None => PULSE_MS,
        }
    }

    /// Ends the pulse in flight: drives that actuator's line low and says
    /// which one it was. Without a pulse in flight nothing changes.
    pub fn release(&mut self) -> (released: Option<usize>)
        requires
            old(self).wf(),
        ensures
            final(self).wf(),
            final(self)@.wf(),
            final(self)@.idle(),
            match released {
                Some(k) => old(self)@.pulsing(k as int) && final(self)@ == old(self)@.released(
                    k as int,
                ),
                None => old(self)@.idle() && final(self)@ == old(self)@,
            },
    {
        match self.in_flight {
            None => None,
            Some(k) => {
                let ghost before = self@;
                self.actuators[k].release();
                self.in_flight = None;
                proof {
                    assert(self@.actuators =~= before.released(k as int).actuators);
                    lemma_released(before, k as int);
                }
                Some(k)
            },
        }
    }
}

/// One turn of the routing loop. With a pulse in flight the router is
/// busy and leaves the message alone. Otherwise the actuator that the
/// message is for starts its pulse; a message for none is discarded.
pub fn mqtt_connection_task(router: &mut Router, command: &Command) -> (dispatch: Dispatch)
    requires
        old(router).wf(),
    ensures
        final(router).wf(),
        final(router)@.wf(),
        match dispatch {
            Dispatch::Busy { actuator } => {
                &&& old(router)@.pulsing(actuator as int)
                &&& final(router)@ == old(router)@
            },
            Dispatch::Pulse { actuator, hold_ms } => {
                &&& old(router)@.idle()
                &&& old(router)@.targets(command@, actuator as int)
                &&& hold_ms == PULSE_MS
                &&& final(router)@ == old(router)@.started(actuator as int)
            },
            Dispatch::Discard => {
                &&& old(router)@.idle()
                &&& forall|j: int| !old(router)@.targets(command@, j)
                &&& final(router)@ == old(router)@
            },
        },
{
    if let Some(k) = router.in_flight() {
        return Dispatch::Busy { actuator: k };
    }
    match router.route(command) {
        None => Dispatch::Discard,
        Some(i) => {
            let hold_ms = router.start(i);
            Dispatch::Pulse { actuator: i, hold_ms }
        },
    }
}

} // verus!
