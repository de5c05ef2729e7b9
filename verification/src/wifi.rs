//! Bring-up of a station-mode Wi-Fi link.

use vstd::prelude::*;
use vstd::string::StringExecFns;

verus! {

/// Network name and passphrase of the access point to join. Both may be empty.
#[derive(Debug)]
pub struct Credentials {
    pub ssid: String,
    pub passphrase: String,
}

impl Credentials {
    pub fn new(ssid: &str, passphrase: &str) -> (r: Credentials)
        ensures
            r.ssid@ == ssid@,
            r.passphrase@ == passphrase@,
    {
        Credentials { ssid: String::from_str(ssid), passphrase: String::from_str(passphrase) }
    }
}

/// Where a session stands on its way to the access point.
#[derive(Clone, Copy, Debug, PartialEq, Eq, Structural)]
pub enum LinkState {
    Unconfigured,
    Configured,
    Started,
    Connecting,
    Connected,
}

/// What the owner of the interface has to do next.
#[derive(Clone, Copy, Debug, PartialEq, Eq, Structural)]
pub enum LinkAction {
    /// Apply the credentials in client mode.
    Configure,
    /// Start the interface.
    Start,
    /// Initiate the association.
    Connect,
    /// Ask the interface whether it is connected, and report progress while
    /// it is not.
    Poll,
    /// The link is up: network traffic may begin.
    Proceed,
}

/// What the platform answered to the last action.
#[derive(Clone, Copy, Debug, PartialEq, Eq, Structural)]
pub enum LinkEvent {
    /// `Configure`, `Start` or `Connect` was carried out.
    Applied,
    /// The interface answered a poll; `true` when it is connected.
    Polled(bool),
}

/// The action that each state calls for.
pub open spec fn action_in(state: LinkState) -> LinkAction {
    match state {
        LinkState::Unconfigured => LinkAction::Configure,
        LinkState::Configured => LinkAction::Start,
        LinkState::Started => LinkAction::Connect,
        LinkState::Connecting => LinkAction::Poll,
        LinkState::Connected => LinkAction::Proceed,
    }
}

/// The state that follows `state` on `event`. An event that does not answer
/// the state's action leaves the state as it is.
pub open spec fn state_after(state: LinkState, event: LinkEvent) -> LinkState {
    match (state, event) {
        (LinkState::Unconfigured, LinkEvent::Applied) => LinkState::Configured,
        (LinkState::Configured, LinkEvent::Applied) => LinkState::Started,
        (LinkState::Started, LinkEvent::Applied) => LinkState::Connecting,
        (LinkState::Connecting, LinkEvent::Polled(true)) => LinkState::Connected,
        _ => state,
    }
}

/// The state reached from `state` after all of `events`, in order.
pub open spec fn state_after_all(state: LinkState, events: Seq<LinkEvent>) -> LinkState
    decreases events.len(),
{
    if events.len() == 0 {
        state
    } else {
        state_after(state_after_all(state, events.drop_last()), events.last())
    }
}

/// How far along a state is.
pub open spec fn progress(state: LinkState) -> nat {
    match state {
        LinkState::Unconfigured => 0,
        LinkState::Configured => 1,
        LinkState::Started => 2,
        LinkState::Connecting => 3,
        LinkState::Connected => 4,
    }
}

/// The bring-up script: three acknowledgements, `misses` polls that find the
/// link down, and one that finds it up.
pub open spec fn patient_script(misses: nat) -> Seq<LinkEvent> {
    seq![LinkEvent::Applied, LinkEvent::Applied, LinkEvent::Applied] + Seq::new(
        misses,
        |i: int| LinkEvent::Polled(false),
    ).push(LinkEvent::Polled(true))
}

/// A Wi-Fi session: the credentials it was made with and its state.
#[derive(Debug)]
pub struct Session {
    credentials: Credentials,
    state: LinkState,
}

impl Session {
    pub closed spec fn spec_state(&self) -> LinkState {
        self.state
    }

    pub closed spec fn spec_credentials(&self) -> Credentials {
        self.credentials
    }

    /// A fresh session, not yet configured.
    pub fn new(credentials: Credentials) -> (r: Session)
        ensures
            r.spec_state() == LinkState::Unconfigured,
            r.spec_credentials() == credentials,
    {
        Session { credentials, state: LinkState::Unconfigured }
    }

    #[verifier::when_used_as_spec(spec_state)]
    pub fn state(&self) -> (r: LinkState)
        ensures
            r == self.spec_state(),
    {
        self.state
    }

    pub fn credentials(&self) -> (r: &Credentials)
        ensures
            *r == self.spec_credentials(),
    {
        &self.credentials
    }

    /// Whether the link is up, that is whether network traffic may begin.
    pub fn is_connected(&self) -> (r: bool)
        ensures
            r == (self.spec_state() == LinkState::Connected),
    {
        self.state == LinkState::Connected
    }

    /// What to do next.
    pub fn next_action(&self) -> (r: LinkAction)
        ensures
            r == action_in(self.spec_state()),
            r == LinkAction::Proceed <==> self.spec_state() == LinkState::Connected,
    {
        match self.state {
            LinkState::Unconfigured => LinkAction::Configure,
            LinkState::Configured => LinkAction::Start,
            LinkState::Started => LinkAction::Connect,
            LinkState::Connecting => LinkAction::Poll,
            LinkState::Connected => LinkAction::Proceed,
        }
    }

    /// Takes in the platform's answer to the last action.
    pub fn advance(&mut self, event: LinkEvent)
        ensures
            final(self).spec_state() == state_after(old(self).spec_state(), event),
            final(self).spec_credentials() == old(self).spec_credentials(),
    {
        let next: LinkState = match (self.state, event) {
            (LinkState::Unconfigured, LinkEvent::Applied) => LinkState::Configured,
            (LinkState::Configured, LinkEvent::Applied) => LinkState::Started,
            (LinkState::Started, LinkEvent::Applied) => LinkState::Connecting,
            (LinkState::Connecting, LinkEvent::Polled(true)) => LinkState::Connected,
            (state, _) => state,
        };
        self.state = next;
    }
}

/// No event takes a session back, and none takes it further than one state.
pub proof fn lemma_one_state_at_a_time(state: LinkState, event: LinkEvent)
    ensures
        progress(state) <= progress(state_after(state, event)) <= progress(state) + 1,
        state == LinkState::Connected ==> state_after(state, event) == LinkState::Connected,
{
}

/// A session is connected only after a poll has found the link up, and
/// only after the interface was configured, started and asked to connect:
/// whatever the events, a fresh session that ends up connected has seen a
/// positive poll, preceded by at least three other events.
pub proof fn lemma_connected_only_after_positive_poll(events: Seq<LinkEvent>)
    requires
        state_after_all(LinkState::Unconfigured, events) == LinkState::Connected,
    ensures
        exists|i: int|
            3 <= i < events.len() && events[i] == LinkEvent::Polled(true)
                && state_after_all(LinkState::Unconfigured, events.take(i))
                == LinkState::Connecting,
    decreases events.len(),
{
    lemma_progress_bounded(events);
    let before = events.drop_last();
    if state_after_all(LinkState::Unconfigured, before) == LinkState::Connected {
        lemma_connected_only_after_positive_poll(before);
        let i = choose|i: int|
            3 <= i < before.len() && before[i] == LinkEvent::Polled(true) && state_after_all(
                LinkState::Unconfigured,
                before.take(i),
            ) == LinkState::Connecting;
        assert(before.take(i) == events.take(i));
        assert(events[i] == before[i]);
    } else {
        let i = events.len() - 1;
        lemma_progress_bounded(before);
        assert(events.take(i) == before);
    }
}

/// A fresh session has advanced by at most one state for each event.
pub proof fn lemma_progress_bounded(events: Seq<LinkEvent>)
    ensures
        progress(state_after_all(LinkState::Unconfigured, events)) <= events.len(),
    decreases events.len(),
{
    if events.len() > 0 {
        lemma_progress_bounded(events.drop_last());
        lemma_one_state_at_a_time(
            state_after_all(LinkState::Unconfigured, events.drop_last()),
            events.last(),
        );
    }
}

/// Whatever the credentials, the bring-up script ends connected, and every
/// proper prefix of it ends short of that: until the last poll the session
/// asks for something other than `Proceed`.
pub proof fn lemma_script_connects_at_its_end(misses: nat, n: int)
    requires
        0 <= n <= patient_script(misses).len(),
    ensures
        patient_script(misses).len() == misses + 4,
        state_after_all(LinkState::Unconfigured, patient_script(misses).take(n))
            == LinkState::Connected <==> n == misses + 4,
        action_in(state_after_all(LinkState::Unconfigured, patient_script(misses).take(n)))
            == LinkAction::Proceed <==> n == misses + 4,
{
    lemma_script_prefix_state(misses, n);
}

/// The state after the first `n` events of the bring-up script.
pub proof fn lemma_script_prefix_state(misses: nat, n: int)
    requires
        0 <= n <= patient_script(misses).len(),
    ensures
        progress(state_after_all(LinkState::Unconfigured, patient_script(misses).take(n))) == (if n
            <= 3 {
            n
        } else if n < misses + 4 {
            3
        } else {
            4
        }),
    decreases n,
{
    let script = patient_script(misses);
    let prefix = script.take(n);
    assert(script.len() == misses + 4);
    if n > 0 {
        lemma_script_prefix_state(misses, n - 1);
        assert(prefix.drop_last() == script.take(n - 1));
        assert(prefix.last() == script[n - 1]);
        assert(script[n - 1] == (if n <= 3 {
            LinkEvent::Applied
        } else if n < misses + 4 {
            LinkEvent::Polled(false)
        } else {
            LinkEvent::Polled(true)
        }));
    }
}

} // verus!
