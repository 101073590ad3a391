//! The sign-in ceremony: open the browser, find a free loopback port, start
//! the redirect listener on it, and tell the caller how it went.
//!
//! Opening a browser, probing a port and starting a listener are done by the
//! caller. The ceremony decides: it names the next thing to do as a
//! [`SignInAction`] and takes what came of it as a [`SignInEvent`].

use crate::ports::candidate_ports;
use crate::ports::first_free;
use crate::ports::lemma_first_free_skips_occupied;
use crate::ports::lemma_none_free_iff_all_occupied;
use crate::ports::occupied_before;
use crate::ports::CANDIDATE_PORTS;
use vstd::prelude::*;
use vstd::string::*;

verus! {

/// What the caller is told when the browser could not be opened; the cause follows.
pub const LAUNCH_FAILURE_PREFIX: &'static str = "Failed to open URL in browser: ";

/// What the caller is told when every candidate port is in use.
pub const NO_PORT_MESSAGE: &'static str = "No available ports found";

/// Where a ceremony stands.
#[derive(Clone, Copy, Debug, PartialEq, Eq, Structural)]
pub enum SignInState {
    /// The browser was asked for; its answer is awaited.
    AwaitingBrowser,
    /// The candidate at `index` is being probed.
    Probing { index: usize },
    /// The listener was started on `port`; the caller was told of success.
    Listening { port: u16 },
    /// The caller was told of a failure; no listener was started.
    Failed,
}

/// What the outside world answered.
#[derive(Debug, PartialEq, Eq)]
pub enum SignInEvent {
    /// The browser was opened at the authorization URL.
    BrowserOpened,
    /// The browser could not be opened.
    BrowserFailed { cause: String },
    /// The port that was to be probed is free (`available`) or in use.
    PortProbed { available: bool },
}

/// What the caller has to do next.
#[derive(Debug, PartialEq, Eq)]
pub enum SignInAction {
    /// Open the system browser at `url`.
    OpenBrowser { url: String },
    /// Try to bind `port` on the loopback interface, and release it again.
    ProbePort { port: u16 },
    /// Start the redirect listener on `port` in the background and report success.
    StartListener { port: u16 },
    /// Report `message` as the error; start nothing.
    Fail { message: String },
    /// The event does not belong to this state: do nothing.
    Ignore,
}

/// A [`SignInEvent`] with its text as a sequence of characters.
pub ghost enum SignInEventView {
    BrowserOpened,
    BrowserFailed { cause: Seq<char> },
    PortProbed { available: bool },
}

/// A [`SignInAction`] with its text as a sequence of characters.
pub ghost enum SignInActionView {
    OpenBrowser { url: Seq<char> },
    ProbePort { port: u16 },
    StartListener { port: u16 },
    Fail { message: Seq<char> },
    Ignore,
}

impl View for SignInEvent {
    type V = SignInEventView;

    open spec fn view(&self) -> SignInEventView {
        match *self {
            SignInEvent::BrowserOpened => SignInEventView::BrowserOpened,
            SignInEvent::BrowserFailed { cause } => SignInEventView::BrowserFailed { cause: cause@ },
            SignInEvent::PortProbed { available } => SignInEventView::PortProbed { available },
        }
    }
}

impl View for SignInAction {
    type V = SignInActionView;

    open spec fn view(&self) -> SignInActionView {
        match *self {
            SignInAction::OpenBrowser { url } => SignInActionView::OpenBrowser { url: url@ },
            SignInAction::ProbePort { port } => SignInActionView::ProbePort { port },
            SignInAction::StartListener { port } => SignInActionView::StartListener { port },
            SignInAction::Fail { message } => SignInActionView::Fail { message: message@ },
            SignInAction::Ignore => SignInActionView::Ignore,
        }
    }
}

/// The error message for a browser that failed with `cause`.
pub open spec fn launch_failure(cause: Seq<char>) -> Seq<char> {
    LAUNCH_FAILURE_PREFIX@ + cause
}

/// What probing goes on with when the candidates before `index` are used up:
/// the candidate at `index`, or failure when there is none.
pub open spec fn probe_from(candidates: Seq<u16>, index: int) -> (SignInState, SignInActionView) {
    if 0 <= index < candidates.len() && index <= usize::MAX {
        (
            SignInState::Probing { index: index as usize },
            SignInActionView::ProbePort { port: candidates[index] },
        )
    } else {
        (SignInState::Failed, SignInActionView::Fail { message: NO_PORT_MESSAGE@ })
    }
}

/// The rules of the ceremony: the state that follows `state` on `event`, and
/// what the caller has to do then.
pub open spec fn transition(candidates: Seq<u16>, state: SignInState, event: SignInEventView) -> (
    SignInState,
    SignInActionView,
) {
    match (state, event) {
        (SignInState::AwaitingBrowser, SignInEventView::BrowserOpened) => probe_from(candidates, 0),
        (SignInState::AwaitingBrowser, SignInEventView::BrowserFailed { cause }) => (
            SignInState::Failed,
            SignInActionView::Fail { message: launch_failure(cause) },
        ),
        (SignInState::Probing { index }, SignInEventView::PortProbed { available }) => {
            if index >= candidates.len() {
                (state, SignInActionView::Ignore)
            } else if available {
                (
                    SignInState::Listening { port: candidates[index as int] },
                    SignInActionView::StartListener { port: candidates[index as int] },
                )
            } else {
                probe_from(candidates, index + 1)
            }
        },
        _ => (state, SignInActionView::Ignore),
    }
}

/// A ceremony as contracts see it.
pub ghost struct SignInView {
    pub candidates: Seq<u16>,
    pub state: SignInState,
}

/// One sign-in ceremony: the ports it may use and where it stands.
#[derive(Debug)]
pub struct SignIn {
    candidates: Vec<u16>,
    state: SignInState,
}

impl View for SignIn {
    type V = SignInView;

    closed spec fn view(&self) -> SignInView {
        SignInView { candidates: self.candidates@, state: self.state }
    }
}

impl SignIn {
    /// A ceremony never probes beyond its candidates.
    #[verifier::type_invariant]
    spec fn probes_a_candidate(self) -> bool {
        self.state matches SignInState::Probing { index } ==> index < self.candidates.len()
    }

    /// Begins a ceremony for the authorization `url` that may use `candidates`,
    /// in this order. The first thing to do is to open the browser at `url`.
    pub fn begin(url: String, candidates: Vec<u16>) -> (started: (SignIn, SignInAction))
        ensures
            started.0@ == (SignInView {
                candidates: candidates@,
                state: SignInState::AwaitingBrowser,
            }),
            started.1@ == (SignInActionView::OpenBrowser { url: url@ }),
    {
        (
            SignIn { candidates, state: SignInState::AwaitingBrowser },
            SignInAction::OpenBrowser { url },
        )
    }

    /// Where the ceremony stands.
    pub fn state(&self) -> (state: SignInState)
        ensures
            state == self@.state,
            state matches SignInState::Probing { index } ==> index < self@.candidates.len(),
    {
        proof {
            use_type_invariant(self);
        }
        self.state
    }

    /// The port that the listener was started on, once it was.
    pub fn chosen_port(&self) -> (port: Option<u16>)
        ensures
            port == chosen_port_of(self@.state),
    {
        match self.state {
            SignInState::Listening { port } => Some(port),
            _ => None,
        }
    }

    /// Whether the caller has been given its answer.
    pub fn is_finished(&self) -> (finished: bool)
        ensures
            finished == is_final(self@.state),
    {
        match self.state {
            SignInState::Listening { .. } => true,
            SignInState::Failed => true,
            _ => false,
        }
    }

    /// Takes what the outside world answered and returns what to do next, as
    /// `transition` rules. An event that does not belong to the state changes
    /// nothing and is answered by `Ignore`.
    pub fn handle(&mut self, event: SignInEvent) -> (action: SignInAction)
        ensures
            final(self)@.candidates == old(self)@.candidates,
            (final(self)@.state, action@) == transition(
                old(self)@.candidates,
                old(self)@.state,
                event@,
            ),
    {
        proof {
            use_type_invariant(&*self);
        }
        match self.state {
            SignInState::AwaitingBrowser => match event {
                SignInEvent::BrowserOpened => self.probe(0),
                SignInEvent::BrowserFailed { cause } => {
                    self.state = SignInState::Failed;
                    SignInAction::Fail { message: launch_failure_message(cause.as_str()) }
                },
                SignInEvent::PortProbed { .. } => SignInAction::Ignore,
            },
            SignInState::Probing { index } => match event {
                SignInEvent::PortProbed { available } => {
                    if available {
                        let port = self.candidates[index];
                        self.state = SignInState::Listening { port };
                        SignInAction::StartListener { port }
                    } else {
                        self.probe(index + 1)
                    }
                },
                _ => SignInAction::Ignore,
            },
            _ => SignInAction::Ignore,
        }
    }

    /// Goes on with the candidate at `index`, or fails when there is none.
    fn probe(&mut self, index: usize) -> (action: SignInAction)
        ensures
            final(self)@.candidates == old(self)@.candidates,
            (final(self)@.state, action@) == probe_from(old(self)@.candidates, index as int),
    {
        if index < self.candidates.len() {
            self.state = SignInState::Probing { index };
            SignInAction::ProbePort { port: self.candidates[index] }
        } else {
            self.state = SignInState::Failed;
            SignInAction::Fail { message: String::from_str(NO_PORT_MESSAGE) }
        }
    }
}

/// The port that a ceremony in `state` has started its listener on.
pub open spec fn chosen_port_of(state: SignInState) -> Option<u16> {
    match state {
        SignInState::Listening { port } => Some(port),
        _ => None,
    }
}

/// The caller has its answer: the listener was started, or the sign-in failed.
pub open spec fn is_final(state: SignInState) -> bool {
    state is Listening || state is Failed
}

/// The error message for a browser that could not be opened because of `cause`.
pub fn launch_failure_message(cause: &str) -> (message: String)
    ensures
        message@ == launch_failure(cause@),
{
    String::from_str(LAUNCH_FAILURE_PREFIX).concat(cause)
}

/// Begins a sign-in at the authorization `url` with the fixed candidate
/// ports. The caller opens the browser as the returned action says, hands
/// each outcome to [`SignIn::handle`], and returns success to the user
/// interface on `StartListener`, the error message on `Fail`.
pub fn open_url_in_browser(url: String) -> (started: (SignIn, SignInAction))
    ensures
        started.0@ == (SignInView {
            candidates: CANDIDATE_PORTS@,
            state: SignInState::AwaitingBrowser,
        }),
        started.1@ == (SignInActionView::OpenBrowser { url: url@ }),
{
    SignIn::begin(url, candidate_ports())
}

/// What a ceremony in `state` answers to `events`, one action for each event.
pub open spec fn actions(
    candidates: Seq<u16>,
    state: SignInState,
    events: Seq<SignInEventView>,
) -> Seq<SignInActionView>
    decreases events.len(),
{
    if events.len() == 0 {
        Seq::empty()
    } else {
        let step = transition(candidates, state, events[0]);
        seq![step.1] + actions(candidates, step.0, events.drop_first())
    }
}

/// The action gives the caller its answer: success with a listener, or an error.
pub open spec fn is_answer(action: SignInActionView) -> bool {
    action is StartListener || action is Fail
}

/// How many probes a ceremony in `state` can still ask for.
pub open spec fn probes_left(candidates: Seq<u16>, state: SignInState) -> nat {
    match state {
        SignInState::Probing { index } => if index < candidates.len() {
            (candidates.len() - index) as nat
        } else {
            0
        },
        _ => 0,
    }
}

/// The answer that probing ends with, from `state` on, where exactly the
/// ports in `occupied` are reported as in use.
pub open spec fn probing_outcome(
    candidates: Seq<u16>,
    state: SignInState,
    occupied: Set<u16>,
) -> SignInActionView
    decreases probes_left(candidates, state),
{
    match state {
        SignInState::Probing { index } => if index < candidates.len() {
            let step = transition(
                candidates,
                state,
                SignInEventView::PortProbed { available: !occupied.contains(candidates[index as int]) },
            );
            if step.1 is ProbePort {
                probing_outcome(candidates, step.0, occupied)
            } else {
                step.1
            }
        } else {
            SignInActionView::Ignore
        },
        _ => SignInActionView::Ignore,
    }
}

/// The answer that a whole ceremony ends with, where the browser opens or
/// fails as `launch` says and exactly the ports in `occupied` are in use.
pub open spec fn ceremony_outcome(
    candidates: Seq<u16>,
    launch: Result<(), Seq<char>>,
    occupied: Set<u16>,
) -> SignInActionView {
    let event = match launch {
        Ok(_) => SignInEventView::BrowserOpened,
        Err(cause) => SignInEventView::BrowserFailed { cause },
    };
    let step = transition(candidates, SignInState::AwaitingBrowser, event);
    if step.1 is ProbePort {
        probing_outcome(candidates, step.0, occupied)
    } else {
        step.1
    }
}

/// `event` is an answer to what a ceremony in `state` has asked for last.
pub open spec fn is_expected(candidates: Seq<u16>, state: SignInState, event: SignInEventView) -> bool {
    match state {
        SignInState::AwaitingBrowser => event is BrowserOpened || event is BrowserFailed,
        SignInState::Probing { index } => index < candidates.len() && event is PortProbed,
        _ => false,
    }
}

/// An event is ignored exactly if it is no answer to what was asked for last:
/// a caller that answers each action never sees `Ignore`.
pub proof fn lemma_only_unexpected_events_are_ignored(
    candidates: Seq<u16>,
    state: SignInState,
    event: SignInEventView,
)
    requires
        candidates.len() <= usize::MAX,
    ensures
        transition(candidates, state, event).1 is Ignore <==> !is_expected(candidates, state, event),
        transition(candidates, state, event).1 is Ignore ==> transition(candidates, state, event).0
            == state,
{
}

/// Every event gets one action.
pub proof fn lemma_one_action_per_event(
    candidates: Seq<u16>,
    state: SignInState,
    events: Seq<SignInEventView>,
)
    ensures
        actions(candidates, state, events).len() == events.len(),
    decreases events.len(),
{
    if events.len() > 0 {
        let step = transition(candidates, state, events[0]);
        lemma_one_action_per_event(candidates, step.0, events.drop_first());
    }
}

/// Once the caller has its answer, the ceremony ignores whatever comes.
pub proof fn lemma_final_state_ignores(
    candidates: Seq<u16>,
    state: SignInState,
    events: Seq<SignInEventView>,
)
    requires
        is_final(state),
    ensures
        actions(candidates, state, events).len() == events.len(),
        forall|i: int|
            0 <= i < events.len() ==> #[trigger] actions(candidates, state, events)[i]
                == SignInActionView::Ignore,
    decreases events.len(),
{
    if events.len() > 0 {
        lemma_final_state_ignores(candidates, state, events.drop_first());
    }
}

/// The caller gets its answer at most once: after a `StartListener` or a
/// `Fail`, every later action is `Ignore`. So no ceremony starts two
/// listeners, and none probes or listens after it has failed.
pub proof fn lemma_nothing_follows_the_answer(
    candidates: Seq<u16>,
    state: SignInState,
    events: Seq<SignInEventView>,
    i: int,
    j: int,
)
    requires
        0 <= i < j < events.len(),
        is_answer(actions(candidates, state, events)[i]),
    ensures
        actions(candidates, state, events)[j] == SignInActionView::Ignore,
    decreases events.len(),
{
    let step = transition(candidates, state, events[0]);
    let rest = events.drop_first();
    lemma_one_action_per_event(candidates, step.0, rest);
    if i == 0 {
        assert(is_final(step.0));
        lemma_final_state_ignores(candidates, step.0, rest);
        assert(actions(candidates, step.0, rest)[j - 1] == SignInActionView::Ignore);
    } else {
        assert(actions(candidates, state, events)[i] == actions(candidates, step.0, rest)[i - 1]);
        lemma_nothing_follows_the_answer(candidates, step.0, rest, i - 1, j - 1);
    }
}

/// If the browser cannot be opened, the caller is told so with the cause, and
/// nothing else happens in this ceremony: no port is probed, no listener started.
pub proof fn lemma_launch_failure_starts_nothing(
    candidates: Seq<u16>,
    cause: Seq<char>,
    later: Seq<SignInEventView>,
)
    ensures
        ({
            let events = seq![SignInEventView::BrowserFailed { cause }] + later;
            let answers = actions(candidates, SignInState::AwaitingBrowser, events);
            &&& answers.len() == later.len() + 1
            &&& answers[0] == SignInActionView::Fail { message: LAUNCH_FAILURE_PREFIX@ + cause }
            &&& forall|k: int| 1 <= k <= later.len() ==> #[trigger] answers[k] == SignInActionView::Ignore
        }),
{
    let events = seq![SignInEventView::BrowserFailed { cause }] + later;
    assert(events.drop_first() =~= later);
    lemma_final_state_ignores(candidates, SignInState::Failed, later);
}

/// Probing from a candidate behind occupied ports only ends at the first free port.
proof fn lemma_probing_finds_first_free(candidates: Seq<u16>, index: usize, occupied: Set<u16>)
    requires
        index < candidates.len() <= usize::MAX,
        occupied_before(candidates, occupied, index as int),
    ensures
        probing_outcome(candidates, SignInState::Probing { index }, occupied) == match first_free(
            candidates,
            occupied,
        ) {
            Some(port) => SignInActionView::StartListener { port },
            None => SignInActionView::Fail { message: NO_PORT_MESSAGE@ },
        },
    decreases candidates.len() - index,
{
    lemma_first_free_skips_occupied(candidates, occupied, index as int);
    let rest = candidates.skip(index as int);
    assert(rest[0] == candidates[index as int]);
    if occupied.contains(candidates[index as int]) {
        assert(rest.drop_first() =~= candidates.skip(index + 1));
        if index + 1 < candidates.len() {
            lemma_probing_finds_first_free(candidates, (index + 1) as usize, occupied);
        } else {
            assert(first_free(candidates.skip(index + 1), occupied) is None);
        }
    }
}

/// A ceremony ends as the rules say. If the browser cannot be opened, the
/// caller gets the launch error, whatever the ports are like. If it opens,
/// the listener is started on the first candidate that is not occupied; if
/// every candidate is occupied, the caller gets exactly the no-port error.
pub proof fn lemma_ceremony_outcome(
    candidates: Seq<u16>,
    launch: Result<(), Seq<char>>,
    occupied: Set<u16>,
)
    requires
        candidates.len() <= usize::MAX,
    ensures
        ceremony_outcome(candidates, launch, occupied) == match launch {
            Err(cause) => SignInActionView::Fail { message: LAUNCH_FAILURE_PREFIX@ + cause },
            Ok(_) => match first_free(candidates, occupied) {
                Some(port) => SignInActionView::StartListener { port },
                None => SignInActionView::Fail { message: NO_PORT_MESSAGE@ },
            },
        },
        launch is Ok && (forall|i: int|
            0 <= i < candidates.len() ==> occupied.contains(#[trigger] candidates[i]))
            ==> ceremony_outcome(candidates, launch, occupied) == (SignInActionView::Fail {
            message: NO_PORT_MESSAGE@,
        }),
{
    if launch is Ok && candidates.len() > 0 {
        lemma_probing_finds_first_free(candidates, 0, occupied);
    }
    lemma_none_free_iff_all_occupied(candidates, occupied);
}

/// The browser comes first: no port is probed and no listener started unless
/// the browser was opened before.
pub proof fn lemma_browser_opens_first(candidates: Seq<u16>, events: Seq<SignInEventView>, i: int)
    requires
        0 <= i < events.len(),
        actions(candidates, SignInState::AwaitingBrowser, events)[i] is ProbePort || actions(
            candidates,
            SignInState::AwaitingBrowser,
            events,
        )[i] is StartListener,
    ensures
        exists|j: int| 0 <= j <= i && #[trigger] events[j] == SignInEventView::BrowserOpened,
    decreases events.len(),
{
    let rest = events.drop_first();
    let step = transition(candidates, SignInState::AwaitingBrowser, events[0]);
    lemma_one_action_per_event(candidates, step.0, rest);
    match events[0] {
        SignInEventView::BrowserOpened => {},
        SignInEventView::BrowserFailed { .. } => {
            lemma_final_state_ignores(candidates, step.0, rest);
            if i > 0 {
                assert(actions(candidates, step.0, rest)[i - 1] == SignInActionView::Ignore);
            }
        },
        SignInEventView::PortProbed { .. } => {
            assert(i > 0);
            assert(actions(candidates, SignInState::AwaitingBrowser, events)[i] == actions(
                candidates,
                step.0,
                rest,
            )[i - 1]);
            lemma_browser_opens_first(candidates, rest, i - 1);
            let j = choose|j: int|
                0 <= j <= i - 1 && #[trigger] rest[j] == SignInEventView::BrowserOpened;
            assert(events[j + 1] == SignInEventView::BrowserOpened);
        },
    }
}

} // verus!
