//! The redirect listener: the address it binds and the course of its life.
//!
//! Binding, accepting and answering are done by the caller's HTTP server. What
//! is decided here is where the listener binds, and what a bind or a request
//! that went wrong means for it.

use vstd::prelude::*;
use vstd::string::*;

verus! {

/// The host that the listener binds: the loopback interface.
pub const LOOPBACK_HOST: &'static str = "127.0.0.1";

/// The decimal digit for `d`.
pub open spec fn digit_char(d: int) -> char {
    if d == 0 {
        '0'
    } else if d == 1 {
        '1'
    } else if d == 2 {
        '2'
    } else if d == 3 {
        '3'
    } else if d == 4 {
        '4'
    } else if d == 5 {
        '5'
    } else if d == 6 {
        '6'
    } else if d == 7 {
        '7'
    } else if d == 8 {
        '8'
    } else {
        '9'
    }
}

/// `n` in decimal digits, without leading zeros.
pub open spec fn decimal(n: nat) -> Seq<char>
    decreases n,
{
    if n < 10 {
        seq![digit_char(n as int)]
    } else {
        decimal(n / 10).push(digit_char((n % 10) as int))
    }
}

/// The address that the listener for `port` binds: the loopback host, a
/// colon, and the port in decimal digits.
pub open spec fn loopback_address_of(port: u16) -> Seq<char> {
    LOOPBACK_HOST@ + seq![':'] + decimal(port as nat)
}

/// The text of one decimal digit.
fn digit_text(d: u16) -> (text: &'static str)
    requires
        d < 10,
    ensures
        text@ == seq![digit_char(d as int)],
{
    proof {
        reveal_strlit("0");
        reveal_strlit("1");
        reveal_strlit("2");
        reveal_strlit("3");
        reveal_strlit("4");
        reveal_strlit("5");
        reveal_strlit("6");
        reveal_strlit("7");
        reveal_strlit("8");
        reveal_strlit("9");
    }
    let text = if d == 0 {
        "0"
    } else if d == 1 {
        "1"
    } else if d == 2 {
        "2"
    } else if d == 3 {
        "3"
    } else if d == 4 {
        "4"
    } else if d == 5 {
        "5"
    } else if d == 6 {
        "6"
    } else if d == 7 {
        "7"
    } else if d == 8 {
        "8"
    } else {
        "9"
    };
    assert(text@ =~= seq![digit_char(d as int)]);
    text
}

/// `port` in decimal digits.
pub fn port_digits(port: u16) -> (text: String)
    ensures
        text@ == decimal(port as nat),
    decreases port,
{
    if port < 10 {
        String::from_str(digit_text(port))
    } else {
        let mut text = port_digits(port / 10);
        text.append(digit_text(port % 10));
        assert(text@ =~= decimal(port as nat));
        text
    }
}

/// The address that the listener for `port` binds, such as `127.0.0.1:3000`.
pub fn loopback_address(port: u16) -> (address: String)
    ensures
        address@ == loopback_address_of(port),
{
    proof {
        reveal_strlit(":");
    }
    let mut address = String::from_str(LOOPBACK_HOST);
    address.append(":");
    let digits = port_digits(port);
    address.append(digits.as_str());
    assert(address@ =~= loopback_address_of(port));
    address
}

/// Where a listener stands.
#[derive(Clone, Copy, Debug, PartialEq, Eq, Structural)]
pub enum ListenerState {
    /// The port is being bound.
    Binding,
    /// The port is bound; a request is awaited.
    Listening,
    /// A request is being answered.
    Serving,
    /// The port could not be bound: this sign-in is given up.
    Stopped,
}

/// What happened to a listener.
#[derive(Clone, Copy, Debug, PartialEq, Eq, Structural)]
pub enum ListenerEvent {
    /// The port was bound.
    Bound,
    /// The port could not be bound.
    BindFailed,
    /// A request arrived.
    RequestArrived,
    /// The response was sent.
    ResponseCompleted,
    /// Answering the request failed.
    HandlerFailed,
}

/// What the caller has to write to its log after an event.
#[derive(Clone, Copy, Debug, PartialEq, Eq, Structural)]
pub enum ListenerReport {
    /// Nothing.
    Nothing,
    /// That the port could not be bound and the sign-in is given up.
    BindFailure,
    /// That a request could not be answered; the listener goes on.
    HandlerFailure,
}

/// The course of a listener's life: the state that follows `state` on
/// `event`, and what is to be logged. An event that does not belong to the
/// state changes nothing.
pub open spec fn listener_transition(state: ListenerState, event: ListenerEvent) -> (
    ListenerState,
    ListenerReport,
) {
    match (state, event) {
        (ListenerState::Binding, ListenerEvent::Bound) => (
            ListenerState::Listening,
            ListenerReport::Nothing,
        ),
        (ListenerState::Binding, ListenerEvent::BindFailed) => (
            ListenerState::Stopped,
            ListenerReport::BindFailure,
        ),
        (ListenerState::Listening, ListenerEvent::RequestArrived) => (
            ListenerState::Serving,
            ListenerReport::Nothing,
        ),
        (ListenerState::Serving, ListenerEvent::ResponseCompleted) => (
            ListenerState::Listening,
            ListenerReport::Nothing,
        ),
        (ListenerState::Serving, ListenerEvent::HandlerFailed) => (
            ListenerState::Listening,
            ListenerReport::HandlerFailure,
        ),
        _ => (state, ListenerReport::Nothing),
    }
}

/// The state of a listener that went from `state` through `events`.
pub open spec fn listener_state_after(state: ListenerState, events: Seq<ListenerEvent>) -> ListenerState
    decreases events.len(),
{
    if events.len() == 0 {
        state
    } else {
        listener_transition(listener_state_after(state, events.drop_last()), events.last()).0
    }
}

/// The port is bound: the listener awaits a request or answers one.
pub open spec fn is_bound(state: ListenerState) -> bool {
    state is Listening || state is Serving
}

/// Takes one event of a listener's life, as `listener_transition` rules.
pub fn listener_step(state: ListenerState, event: ListenerEvent) -> (next: (
    ListenerState,
    ListenerReport,
))
    ensures
        next == listener_transition(state, event),
{
    match state {
        ListenerState::Binding => match event {
            ListenerEvent::Bound => (ListenerState::Listening, ListenerReport::Nothing),
            ListenerEvent::BindFailed => (ListenerState::Stopped, ListenerReport::BindFailure),
            _ => (state, ListenerReport::Nothing),
        },
        ListenerState::Listening => match event {
            ListenerEvent::RequestArrived => (ListenerState::Serving, ListenerReport::Nothing),
            _ => (state, ListenerReport::Nothing),
        },
        ListenerState::Serving => match event {
            ListenerEvent::ResponseCompleted => (ListenerState::Listening, ListenerReport::Nothing),
            ListenerEvent::HandlerFailed => (ListenerState::Listening, ListenerReport::HandlerFailure),
            _ => (state, ListenerReport::Nothing),
        },
        ListenerState::Stopped => (state, ListenerReport::Nothing),
    }
}

/// A listener that has bound its port keeps it whatever happens: no request,
/// answered or failed, stops it or makes it bind again.
pub proof fn lemma_bound_listener_stays_bound(state: ListenerState, events: Seq<ListenerEvent>)
    requires
        is_bound(state),
    ensures
        is_bound(listener_state_after(state, events)),
    decreases events.len(),
{
    if events.len() > 0 {
        lemma_bound_listener_stays_bound(state, events.drop_last());
    }
}

/// A listener whose bind failed is given up for good: it never serves.
pub proof fn lemma_stopped_listener_stays_stopped(events: Seq<ListenerEvent>)
    ensures
        listener_state_after(ListenerState::Stopped, events) == ListenerState::Stopped,
    decreases events.len(),
{
    if events.len() > 0 {
        lemma_stopped_listener_stays_stopped(events.drop_last());
    }
}

/// After each response the listener awaits the next request.
pub proof fn lemma_serving_returns_to_listening(outcome: ListenerEvent)
    requires
        outcome == ListenerEvent::ResponseCompleted || outcome == ListenerEvent::HandlerFailed,
    ensures
        listener_state_after(
            ListenerState::Listening,
            seq![ListenerEvent::RequestArrived, outcome],
        ) == ListenerState::Listening,
{
    let events = seq![ListenerEvent::RequestArrived, outcome];
    assert(events.drop_last() =~= seq![ListenerEvent::RequestArrived]);
    assert(events.drop_last().drop_last() =~= Seq::<ListenerEvent>::empty());
    assert(listener_state_after(ListenerState::Listening, events.drop_last().drop_last())
        == ListenerState::Listening);
    assert(listener_state_after(ListenerState::Listening, events.drop_last())
        == ListenerState::Serving);
}

} // verus!
