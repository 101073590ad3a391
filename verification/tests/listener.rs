use dev_pets::listener::listener_step;
use dev_pets::listener::loopback_address;
use dev_pets::listener::port_digits;
use dev_pets::listener::ListenerEvent;
use dev_pets::listener::ListenerReport;
use dev_pets::listener::ListenerState;
use dev_pets::listener::LOOPBACK_HOST;
use dev_pets::ports::CANDIDATE_PORTS;

const EVENTS: [ListenerEvent; 5] = [
    ListenerEvent::Bound,
    ListenerEvent::BindFailed,
    ListenerEvent::RequestArrived,
    ListenerEvent::ResponseCompleted,
    ListenerEvent::HandlerFailed,
];

#[test]
fn address_is_loopback_host_and_port() {
    assert_eq!(LOOPBACK_HOST, "127.0.0.1");
    assert_eq!(loopback_address(3000), "127.0.0.1:3000");
    assert_eq!(loopback_address(8081), "127.0.0.1:8081");
    assert_eq!(loopback_address(0), "127.0.0.1:0");
    assert_eq!(loopback_address(65535), "127.0.0.1:65535");
}

#[test]
fn address_of_every_candidate_parses_back_to_it() {
    for port in CANDIDATE_PORTS {
        let address = loopback_address(port);
        let (host, digits) = address.split_once(':').unwrap();
        assert_eq!(host, "127.0.0.1");
        assert_eq!(digits.parse::<u16>(), Ok(port));
    }
}

#[test]
fn port_digits_are_decimal_without_leading_zeros() {
    assert_eq!(port_digits(0), "0");
    assert_eq!(port_digits(7), "7");
    assert_eq!(port_digits(10), "10");
    assert_eq!(port_digits(405), "405");
    assert_eq!(port_digits(8084), "8084");
    assert_eq!(port_digits(65535), "65535");
    for port in 0u16..=65535 {
        assert_eq!(port_digits(port), port.to_string());
    }
}

#[test]
fn listener_life_follows_the_transitions() {
    assert_eq!(
        listener_step(ListenerState::Binding, ListenerEvent::Bound),
        (ListenerState::Listening, ListenerReport::Nothing)
    );
    assert_eq!(
        listener_step(ListenerState::Listening, ListenerEvent::RequestArrived),
        (ListenerState::Serving, ListenerReport::Nothing)
    );
    assert_eq!(
        listener_step(ListenerState::Serving, ListenerEvent::ResponseCompleted),
        (ListenerState::Listening, ListenerReport::Nothing)
    );
}

#[test]
fn bind_failure_stops_the_listener_and_is_reported() {
    assert_eq!(
        listener_step(ListenerState::Binding, ListenerEvent::BindFailed),
        (ListenerState::Stopped, ListenerReport::BindFailure)
    );
    for event in EVENTS {
        assert_eq!(
            listener_step(ListenerState::Stopped, event),
            (ListenerState::Stopped, ListenerReport::Nothing)
        );
    }
}

#[test]
fn handler_failure_is_reported_and_the_listener_goes_on() {
    assert_eq!(
        listener_step(ListenerState::Serving, ListenerEvent::HandlerFailed),
        (ListenerState::Listening, ListenerReport::HandlerFailure)
    );
}

#[test]
fn bound_listener_never_stops() {
    for state in [ListenerState::Listening, ListenerState::Serving] {
        for event in EVENTS {
            let (next, _) = listener_step(state, event);
            assert!(next == ListenerState::Listening || next == ListenerState::Serving);
        }
    }
}

#[test]
fn events_that_do_not_belong_change_nothing() {
    for event in [
        ListenerEvent::RequestArrived,
        ListenerEvent::ResponseCompleted,
        ListenerEvent::HandlerFailed,
    ] {
        assert_eq!(
            listener_step(ListenerState::Binding, event),
            (ListenerState::Binding, ListenerReport::Nothing)
        );
    }
    for event in [
        ListenerEvent::Bound,
        ListenerEvent::BindFailed,
        ListenerEvent::ResponseCompleted,
        ListenerEvent::HandlerFailed,
    ] {
        assert_eq!(
            listener_step(ListenerState::Listening, event),
            (ListenerState::Listening, ListenerReport::Nothing)
        );
    }
    for event in [ListenerEvent::Bound, ListenerEvent::BindFailed, ListenerEvent::RequestArrived] {
        assert_eq!(
            listener_step(ListenerState::Serving, event),
            (ListenerState::Serving, ListenerReport::Nothing)
        );
    }
}
