use dev_pets::ports::pick_free_port;
use dev_pets::ports::CANDIDATE_PORTS;
use dev_pets::redirect::handle_request;
use dev_pets::redirect::OAuthData;
use dev_pets::sign_in::launch_failure_message;
use dev_pets::sign_in::open_url_in_browser;
use dev_pets::sign_in::SignIn;
use dev_pets::sign_in::SignInAction;
use dev_pets::sign_in::SignInEvent;
use dev_pets::sign_in::SignInState;
use dev_pets::sign_in::LAUNCH_FAILURE_PREFIX;
use dev_pets::sign_in::NO_PORT_MESSAGE;

/// What a stubbed world saw of one ceremony.
struct Seen {
    opened: Vec<String>,
    probed: Vec<u16>,
    listeners: Vec<u16>,
    result: Result<(), String>,
}

/// Plays the caller's part: the browser opens or fails as `launch` says, and
/// exactly the ports in `occupied` are in use.
fn play(start: (SignIn, SignInAction), launch: Result<(), &str>, occupied: &[u16]) -> Seen {
    let (mut sign_in, mut action) = start;
    let mut seen = Seen { opened: vec![], probed: vec![], listeners: vec![], result: Ok(()) };
    for _ in 0..100 {
        let event = match action {
            SignInAction::OpenBrowser { url } => {
                seen.opened.push(url);
                match launch {
                    Ok(()) => SignInEvent::BrowserOpened,
                    Err(cause) => SignInEvent::BrowserFailed { cause: cause.to_string() },
                }
            }
            SignInAction::ProbePort { port } => {
                seen.probed.push(port);
                SignInEvent::PortProbed { available: !occupied.contains(&port) }
            }
            SignInAction::StartListener { port } => {
                seen.listeners.push(port);
                assert!(sign_in.is_finished());
                assert_eq!(sign_in.chosen_port(), Some(port));
                return seen;
            }
            SignInAction::Fail { message } => {
                seen.result = Err(message);
                assert!(sign_in.is_finished());
                assert_eq!(sign_in.chosen_port(), None);
                return seen;
            }
            SignInAction::Ignore => panic!("an expected event was ignored"),
        };
        action = sign_in.handle(event);
    }
    panic!("the ceremony did not end");
}

#[test]
fn happy_path_listens_on_3000() {
    let url = "https://idp.example.com/authorize?...";
    let seen = play(open_url_in_browser(url.to_string()), Ok(()), &[]);
    assert_eq!(seen.opened, vec![url.to_string()]);
    assert_eq!(seen.probed, vec![3000]);
    assert_eq!(seen.listeners, vec![3000]);
    assert_eq!(seen.result, Ok(()));
    let data = OAuthData::from_pairs(&[("code".to_string(), "abc123".to_string())]);
    let response = handle_request(data);
    assert!(response.body.contains("http://localhost:4200/api/auth/callback?code=abc123"));
}

#[test]
fn port_3000_occupied_listens_on_8081() {
    let url = "https://idp.example.com/authorize?...";
    let seen = play(open_url_in_browser(url.to_string()), Ok(()), &[3000]);
    assert_eq!(seen.opened, vec![url.to_string()]);
    assert_eq!(seen.probed, vec![3000, 8081]);
    assert_eq!(seen.listeners, vec![8081]);
    assert_eq!(seen.result, Ok(()));
    let data = OAuthData::from_pairs(&[("code".to_string(), "abc123".to_string())]);
    let response = handle_request(data);
    assert_eq!(response.status, 200);
    assert!(response.body.contains("http://localhost:4200/api/auth/callback?code=abc123"));
}

#[test]
fn all_ports_occupied_fails_without_listener() {
    let seen = play(
        open_url_in_browser("https://idp.example.com/authorize?...".to_string()),
        Ok(()),
        &[3000, 8081, 8082, 8083, 8084],
    );
    assert_eq!(seen.result, Err("No available ports found".to_string()));
    assert_eq!(seen.probed, vec![3000, 8081, 8082, 8083, 8084]);
    assert!(seen.listeners.is_empty());
}

#[test]
fn browser_failure_fails_without_probing() {
    let seen = play(
        open_url_in_browser("https://idp.example.com/authorize?...".to_string()),
        Err("permission denied"),
        &[],
    );
    assert_eq!(seen.result, Err("Failed to open URL in browser: permission denied".to_string()));
    assert_eq!(seen.opened.len(), 1);
    assert!(seen.probed.is_empty());
    assert!(seen.listeners.is_empty());
}

#[test]
fn browser_failure_goes_before_port_shortage() {
    let seen = play(
        open_url_in_browser("u".to_string()),
        Err("no browser"),
        &[3000, 8081, 8082, 8083, 8084],
    );
    assert_eq!(seen.result, Err("Failed to open URL in browser: no browser".to_string()));
    assert!(seen.probed.is_empty());
}

#[test]
fn ceremony_agrees_with_pick_free_port_on_every_subset() {
    for mask in 0u32..32 {
        let mut occupied: Vec<u16> = Vec::new();
        for (i, port) in CANDIDATE_PORTS.iter().enumerate() {
            if mask & (1 << i) != 0 {
                occupied.push(*port);
            }
        }
        let seen = play(open_url_in_browser("u".to_string()), Ok(()), &occupied);
        match pick_free_port(&CANDIDATE_PORTS, &occupied) {
            Some(port) => {
                assert_eq!(seen.listeners, vec![port]);
                assert_eq!(seen.result, Ok(()));
                assert_eq!(seen.probed.last(), Some(&port));
            }
            None => {
                assert!(seen.listeners.is_empty());
                assert_eq!(seen.result, Err(NO_PORT_MESSAGE.to_string()));
            }
        }
    }
}

#[test]
fn first_action_opens_the_browser_at_the_url() {
    let (sign_in, action) = open_url_in_browser("https://idp.example.com/authorize".to_string());
    assert_eq!(
        action,
        SignInAction::OpenBrowser { url: "https://idp.example.com/authorize".to_string() }
    );
    assert_eq!(sign_in.state(), SignInState::AwaitingBrowser);
    assert!(!sign_in.is_finished());
    assert_eq!(sign_in.chosen_port(), None);
}

#[test]
fn states_follow_the_events() {
    let (mut sign_in, _) = open_url_in_browser("u".to_string());
    assert_eq!(sign_in.handle(SignInEvent::BrowserOpened), SignInAction::ProbePort { port: 3000 });
    assert_eq!(sign_in.state(), SignInState::Probing { index: 0 });
    assert_eq!(
        sign_in.handle(SignInEvent::PortProbed { available: false }),
        SignInAction::ProbePort { port: 8081 }
    );
    assert_eq!(sign_in.state(), SignInState::Probing { index: 1 });
    assert_eq!(
        sign_in.handle(SignInEvent::PortProbed { available: true }),
        SignInAction::StartListener { port: 8081 }
    );
    assert_eq!(sign_in.state(), SignInState::Listening { port: 8081 });
    assert_eq!(sign_in.chosen_port(), Some(8081));
}

#[test]
fn events_out_of_turn_are_ignored() {
    let (mut sign_in, _) = open_url_in_browser("u".to_string());
    assert_eq!(sign_in.handle(SignInEvent::PortProbed { available: true }), SignInAction::Ignore);
    assert_eq!(sign_in.state(), SignInState::AwaitingBrowser);
    sign_in.handle(SignInEvent::BrowserOpened);
    assert_eq!(sign_in.handle(SignInEvent::BrowserOpened), SignInAction::Ignore);
    assert_eq!(
        sign_in.handle(SignInEvent::BrowserFailed { cause: "late".to_string() }),
        SignInAction::Ignore
    );
    assert_eq!(sign_in.state(), SignInState::Probing { index: 0 });
}

#[test]
fn nothing_follows_the_answer() {
    let (mut sign_in, _) = open_url_in_browser("u".to_string());
    sign_in.handle(SignInEvent::BrowserOpened);
    assert_eq!(
        sign_in.handle(SignInEvent::PortProbed { available: true }),
        SignInAction::StartListener { port: 3000 }
    );
    assert_eq!(sign_in.handle(SignInEvent::PortProbed { available: true }), SignInAction::Ignore);
    assert_eq!(sign_in.handle(SignInEvent::BrowserOpened), SignInAction::Ignore);
    assert_eq!(sign_in.state(), SignInState::Listening { port: 3000 });

    let (mut failed, _) = open_url_in_browser("u".to_string());
    failed.handle(SignInEvent::BrowserFailed { cause: "x".to_string() });
    assert_eq!(failed.state(), SignInState::Failed);
    assert_eq!(failed.handle(SignInEvent::BrowserOpened), SignInAction::Ignore);
    assert_eq!(failed.handle(SignInEvent::PortProbed { available: true }), SignInAction::Ignore);
    assert_eq!(failed.state(), SignInState::Failed);
}

#[test]
fn ceremony_without_candidates_fails_after_the_browser() {
    let seen = play(SignIn::begin("u".to_string(), vec![]), Ok(()), &[]);
    assert_eq!(seen.opened, vec!["u".to_string()]);
    assert!(seen.probed.is_empty());
    assert_eq!(seen.result, Err("No available ports found".to_string()));
}

#[test]
fn ceremony_with_own_candidates_probes_in_their_order() {
    let seen = play(SignIn::begin("u".to_string(), vec![9000, 1000, 5000]), Ok(()), &[9000, 1000]);
    assert_eq!(seen.probed, vec![9000, 1000, 5000]);
    assert_eq!(seen.listeners, vec![5000]);
}

#[test]
fn launch_failure_message_holds_the_cause() {
    assert_eq!(LAUNCH_FAILURE_PREFIX, "Failed to open URL in browser: ");
    assert_eq!(NO_PORT_MESSAGE, "No available ports found");
    assert_eq!(
        launch_failure_message("permission denied"),
        "Failed to open URL in browser: permission denied"
    );
    assert_eq!(launch_failure_message(""), "Failed to open URL in browser: ");
}
