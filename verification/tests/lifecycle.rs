use gotify_client::config::ConnectionConfig;
use gotify_client::connector::ConnectError;
use gotify_client::dispatcher::{step, Event, Phase};
use gotify_client::lifecycle::{
    Command, Controller, Reply, RunState, StartError, Ticket, STARTUP_DELAY_SECS,
};

fn config(address: &str, token: &str) -> ConnectionConfig {
    ConnectionConfig::new(address.to_string(), token.to_string())
}

fn configured() -> Controller {
    Controller::new(Some(config("http://h", "t")))
}

fn started(controller: &mut Controller) -> Ticket {
    controller.start().unwrap().1
}

#[test]
fn run_state_starts_down() {
    let flag = RunState::new();
    assert!(!flag.is_running());
    assert!(flag.has_ticket_left());
}

#[test]
fn run_state_acquire_only_once() {
    let mut flag = RunState::new();
    let first = flag.acquire().unwrap();
    assert!(flag.is_running());
    assert!(flag.may_continue(first));
    assert_eq!(flag.acquire(), None);
    assert!(flag.is_running());
    assert!(flag.may_continue(first));
    flag.release(first);
    assert!(!flag.is_running());
    assert!(!flag.may_continue(first));
    let second = flag.acquire().unwrap();
    assert_ne!(first, second);
    assert!(flag.may_continue(second));
    assert!(!flag.may_continue(first));
}

#[test]
fn run_state_lower_keeps_everyone_out() {
    let mut flag = RunState::new();
    let ticket = flag.acquire().unwrap();
    flag.lower();
    assert!(!flag.is_running());
    assert!(!flag.may_continue(ticket));
    flag.lower();
    assert!(!flag.is_running());
}

#[test]
fn run_state_old_ticket_does_not_lower_the_flag() {
    let mut flag = RunState::new();
    let old = flag.acquire().unwrap();
    flag.lower();
    let new = flag.acquire().unwrap();
    flag.release(old);
    assert!(flag.is_running());
    assert!(flag.may_continue(new));
    flag.release(new);
    assert!(!flag.is_running());
}

#[test]
fn new_controller_is_idle() {
    let c = configured();
    assert!(!c.status());
    assert!(c.has_ticket_left());
    assert_eq!(c.get_config(), Some(config("http://h", "t")));
    assert_eq!(Controller::new(None).get_config(), None);
}

#[test]
fn start_returns_the_config_and_raises_the_flag() {
    let mut c = configured();
    let (launched, ticket) = c.start().unwrap();
    assert_eq!(launched, config("http://h", "t"));
    assert!(c.status());
    assert!(c.may_continue(ticket));
}

#[test]
fn second_start_is_already_running() {
    let mut c = configured();
    let ticket = started(&mut c);
    assert_eq!(c.start(), Err(StartError::AlreadyRunning));
    assert!(c.status());
    assert!(c.may_continue(ticket));
}

#[test]
fn second_start_is_already_running_after_other_commands() {
    let mut c = configured();
    assert!(c.start().is_ok());
    c.save_config(config("http://other", "o"));
    let _ = c.get_config();
    let _ = c.status();
    let _ = c.handle(Command::TestConnection {
        server_address: "http://h".to_string(),
        credential: "t".to_string(),
    });
    assert_eq!(c.start(), Err(StartError::AlreadyRunning));
}

#[test]
fn start_after_stop_succeeds_with_a_new_ticket() {
    let mut c = configured();
    let first = started(&mut c);
    c.stop();
    let (launched, second) = c.start().unwrap();
    assert_eq!(launched, config("http://h", "t"));
    assert_ne!(first, second);
}

#[test]
fn restart_does_not_revive_the_stopped_loop() {
    let mut c = configured();
    let first = started(&mut c);
    assert!(c.may_continue(first));
    c.stop();
    assert!(!c.may_continue(first));
    let second = started(&mut c);
    assert!(c.status());
    assert!(!c.may_continue(first));
    assert!(c.may_continue(second));

    let (old_loop, _) = step(Phase::Checking, Event::Poll(c.may_continue(first)));
    let (new_loop, _) = step(Phase::Checking, Event::Poll(c.may_continue(second)));
    assert_eq!(old_loop, Phase::Closed);
    assert_eq!(new_loop, Phase::Reading);

    c.release(first);
    assert!(c.status());
    assert!(c.may_continue(second));
}

#[test]
fn only_the_latest_of_many_tickets_may_continue() {
    let mut c = configured();
    let mut tickets = Vec::new();
    for _ in 0..5 {
        tickets.push(started(&mut c));
        c.stop();
    }
    let latest = started(&mut c);
    for old in &tickets {
        assert!(!c.may_continue(*old));
        assert_ne!(*old, latest);
    }
    assert!(c.may_continue(latest));
    for old in tickets {
        c.release(old);
        assert!(c.status());
    }
    c.release(latest);
    assert!(!c.status());
}

#[test]
fn start_after_loop_release_succeeds_again() {
    let mut c = configured();
    let ticket = started(&mut c);
    c.release(ticket);
    assert!(!c.status());
    assert!(c.start().is_ok());
}

#[test]
fn release_after_stop_leaves_the_flag_down() {
    let mut c = configured();
    let ticket = started(&mut c);
    c.stop();
    c.release(ticket);
    assert!(!c.status());
    assert!(!c.may_continue(ticket));
}

#[test]
fn start_without_config_is_config_missing() {
    let mut c = Controller::new(None);
    assert_eq!(c.start(), Err(StartError::ConfigMissing));
    assert!(!c.status());
    assert_eq!(c.get_config(), None);
}

#[test]
fn start_uses_the_latest_config() {
    let mut c = Controller::new(None);
    c.save_config(config("http://a", "1"));
    c.save_config(config("http://b", "2"));
    assert_eq!(c.start().unwrap().0, config("http://b", "2"));
}

#[test]
fn stop_is_idempotent() {
    let mut c = configured();
    c.stop();
    assert!(!c.status());
    c.stop();
    assert!(!c.status());
    assert!(c.start().is_ok());
    c.stop();
    c.stop();
    assert!(!c.status());
    assert_eq!(c.get_config(), Some(config("http://h", "t")));
}

#[test]
fn save_config_keeps_flag_and_ticket() {
    let mut c = configured();
    let ticket = started(&mut c);
    c.save_config(config("http://b", "2"));
    assert!(c.status());
    assert!(c.may_continue(ticket));
    assert_eq!(c.get_config(), Some(config("http://b", "2")));
}

#[test]
fn auto_start_with_config() {
    let mut c = configured();
    let (launched, ticket) = c.auto_start().unwrap();
    assert_eq!(launched, config("http://h", "t"));
    assert!(c.status());
    assert!(c.may_continue(ticket));
}

#[test]
fn auto_start_without_config() {
    let mut c = Controller::new(None);
    assert_eq!(c.auto_start(), None);
    assert!(!c.status());
}

#[test]
fn auto_start_while_running() {
    let mut c = configured();
    let ticket = started(&mut c);
    assert_eq!(c.auto_start(), None);
    assert!(c.status());
    assert!(c.may_continue(ticket));
}

#[test]
fn startup_delay_is_one_second() {
    assert_eq!(STARTUP_DELAY_SECS, 1);
}

#[test]
fn refusal_messages() {
    assert_eq!(
        StartError::ConfigMissing.message(),
        "No configuration found. Please configure first."
    );
    assert_eq!(StartError::AlreadyRunning.message(), "WebSocket is already running");
}

#[test]
fn handle_save_and_get() {
    let mut c = Controller::new(None);
    assert_eq!(c.handle(Command::GetConfig), Reply::Config(None));
    assert_eq!(
        c.handle(Command::SaveConfig {
            server_address: "http://h".to_string(),
            credential: "t".to_string(),
        }),
        Reply::Saved
    );
    assert_eq!(c.handle(Command::GetConfig), Reply::Config(Some(config("http://h", "t"))));
}

#[test]
fn handle_start_stop_status() {
    let mut c = Controller::new(None);
    assert_eq!(c.handle(Command::Start), Reply::NotStarted(StartError::ConfigMissing));
    c.save_config(config("http://h", "t"));
    assert_eq!(c.handle(Command::Status), Reply::Status(false));
    let ticket = match c.handle(Command::Start) {
        Reply::Started(launched, ticket) => {
            assert_eq!(launched, config("http://h", "t"));
            ticket
        }
        other => panic!("unexpected reply {:?}", other),
    };
    assert!(c.may_continue(ticket));
    assert_eq!(c.handle(Command::Status), Reply::Status(true));
    assert_eq!(c.handle(Command::Start), Reply::NotStarted(StartError::AlreadyRunning));
    assert_eq!(c.handle(Command::Stop), Reply::Stopped);
    assert!(!c.may_continue(ticket));
    assert_eq!(c.handle(Command::Status), Reply::Status(false));
    assert_eq!(c.handle(Command::Stop), Reply::Stopped);
    assert_eq!(c.handle(Command::Status), Reply::Status(false));
}

#[test]
fn test_connection_changes_neither_flag_nor_config() {
    let mut idle = configured();
    let reply = idle.handle(Command::TestConnection {
        server_address: "https://example.com:7777/".to_string(),
        credential: "tok123".to_string(),
    });
    assert_eq!(
        reply,
        Reply::Probe(Ok("wss://example.com:7777/stream?token=tok123".to_string()))
    );
    assert!(!idle.status());
    assert_eq!(idle.get_config(), Some(config("http://h", "t")));

    let mut running = configured();
    let ticket = started(&mut running);
    let reply = running.handle(Command::TestConnection {
        server_address: "http://h:99999999".to_string(),
        credential: "t".to_string(),
    });
    assert_eq!(
        reply,
        Reply::Probe(Err(ConnectError::InvalidUrl("invalid port number".to_string())))
    );
    assert!(running.status());
    assert!(running.may_continue(ticket));
    assert_eq!(running.get_config(), Some(config("http://h", "t")));
}

#[test]
fn test_connection_works_without_config() {
    let mut c = Controller::new(None);
    let reply = c.handle(Command::TestConnection {
        server_address: "http://h/".to_string(),
        credential: "t".to_string(),
    });
    assert_eq!(reply, Reply::Probe(Ok("ws://h/stream?token=t".to_string())));
    assert_eq!(c.get_config(), None);
    assert!(!c.status());
}
