use hub_client::connect::{assemble_client, login_form, login_outcome, HubClient};
use hub_client::error::HubError;
use hub_client::executor::{Action, Event, Executor, Phase};
use hub_client::model::UserData;

#[test]
fn first_send_succeeds_without_retry() {
    let mut exec = Executor::new();
    assert_eq!(exec.step(Event::Begin), Action::Send);
    assert_eq!(exec.step(Event::Response(200)), Action::Return(200));
    assert_eq!(exec.sends, 1);
    assert!(exec.is_done());
}

#[test]
fn unauthorized_then_success_retries_exactly_once() {
    let mut exec = Executor::new();
    assert_eq!(exec.step(Event::Begin), Action::Send);
    assert_eq!(exec.step(Event::Response(401)), Action::Login);
    assert_eq!(exec.sends, 1);
    assert_eq!(exec.step(Event::LoginFinished(true)), Action::Send);
    assert_eq!(exec.step(Event::Response(200)), Action::Return(200));
    assert_eq!(exec.sends, 2);
    assert!(exec.is_done());
}

#[test]
fn persistent_unauthorized_is_returned_without_third_send() {
    let mut exec = Executor::new();
    assert_eq!(exec.step(Event::Begin), Action::Send);
    assert_eq!(exec.step(Event::Response(401)), Action::Login);
    assert_eq!(exec.step(Event::LoginFinished(true)), Action::Send);
    assert_eq!(exec.step(Event::Response(401)), Action::Return(401));
    assert_eq!(exec.sends, 2);
    assert_eq!(exec.phase, Phase::Done);
}

#[test]
fn finished_pipeline_accepts_no_further_event() {
    let mut exec = Executor::new();
    assert!(exec.accepts(Event::Begin));
    assert!(!exec.accepts(Event::Response(200)));
    exec.step(Event::Begin);
    exec.step(Event::Response(401));
    exec.step(Event::LoginFinished(true));
    exec.step(Event::Response(401));
    assert!(exec.is_done());
    assert!(!exec.accepts(Event::Begin));
    assert!(!exec.accepts(Event::Response(200)));
    assert!(!exec.accepts(Event::TransportFailed));
    assert!(!exec.accepts(Event::LoginFinished(true)));
}

#[test]
fn failed_login_surfaces_authentication_error() {
    let mut exec = Executor::new();
    assert_eq!(exec.step(Event::Begin), Action::Send);
    assert_eq!(exec.step(Event::Response(401)), Action::Login);
    assert_eq!(exec.step(Event::LoginFinished(false)), Action::Fail(HubError::Authentication));
    assert_eq!(exec.sends, 1);
    assert!(exec.is_done());
}

#[test]
fn transport_failure_is_not_retried() {
    let mut exec = Executor::new();
    assert_eq!(exec.step(Event::Begin), Action::Send);
    assert_eq!(exec.step(Event::TransportFailed), Action::Fail(HubError::Transport));
    assert_eq!(exec.sends, 1);
    assert!(exec.is_done());
}

#[test]
fn transport_failure_on_resend_surfaces() {
    let mut exec = Executor::new();
    assert_eq!(exec.step(Event::Begin), Action::Send);
    assert_eq!(exec.step(Event::Response(401)), Action::Login);
    assert_eq!(exec.step(Event::LoginFinished(true)), Action::Send);
    assert_eq!(exec.step(Event::TransportFailed), Action::Fail(HubError::Transport));
    assert!(exec.is_done());
}

#[test]
fn connect_fails_when_login_fails() {
    let r = assemble_client(
        String::from("nova"),
        String::from("secret"),
        Err(HubError::Authentication),
        None,
    );
    assert_eq!(r, Err(HubError::Authentication));
}

#[test]
fn connect_fails_when_lookup_fails_after_successful_login() {
    let r = assemble_client(
        String::from("nova"),
        String::from("secret"),
        Ok(()),
        Some(Err(HubError::Request(500))),
    );
    assert_eq!(r, Err(HubError::Request(500)));
}

#[test]
fn connect_succeeds_with_resolved_user_id() {
    let r = assemble_client(
        String::from("nova"),
        String::from("secret"),
        Ok(()),
        Some(Ok(UserData { username: String::from("nova"), id: 42 })),
    );
    let client: HubClient = r.unwrap();
    assert_eq!(client.username, "nova");
    assert_eq!(client.password, "secret");
    assert_eq!(client.user_id, 42);
}

#[test]
fn login_is_accepted_on_2xx_and_rejected_otherwise() {
    assert_eq!(login_outcome(200), Ok(()));
    assert_eq!(login_outcome(204), Ok(()));
    assert_eq!(login_outcome(401), Err(HubError::Authentication));
    assert_eq!(login_outcome(500), Err(HubError::Authentication));
}

#[test]
fn login_form_carries_the_credentials() {
    let form = login_form("nova", "secret");
    assert_eq!(form.len(), 2);
    assert_eq!(form[0].0, "username");
    assert_eq!(form[0].1, "nova");
    assert_eq!(form[1].0, "password");
    assert_eq!(form[1].1, "secret");
}
