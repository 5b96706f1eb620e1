use prompt_or_shock::pishock_client::Command;
use prompt_or_shock::pishock_client::CommandRequest;
use prompt_or_shock::pishock_client::OperationType;
use prompt_or_shock::pishock_client::PiShockClient;
use prompt_or_shock::pishock_client::API_URL;

fn client() -> PiShockClient {
    PiShockClient::new("account".to_string(), "key-123".to_string(), "SHARE".to_string())
}

fn request(command: Command) -> CommandRequest {
    CommandRequest {
        username: "account".to_string(),
        api_key: "key-123".to_string(),
        code: "SHARE".to_string(),
        name: "Prompt or Shock".to_string(),
        command,
    }
}

#[test]
fn operations_have_their_wire_codes() {
    assert_eq!(OperationType::Shock.code(), 0);
    assert_eq!(OperationType::Vibrate.code(), 1);
    assert_eq!(OperationType::Beep.code(), 2);
}

#[test]
fn commands_carry_what_they_are_made_with() {
    assert_eq!(
        Command::shock(40, 2),
        Command { op: OperationType::Shock, duration: 2, intensity: Some(40) }
    );
    assert_eq!(
        Command::vibrate(25, 1),
        Command { op: OperationType::Vibrate, duration: 1, intensity: Some(25) }
    );
    assert_eq!(Command::beep(3), Command { op: OperationType::Beep, duration: 3, intensity: None });
}

#[test]
fn shock_request_carries_credentials_and_command() {
    assert_eq!(client().shock(60, 1), request(Command::shock(60, 1)));
}

#[test]
fn vibrate_request_carries_credentials_and_command() {
    assert_eq!(client().vibrate(25, 1), request(Command::vibrate(25, 1)));
}

#[test]
fn beep_request_has_no_intensity() {
    let made = client().beep(2);
    assert_eq!(made, request(Command::beep(2)));
    assert_eq!(made.command.intensity, None);
}

#[test]
fn made_request_carries_the_given_command() {
    let command = Command { op: OperationType::Vibrate, duration: 9, intensity: Some(0) };
    assert_eq!(client().make_request(command), request(command));
}

#[test]
fn cloned_client_makes_the_same_requests() {
    let first = client();
    let second = first.clone();
    assert_eq!(first.shock(1, 1), second.shock(1, 1));
}

#[test]
fn requests_go_to_the_fixed_address() {
    assert_eq!(API_URL, "https://do.pishock.com/api/apioperate/");
}
