//! The commands of the remote device service and the requests that carry
//! them. A request is a plain value; sending it is left to the caller.

use vstd::prelude::*;
use vstd::string::*;

verus! {

/// The address that every request is sent to.
pub const API_URL: &'static str = "https://do.pishock.com/api/apioperate/";

/// What the remote device is asked to do.
#[derive(Clone, Copy, Debug, PartialEq, Eq, Structural)]
pub enum OperationType {
    Shock,
    Vibrate,
    Beep,
}

impl OperationType {
    /// The number that stands for the operation on the wire.
    pub open spec fn spec_code(self) -> u8 {
        match self {
            OperationType::Shock => 0,
            OperationType::Vibrate => 1,
            OperationType::Beep => 2,
        }
    }

    /// The number that stands for the operation on the wire.
    #[verifier::when_used_as_spec(spec_code)]
    pub fn code(self) -> (r: u8)
        ensures
            r == self.spec_code(),
    {
        match self {
            OperationType::Shock => 0,
            OperationType::Vibrate => 1,
            OperationType::Beep => 2,
        }
    }
}

/// One command for the remote device. A beep has no intensity.
#[derive(Clone, Copy, Debug, PartialEq, Eq)]
pub struct Command {
    pub op: OperationType,
    /// How long the device acts, in seconds.
    pub duration: u8,
    /// How strongly it acts, from 0 to 100.
    pub intensity: Option<u8>,
}

impl Command {
    pub open spec fn spec_shock(intensity: u8, duration: u8) -> Command {
        Command { op: OperationType::Shock, duration, intensity: Some(intensity) }
    }

    pub open spec fn spec_vibrate(intensity: u8, duration: u8) -> Command {
        Command { op: OperationType::Vibrate, duration, intensity: Some(intensity) }
    }

    pub open spec fn spec_beep(duration: u8) -> Command {
        Command { op: OperationType::Beep, duration, intensity: None }
    }

    #[verifier::when_used_as_spec(spec_shock)]
    pub fn shock(intensity: u8, duration: u8) -> (r: Command)
        ensures
            r == Command::spec_shock(intensity, duration),
    {
        Command { op: OperationType::Shock, duration, intensity: Some(intensity) }
    }

    #[verifier::when_used_as_spec(spec_vibrate)]
    pub fn vibrate(intensity: u8, duration: u8) -> (r: Command)
        ensures
            r == Command::spec_vibrate(intensity, duration),
    {
        Command { op: OperationType::Vibrate, duration, intensity: Some(intensity) }
    }

    #[verifier::when_used_as_spec(spec_beep)]
    pub fn beep(duration: u8) -> (r: Command)
        ensures
            r == Command::spec_beep(duration),
    {
        Command { op: OperationType::Beep, duration, intensity: None }
    }
}

/// The name under which every request presents itself to the service.
pub open spec fn request_name() -> Seq<char> {
    "Prompt or Shock"@
}

/// What a request holds, as mathematical values.
pub struct CommandRequestView {
    pub username: Seq<char>,
    pub api_key: Seq<char>,
    pub code: Seq<char>,
    pub name: Seq<char>,
    pub command: Command,
}

/// One request to the remote service: the account, the share code of the
/// device, the caller's name and the command.
#[derive(Debug, PartialEq, Eq)]
pub struct CommandRequest {
    pub username: String,
    pub api_key: String,
    pub code: String,
    pub name: String,
    pub command: Command,
}

impl View for CommandRequest {
    type V = CommandRequestView;

    open spec fn view(&self) -> CommandRequestView {
        CommandRequestView {
            username: self.username@,
            api_key: self.api_key@,
            code: self.code@,
            name: self.name@,
            command: self.command,
        }
    }
}

/// What a client holds, as mathematical values.
pub struct PiShockClientView {
    pub username: Seq<char>,
    pub api_key: Seq<char>,
    pub share_code: Seq<char>,
}

/// The account and the device that requests are made for.
#[derive(Debug)]
pub struct PiShockClient {
    username: String,
    api_key: String,
    share_code: String,
}

impl View for PiShockClient {
    type V = PiShockClientView;

    closed spec fn view(&self) -> PiShockClientView {
        PiShockClientView {
            username: self.username@,
            api_key: self.api_key@,
            share_code: self.share_code@,
        }
    }
}

impl Clone for PiShockClient {
    fn clone(&self) -> (r: Self)
        ensures
            r@ == self@,
    {
        PiShockClient {
            username: self.username.clone(),
            api_key: self.api_key.clone(),
            share_code: self.share_code.clone(),
        }
    }
}

/// The request that a client with the credentials `client` makes for `command`.
pub open spec fn request_for(client: PiShockClientView, command: Command) -> CommandRequestView {
    CommandRequestView {
        username: client.username,
        api_key: client.api_key,
        code: client.share_code,
        name: request_name(),
        command,
    }
}

impl PiShockClient {
    pub fn new(username: String, api_key: String, share_code: String) -> (r: Self)
        ensures
            r@ == (PiShockClientView {
                username: username@,
                api_key: api_key@,
                share_code: share_code@,
            }),
    {
        PiShockClient { username, api_key, share_code }
    }

    /// The request that asks for a shock.
    pub fn shock(&self, intensity: u8, duration: u8) -> (r: CommandRequest)
        ensures
            r@ == request_for(self@, Command::shock(intensity, duration)),
    {
        self.make_request(Command::shock(intensity, duration))
    }

    /// The request that asks for a vibration.
    pub fn vibrate(&self, intensity: u8, duration: u8) -> (r: CommandRequest)
        ensures
            r@ == request_for(self@, Command::vibrate(intensity, duration)),
    {
        self.make_request(Command::vibrate(intensity, duration))
    }

    /// The request that asks for a beep.
    pub fn beep(&self, duration: u8) -> (r: CommandRequest)
        ensures
            r@ == request_for(self@, Command::beep(duration)),
    {
        self.make_request(Command::beep(duration))
    }

    /// The request that carries `command` under this client's credentials.
    pub fn make_request(&self, command: Command) -> (r: CommandRequest)
        ensures
            r@ == request_for(self@, command),
    {
        CommandRequest {
            username: self.username.clone(),
            api_key: self.api_key.clone(),
            code: self.share_code.clone(),
            name: String::from_str("Prompt or Shock"),
            command,
        }
    }
}

} // verus!
