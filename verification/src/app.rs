//! The tray's handle on the acceptor: each menu request becomes a command on
//! the acceptor's channel.
use std::sync::mpsc::Sender;

use vstd::prelude::*;

use crate::acceptor::AcceptorCommand;

verus! {

/// `std::sync::mpsc::Sender`, used as an opaque value.
#[verifier::external_type_specification]
#[verifier::external_body]
#[verifier::reject_recursive_types(T)]
pub struct ExSender<T>(Sender<T>);

/// Trusted: `std::sync::mpsc::Sender::send`. Claimed: when the send fails
/// (the receiving end is gone) the command is handed back unchanged, as the
/// documented `SendError` holds the unsent value. Whether it succeeds depends
/// on the other thread and is not stated.
#[verifier::external_body]
fn send_command(tx: &Sender<AcceptorCommand>, cmd: AcceptorCommand) -> (r: Result<(), AcceptorCommand>)
    ensures
        r matches Err(c) ==> c == cmd,
{
    tx.send(cmd).map_err(|e| e.0)
}

/// The requests the tray makes of the acceptor.
#[derive(Debug, Clone, Copy, PartialEq, Eq, Structural)]
pub enum ControllerRequest {
    Pause,
    Resume,
    DodgeLobby,
    Quit,
}

/// The command each request becomes: pausing pauses, resuming starts,
/// dodging dodges the lobby, quitting shuts the acceptor down.
pub open spec fn command_spec(request: ControllerRequest) -> AcceptorCommand {
    match request {
        ControllerRequest::Pause => AcceptorCommand::Pause,
        ControllerRequest::Resume => AcceptorCommand::Start,
        ControllerRequest::DodgeLobby => AcceptorCommand::DodgeLobby,
        ControllerRequest::Quit => AcceptorCommand::Shutdown,
    }
}

/// The command for a request.
pub fn command_for(request: ControllerRequest) -> (c: AcceptorCommand)
    ensures
        c == command_spec(request),
{
    match request {
        ControllerRequest::Pause => AcceptorCommand::Pause,
        ControllerRequest::Resume => AcceptorCommand::Start,
        ControllerRequest::DodgeLobby => AcceptorCommand::DodgeLobby,
        ControllerRequest::Quit => AcceptorCommand::Shutdown,
    }
}

/// Sends the tray's requests to the acceptor thread.
pub struct AppController {
    acceptor_tx: Sender<AcceptorCommand>,
}

impl AppController {
    /// The channel the controller sends on.
    pub closed spec fn sender(&self) -> Sender<AcceptorCommand> {
        self.acceptor_tx
    }

    /// A controller that sends on `acceptor_tx`.
    pub fn new(acceptor_tx: Sender<AcceptorCommand>) -> (r: Self)
        ensures
            r.sender() == acceptor_tx,
    {
        AppController { acceptor_tx }
    }

    /// Hands the command for `request` to the acceptor's channel, and gives
    /// back the outcome of the send: the command, if the acceptor's end is gone.
    pub fn request(&self, request: ControllerRequest) -> (r: Result<(), AcceptorCommand>)
        ensures
            r matches Err(c) ==> c == command_spec(request),
    {
        send_command(&self.acceptor_tx, command_for(request))
    }

    /// Asks the acceptor to pause. Gives back the outcome of the send: the
    /// command, if the acceptor's end is gone (callers may ignore it).
    pub fn pause(&self) -> (r: Result<(), AcceptorCommand>)
        ensures
            r matches Err(c) ==> c == AcceptorCommand::Pause,
    {
        self.request(ControllerRequest::Pause)
    }

    /// Asks the acceptor to resume. Gives back the outcome of the send: the
    /// command, if the acceptor's end is gone (callers may ignore it).
    pub fn resume(&self) -> (r: Result<(), AcceptorCommand>)
        ensures
            r matches Err(c) ==> c == AcceptorCommand::Start,
    {
        self.request(ControllerRequest::Resume)
    }

    /// Asks the acceptor to leave the current lobby. Gives back the outcome of the send: the
    /// command, if the acceptor's end is gone (callers may ignore it).
    pub fn dodge_lobby(&self) -> (r: Result<(), AcceptorCommand>)
        ensures
            r matches Err(c) ==> c == AcceptorCommand::DodgeLobby,
    {
        self.request(ControllerRequest::DodgeLobby)
    }

    /// Asks the acceptor to stop. Gives back the outcome of the send: the
    /// command, if the acceptor's end is gone (callers may ignore it).
    pub fn quit(&self) -> (r: Result<(), AcceptorCommand>)
        ensures
            r matches Err(c) ==> c == AcceptorCommand::Shutdown,
    {
        self.request(ControllerRequest::Quit)
    }
}

} // verus!
