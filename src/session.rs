//! The handling of one control-channel connection.
//!
//! The connection is a small state machine: it is open from the handshake on
//! and closes on a close frame or a transport error. Each decoded command
//! leads to one input action, whose outcome is acknowledged, or to an
//! immediate acknowledgment where the command asks for no action. Frames
//! that do not decode, and frames other than text or close, are ignored.
use vstd::prelude::*;
use crate::command::{action_of, translate, ActionModel, ClientMessage, InputAction};
use crate::response::{error_model, ok_model, ResponseModel, ServerResponse};
use crate::text::{decode_lossy, utf8_lossy_of};

verus! {

/// An inbound frame, as the transport delivered it.
pub enum Frame {
    /// A text frame that decoded as a command.
    Command(ClientMessage),
    /// A text frame that did not decode as a command.
    Undecodable,
    /// A close frame.
    Close,
    /// A failure of the transport.
    TransportError,
    /// Any other frame.
    Other,
}

/// What the connection does next.
#[derive(Debug)]
pub enum Step {
    /// Run the action, then acknowledge its outcome.
    Perform(InputAction),
    /// Send this response.
    Reply(ServerResponse),
    /// Send nothing and wait for the next frame.
    Ignore,
    /// End the connection.
    Stop,
}

/// The mathematical value of a [`Step`].
pub enum StepModel {
    Perform(ActionModel),
    Reply(ResponseModel),
    Ignore,
    Stop,
}

impl View for Step {
    type V = StepModel;

    open spec fn view(&self) -> StepModel {
        match self {
            Step::Perform(a) => StepModel::Perform(a@),
            Step::Reply(r) => StepModel::Reply(r@),
            Step::Ignore => StepModel::Ignore,
            Step::Stop => StepModel::Stop,
        }
    }
}

#[derive(Clone, Copy, Debug, PartialEq, Eq, Structural)]
pub enum ConnectionState {
    Open,
    Closed,
}

pub struct Connection {
    pub state: ConnectionState,
}

/// The state after a frame.
pub open spec fn next_state(s: ConnectionState, f: Frame) -> ConnectionState {
    match s {
        ConnectionState::Closed => ConnectionState::Closed,
        ConnectionState::Open => match f {
            Frame::Close | Frame::TransportError => ConnectionState::Closed,
            _ => ConnectionState::Open,
        },
    }
}

/// The step that a frame calls for.
pub open spec fn step_of(s: ConnectionState, f: Frame) -> StepModel {
    match s {
        ConnectionState::Closed => StepModel::Stop,
        ConnectionState::Open => match f {
            Frame::Command(m) => match action_of(m) {
                Some(a) => StepModel::Perform(a),
                None => StepModel::Reply(ok_model()),
            },
            Frame::Undecodable | Frame::Other => StepModel::Ignore,
            Frame::Close | Frame::TransportError => StepModel::Stop,
        },
    }
}

/// The acknowledgment of an action's outcome.
pub open spec fn outcome_model(outcome: Result<(), String>) -> ResponseModel {
    match outcome {
        Ok(()) => ok_model(),
        Err(e) => error_model(e@),
    }
}

impl Connection {
    /// A connection whose handshake has completed.
    pub fn new() -> (r: Connection)
        ensures
            r.state == ConnectionState::Open,
    {
        Connection { state: ConnectionState::Open }
    }

    /// Takes in one frame and says what to do with it.
    pub fn on_frame(&mut self, frame: Frame) -> (r: Step)
        ensures
            final(self).state == next_state(old(self).state, frame),
            r@ == step_of(old(self).state, frame),
    {
        if self.state == ConnectionState::Closed {
            return Step::Stop;
        }
        match frame {
            Frame::Command(m) => match translate(&m) {
                Some(a) => Step::Perform(a),
                None => Step::Reply(ServerResponse::ok()),
            },
            Frame::Undecodable | Frame::Other => Step::Ignore,
            Frame::Close | Frame::TransportError => {
                self.state = ConnectionState::Closed;
                Step::Stop
            },
        }
    }

    /// The acknowledgment of a performed action: `ok` where it succeeded,
    /// `error` with its diagnostic where it failed.
    pub fn on_outcome(&self, outcome: Result<(), String>) -> (r: ServerResponse)
        ensures
            r@ == outcome_model(outcome),
    {
        match outcome {
            Ok(()) => ServerResponse::ok(),
            Err(e) => ServerResponse::error(e),
        }
    }
}

/// The diagnostic of a tool run that exited with failure.
pub open spec fn failure_text(stderr_text: Seq<char>) -> Seq<char> {
    "Command failed: "@ + stderr_text
}

/// The outcome of a run of the input tool, from whether it exited with
/// success and from what it wrote to its error stream.
pub fn run_outcome(succeeded: bool, stderr: &[u8]) -> (r: Result<(), String>)
    ensures
        succeeded ==> r is Ok,
        !succeeded ==> (r matches Err(e) && e@ == failure_text(utf8_lossy_of(stderr@))),
{
    if succeeded {
        Ok(())
    } else {
        let text = decode_lossy(stderr);
        Err(String::from_str("Command failed: ").concat(text.as_str()))
    }
}

} // verus!
