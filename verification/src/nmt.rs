//! Network management: the node's lifecycle state and the commands that move it.

use vstd::prelude::*;
use vstd::string::StringExecFns;
use crate::frame::{Frame, COB_NMT_STATE, cob_with_node};

verus! {

/// The NMT state of a node.
#[derive(Debug, Clone, Copy, PartialEq, Eq, Structural)]
pub enum NmtState {
    Initializing,
    Stopped,
    Operational,
    PreOperational,
}

/// An NMT command.
#[derive(Debug, Clone, Copy, PartialEq, Eq, Structural)]
pub enum NmtCommand {
    Start,
    Stop,
    GoToPreOperational,
    Reset,
    ResetCommunication,
}

/// Why an NMT payload was not acted on. Both are protocol errors: they are
/// reported and have no effect on the node.
#[derive(Debug, Clone, Copy, PartialEq, Eq, Structural)]
pub enum NmtError {
    /// The payload is not two bytes long.
    Length,
    /// The first byte is no NMT command.
    UnknownCommand(u8),
}

impl NmtError {
    /// The description of this error.
    pub open spec fn description(self) -> Seq<char> {
        match self {
            NmtError::Length => "Received incorrect frame data length for NMT state change"@,
            NmtError::UnknownCommand(_) => "Changing nmt state failed: unexpected requested state"@,
        }
    }

    /// A description for the log.
    pub fn message(&self) -> (text: String)
        ensures
            text@ == self.description(),
    {
        match self {
            NmtError::Length => String::from_str(
                "Received incorrect frame data length for NMT state change",
            ),
            NmtError::UnknownCommand(_) => String::from_str(
                "Changing nmt state failed: unexpected requested state",
            ),
        }
    }
}

impl NmtCommand {
    /// The command that a command byte stands for.
    pub open spec fn of(requested_state: u8) -> Option<NmtCommand> {
        match requested_state {
            0x01 => Some(NmtCommand::Start),
            0x02 => Some(NmtCommand::Stop),
            0x80 => Some(NmtCommand::GoToPreOperational),
            0x81 => Some(NmtCommand::Reset),
            0x82 => Some(NmtCommand::ResetCommunication),
            _ => None,
        }
    }

    /// The state that this command asks for.
    pub open spec fn target(self) -> NmtState {
        match self {
            NmtCommand::Start => NmtState::Operational,
            NmtCommand::Stop => NmtState::Stopped,
            NmtCommand::GoToPreOperational => NmtState::PreOperational,
            NmtCommand::Reset => NmtState::Initializing,
            NmtCommand::ResetCommunication => NmtState::Initializing,
        }
    }
}

impl NmtState {
    /// The byte that reports this state on the bus.
    pub open spec fn code(self) -> u8 {
        match self {
            NmtState::Initializing => 0x00,
            NmtState::Stopped => 0x04,
            NmtState::Operational => 0x05,
            NmtState::PreOperational => 0x7f,
        }
    }

    /// The byte that reports this state on the bus.
    pub fn state_code(&self) -> (code: u8)
        ensures
            code == self.code(),
    {
        match self {
            NmtState::Initializing => 0x00,
            NmtState::Stopped => 0x04,
            NmtState::Operational => 0x05,
            NmtState::PreOperational => 0x7f,
        }
    }
}

/// What an NMT payload asks of the node `node_id` in state `current`: an error
/// for a malformed payload, the state unchanged for a command to another node,
/// the commanded state otherwise.
pub open spec fn nmt_outcome(node_id: u8, current: NmtState, data: Seq<u8>) -> Result<
    NmtState,
    NmtError,
> {
    if data.len() != 2 {
        Err(NmtError::Length)
    } else if data[1] != node_id {
        Ok(current)
    } else {
        match NmtCommand::of(data[0]) {
            Some(command) => Ok(command.target()),
            None => Err(NmtError::UnknownCommand(data[0])),
        }
    }
}

/// Whether an NMT payload is addressed to the node `node_id`.
pub open spec fn nmt_addressed(node_id: u8, data: Seq<u8>) -> bool {
    data.len() == 2 && data[1] == node_id
}

/// The state that a command byte asks for.
pub fn new_nmt_state(requested_state: u8) -> (result: Result<NmtState, NmtError>)
    ensures
        result == match NmtCommand::of(requested_state) {
            Some(command) => Ok::<NmtState, NmtError>(command.target()),
            None => Err(NmtError::UnknownCommand(requested_state)),
        },
{
    let nmt_command = match requested_state {
        0x01 => NmtCommand::Start,
        0x02 => NmtCommand::Stop,
        0x80 => NmtCommand::GoToPreOperational,
        0x81 => NmtCommand::Reset,
        0x82 => NmtCommand::ResetCommunication,
        _ => {
            return Err(NmtError::UnknownCommand(requested_state));
        },
    };
    let new_nmt_state = match nmt_command {
        NmtCommand::Start => NmtState::Operational,
        NmtCommand::Stop => NmtState::Stopped,
        NmtCommand::GoToPreOperational => NmtState::PreOperational,
        NmtCommand::Reset => NmtState::Initializing,
        NmtCommand::ResetCommunication => NmtState::Initializing,
    };
    Ok(new_nmt_state)
}

/// The state of the node `node_id` after the NMT payload `data`, received in
/// state `current_nmt_state`.
pub fn process_nmt_command(node_id: u8, current_nmt_state: NmtState, data: &[u8]) -> (result:
    Result<NmtState, NmtError>)
    ensures
        result == nmt_outcome(node_id, current_nmt_state, data@),
{
    if data.len() != 2 {
        return Err(NmtError::Length);
    }
    let requested_state = data[0];
    let addressed_node = data[1];
    if addressed_node == node_id {
        new_nmt_state(requested_state)
    } else {
        Ok(current_nmt_state)
    }
}

/// The frame that reports `nmt_state` for the node `node_id`.
pub fn create_nmt_frame(node_id: u8, nmt_state: NmtState) -> (frame: Frame)
    ensures
        frame.cob_id == cob_with_node(COB_NMT_STATE, node_id),
        frame.data@ == seq![nmt_state.code()],
        frame.transmittable(),
{
    let cob_id: u16 = COB_NMT_STATE | node_id as u16;
    assert(cob_id <= 0x7FF) by (bit_vector)
        requires
            cob_id == 0x700u16 | node_id as u16,
    ;
    let mut data: Vec<u8> = Vec::new();
    data.push(nmt_state.state_code());
    Frame { cob_id, data }
}

} // verus!
