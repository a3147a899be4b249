//! The CiA-402 drive profile: the drive state machine that the controlword
//! steers, the statusword that reports it, and the motion modes that run while
//! operation is enabled.

use vstd::prelude::*;
use crate::cia301::{Node, NodeView};
use crate::eds::DataValue;
use crate::motion::{
    MotionMap, MotionPlan, MotionRequest, end_of, motion_plan, position_at, position_motion_map,
};
use crate::od::{Entries, after_write, same_layout, value_at};

verus! {

/// Index of the controlword.
pub const CONTROLWORD: u16 = 0x6040;

/// Index of the statusword.
pub const STATUSWORD: u16 = 0x6041;

/// Index of the commanded mode of operation.
pub const MODE_OF_OPERATION: u16 = 0x6060;

/// Index of the displayed mode of operation.
pub const MODE_OF_OPERATION_DISPLAY: u16 = 0x6061;

/// Index of the actual position.
pub const POSITION_ACTUAL: u16 = 0x6064;

/// Index of the target position.
pub const TARGET_POSITION: u16 = 0x607A;

/// Index of the profile velocity.
pub const PROFILE_VELOCITY: u16 = 0x6081;

/// Index of the profile acceleration.
pub const PROFILE_ACCELERATION: u16 = 0x6083;

/// Index of the maximum acceleration.
pub const MAX_ACCELERATION: u16 = 0x60C5;

/// Milliseconds that a velocity ramp takes.
pub const RAMP_DURATION: u64 = 500;

/// Milliseconds that homing takes.
pub const HOMING_DURATION: u64 = 100;

/// What the drive reports of itself.
#[derive(Debug, Clone, Copy, PartialEq, Eq, Structural)]
pub struct Status {
    pub statusword: u16,
    pub actual_position: i32,
}

/// Operation mode
#[derive(Debug, Clone, Copy, PartialEq, Eq, Structural)]
pub enum ModeOfOperation {
    NoMode,
    ProfilePosition,
    ProfileVelocity,
    Homing,
}

/// Controlword
#[derive(Debug, Clone, Copy, PartialEq, Eq, Structural)]
pub enum Command {
    /// No command was decoded yet.
    NoCommand,
    Shutdown,
    SwitchOn,
    DisableVoltage,
    QuickStop,
    DisableOperation,
    EnableOperation,
    EnableOperationAfterQuickStop,
    FaultReset,
}

/// Statusword
#[derive(Debug, Clone, Copy, PartialEq, Eq, Structural)]
pub enum State {
    NotReadyToSwitchOn,
    SwitchedOnDisabled,
    ReadyToSwitchOn,
    SwitchedOn,
    OperationEnabled,
    QuickStopActive,
    FaultReactionActive,
    Fault,
}

/// Profile position status
#[derive(Debug, Clone, Copy, PartialEq, Eq, Structural)]
pub enum ProfilePositionStatus {
    SetpointAcknowledge,
    Moving,
}

/// Profile velocity status
#[derive(Debug, Clone, Copy, PartialEq, Eq, Structural)]
pub enum ProfileVelocityStatus {
    WaitingForStart,
    RampingUp,
    Rotating,
    RampingDown,
}

/// Homing status
#[derive(Debug, Clone, Copy, PartialEq, Eq, Structural)]
pub enum HomeStatus {
    WaitingForStart,
    Homing,
}

/// Why a tick of the controller did nothing.
#[derive(Debug, Clone, Copy, PartialEq, Eq, Structural)]
pub enum ControllerError {
    /// The dictionary holds no Integer8 mode of operation.
    ModeNotFound,
    /// The commanded mode of operation is none of 0, 1, 3 and 6.
    ModeNotImplemented(i8),
    /// The dictionary holds no Unsigned16 controlword.
    ControlwordNotFound,
}

impl ModeOfOperation {
    /// The mode that the object value `value` selects.
    pub open spec fn of(value: i8) -> Option<ModeOfOperation> {
        match value {
            0 => Some(ModeOfOperation::NoMode),
            1 => Some(ModeOfOperation::ProfilePosition),
            3 => Some(ModeOfOperation::ProfileVelocity),
            6 => Some(ModeOfOperation::Homing),
            _ => None,
        }
    }

    /// The object value that selects this mode.
    pub open spec fn code(self) -> i8 {
        match self {
            ModeOfOperation::NoMode => 0,
            ModeOfOperation::ProfilePosition => 1,
            ModeOfOperation::ProfileVelocity => 3,
            ModeOfOperation::Homing => 6,
        }
    }

    /// The mode that the object value `value` selects.
    pub fn mode_of_operation(value: i8) -> (mode: Option<ModeOfOperation>)
        ensures
            mode == ModeOfOperation::of(value),
    {
        match value {
            0 => Some(ModeOfOperation::NoMode),
            1 => Some(ModeOfOperation::ProfilePosition),
            3 => Some(ModeOfOperation::ProfileVelocity),
            6 => Some(ModeOfOperation::Homing),
            _ => None,
        }
    }

    /// The object value that selects this mode.
    pub fn mode_code(&self) -> (code: i8)
        ensures
            code == self.code(),
    {
        match self {
            ModeOfOperation::NoMode => 0,
            ModeOfOperation::ProfilePosition => 1,
            ModeOfOperation::ProfileVelocity => 3,
            ModeOfOperation::Homing => 6,
        }
    }
}

/// Whether bit `index` of `word` is set.
pub open spec fn bit_of(word: u16, index: usize) -> bool {
    word & (1u16 << index) != 0
}

/// `word` with the bits of `mask` set or cleared.
pub open spec fn with_mask(word: u16, mask: u16, value: bool) -> u16 {
    if value {
        word | mask
    } else {
        word & !mask
    }
}

/// `word` with bit `position` set or cleared.
pub open spec fn with_bit(word: u16, position: usize, value: bool) -> u16 {
    with_mask(word, 1u16 << position, value)
}

/// `word` after each bit of `bits` was set or cleared, in order.
pub open spec fn with_bits(word: u16, bits: Seq<(usize, bool)>) -> u16
    decreases bits.len(),
{
    if bits.len() == 0 {
        word
    } else {
        with_bits(with_bit(word, bits[0].0, bits[0].1), bits.drop_first())
    }
}

/// The command that a controlword gives, by its bits 7, 3, 2, 1 and 0.
pub open spec fn command_of(controlword: u16) -> Command {
    let b0 = bit_of(controlword, 0);
    let b1 = bit_of(controlword, 1);
    let b2 = bit_of(controlword, 2);
    let b3 = bit_of(controlword, 3);
    let b7 = bit_of(controlword, 7);
    if !b7 && b2 && b1 && !b0 {
        Command::Shutdown
    } else if !b7 && !b3 && b2 && b1 && b0 {
        Command::SwitchOn
    } else if !b7 && !b1 {
        Command::DisableVoltage
    } else if !b7 && !b2 && b1 {
        Command::QuickStop
    } else if !b7 && b3 && b2 && b1 && b0 {
        Command::EnableOperation
    } else if b7 {
        Command::FaultReset
    } else {
        Command::NoCommand
    }
}

/// The transition table of the drive state machine.
pub open spec fn next_state(state: State, command: Command) -> State {
    match state {
        State::NotReadyToSwitchOn => State::SwitchedOnDisabled,
        State::SwitchedOnDisabled => match command {
            Command::Shutdown => State::ReadyToSwitchOn,
            _ => State::SwitchedOnDisabled,
        },
        State::ReadyToSwitchOn => match command {
            Command::SwitchOn => State::SwitchedOn,
            Command::DisableVoltage => State::SwitchedOnDisabled,
            _ => State::ReadyToSwitchOn,
        },
        State::SwitchedOn => match command {
            Command::EnableOperation => State::OperationEnabled,
            Command::Shutdown => State::ReadyToSwitchOn,
            _ => State::SwitchedOn,
        },
        State::OperationEnabled => match command {
            Command::QuickStop => State::QuickStopActive,
            Command::DisableVoltage => State::SwitchedOnDisabled,
            Command::SwitchOn => State::SwitchedOn,
            _ => State::OperationEnabled,
        },
        State::QuickStopActive => match command {
            Command::DisableVoltage => State::SwitchedOnDisabled,
            Command::EnableOperationAfterQuickStop => State::OperationEnabled,
            _ => State::QuickStopActive,
        },
        State::FaultReactionActive => State::Fault,
        State::Fault => match command {
            Command::FaultReset => State::SwitchedOnDisabled,
            _ => State::Fault,
        },
    }
}

/// The statusword bits that a drive state fixes, each with its value. Bits that
/// a state leaves open are not listed.
pub open spec fn state_bits(state: State) -> Seq<(usize, bool)> {
    match state {
        State::NotReadyToSwitchOn => seq![
            (0usize, false),
            (1usize, false),
            (2usize, false),
            (3usize, false),
            (5usize, false),
            (6usize, false),
        ],
        State::SwitchedOnDisabled => seq![
            (0usize, false),
            (1usize, false),
            (2usize, false),
            (3usize, false),
            (6usize, true),
        ],
        State::ReadyToSwitchOn => seq![
            (0usize, true),
            (1usize, false),
            (2usize, false),
            (3usize, false),
            (5usize, true),
            (6usize, false),
        ],
        State::SwitchedOn => seq![
            (0usize, true),
            (1usize, true),
            (2usize, false),
            (3usize, false),
            (5usize, true),
            (6usize, false),
        ],
        State::OperationEnabled => seq![
            (0usize, true),
            (1usize, true),
            (2usize, true),
            (3usize, false),
            (5usize, true),
            (6usize, false),
        ],
        State::QuickStopActive => seq![
            (0usize, true),
            (1usize, true),
            (2usize, true),
            (3usize, false),
            (5usize, false),
            (6usize, false),
        ],
        State::FaultReactionActive => seq![
            (0usize, true),
            (1usize, true),
            (2usize, true),
            (3usize, true),
            (6usize, false),
        ],
        State::Fault => seq![
            (0usize, false),
            (1usize, false),
            (2usize, false),
            (3usize, true),
            (6usize, false),
        ],
    }
}

/// The statusword that follows `word`: the bits of the drive state as the
/// state fixes them, target reached in bit 10, and the two mode-specific bits
/// in 12 and 13. All other bits stay.
pub open spec fn statusword_of(
    word: u16,
    state: State,
    target_reached: bool,
    status_oms1: bool,
    status_oms2: bool,
) -> u16 {
    with_bit(
        with_bit(with_bit(with_bits(word, state_bits(state)), 10, target_reached), 12, status_oms1),
        13,
        status_oms2,
    )
}

/// Milliseconds from `timer` to `now`; none where the clock went back.
pub open spec fn elapsed_since(timer: u64, now: u64) -> u64 {
    if now >= timer {
        (now - timer) as u64
    } else {
        0
    }
}

/// What a drive is, as far as its ticks are concerned.
pub struct DriveView {
    pub node: NodeView,
    pub status: Status,
    pub mode_of_operation_display: ModeOfOperation,
    pub controlword: u16,
    pub command: Command,
    pub state: State,
    pub profile_position_status: ProfilePositionStatus,
    pub profile_velocity_status: ProfileVelocityStatus,
    pub home_status: HomeStatus,
    pub halt: bool,
    /// Bit 4 of the controlword at this tick.
    pub setpoint: bool,
    /// Bit 4 of the controlword at the tick before.
    pub setpoint_before: bool,
    pub target_reached: bool,
    pub start_travel: bool,
    pub status_oms1: bool,
    pub status_oms2: bool,
    pub timer: u64,
    pub relative: bool,
    pub motion: Map<u64, i32>,
    pub move_duration: u64,
}

impl DriveView {
    /// The dictionary of the drive's node.
    pub open spec fn entries(self) -> Entries {
        self.node.entries
    }

    /// This drive with `entries` for its dictionary.
    pub open spec fn with_entries(self, entries: Entries) -> DriveView {
        DriveView { node: NodeView { entries, ..self.node }, ..self }
    }

    /// The controlword that the dictionary holds.
    pub open spec fn controlword_in(self) -> Option<u16> {
        match value_at(self.entries(), CONTROLWORD, 0) {
            Some(DataValue::Unsigned16(word)) => Some(word),
            _ => None,
        }
    }

    /// Why a tick does nothing, if it does nothing: the dictionary lacks the mode
    /// of operation, commands a mode that is not implemented, or lacks the
    /// controlword.
    pub open spec fn tick_error(self) -> Option<ControllerError> {
        match value_at(self.entries(), MODE_OF_OPERATION, 0) {
            Some(DataValue::Integer8(mode)) => if ModeOfOperation::of(mode) is None {
                Some(ControllerError::ModeNotImplemented(mode))
            } else if self.controlword_in() is None {
                Some(ControllerError::ControlwordNotFound)
            } else {
                None
            },
            _ => Some(ControllerError::ModeNotFound),
        }
    }

    /// The mode of operation that the dictionary commands.
    pub open spec fn mode_in(self) -> ModeOfOperation {
        match value_at(self.entries(), MODE_OF_OPERATION, 0) {
            Some(DataValue::Integer8(mode)) => match ModeOfOperation::of(mode) {
                Some(m) => m,
                None => ModeOfOperation::NoMode,
            },
            _ => ModeOfOperation::NoMode,
        }
    }

    /// Takes over the commanded mode. A change resets the profile position and
    /// profile velocity machines and is displayed in the dictionary.
    pub open spec fn update_mode_of_operation(self) -> DriveView {
        let mode = self.mode_in();
        if self.mode_of_operation_display != mode {
            DriveView {
                mode_of_operation_display: mode,
                profile_position_status: ProfilePositionStatus::SetpointAcknowledge,
                profile_velocity_status: ProfileVelocityStatus::WaitingForStart,
                ..self
            }.with_entries(
                after_write(
                    self.entries(),
                    MODE_OF_OPERATION_DISPLAY,
                    0,
                    DataValue::Integer8(mode.code()),
                ),
            )
        } else {
            self
        }
    }

    /// Takes over the controlword: the command it gives, its bit 4 after the one
    /// of the tick before, bit 6 for relative moves and bit 8 for halt.
    pub open spec fn update_command(self) -> DriveView {
        let word = match self.controlword_in() {
            Some(word) => word,
            None => self.controlword,
        };
        DriveView {
            controlword: word,
            command: command_of(word),
            setpoint: bit_of(word, 4),
            setpoint_before: self.setpoint,
            relative: bit_of(word, 6),
            halt: bit_of(word, 8),
            ..self
        }
    }

    /// Moves the drive state machine by the current command.
    pub open spec fn update_state(self) -> DriveView {
        DriveView { state: next_state(self.state, self.command), ..self }
    }

    /// Milliseconds since the timer was armed.
    pub open spec fn elapsed(self, now: u64) -> u64 {
        elapsed_since(self.timer, now)
    }

    /// Whether bit 4 of the controlword rose at this tick.
    pub open spec fn rising_edge(self) -> bool {
        self.setpoint && !self.setpoint_before
    }

    /// The parameters of a move that the dictionary holds: profile acceleration,
    /// maximum acceleration and profile velocity as Unsigned32, target position
    /// as Integer32.
    pub open spec fn move_parameters(self) -> Option<(u32, u32, u32, i32)> {
        match (
            value_at(self.entries(), PROFILE_ACCELERATION, 0),
            value_at(self.entries(), MAX_ACCELERATION, 0),
            value_at(self.entries(), PROFILE_VELOCITY, 0),
            value_at(self.entries(), TARGET_POSITION, 0),
        ) {
            (
                Some(DataValue::Unsigned32(a)),
                Some(DataValue::Unsigned32(a_max)),
                Some(DataValue::Unsigned32(v)),
                Some(DataValue::Integer32(p)),
            ) => Some((a, a_max, v, p)),
            _ => None,
        }
    }

    /// Starts to follow the trajectory `points` at time `now`: the set-point is
    /// acknowledged in the first mode-specific status bit, the target is not
    /// reached, and the timer runs.
    pub open spec fn begin_move(self, now: u64, points: Map<u64, i32>) -> DriveView {
        DriveView {
            motion: points,
            status_oms1: true,
            target_reached: false,
            start_travel: false,
            timer: now,
            profile_position_status: ProfilePositionStatus::Moving,
            ..self
        }
    }

    /// Whether the drive waits for the trajectory of a move that it asked for.
    pub open spec fn awaits_trajectory(self) -> bool {
        &&& self.state == State::OperationEnabled
        &&& self.mode_of_operation_display == ModeOfOperation::ProfilePosition
        &&& self.profile_position_status == ProfilePositionStatus::SetpointAcknowledge
        &&& self.start_travel
    }

    /// The drive at position `position`, which the dictionary shows.
    pub open spec fn at_position(self, position: i32) -> DriveView {
        if position != self.status.actual_position {
            DriveView {
                status: Status { actual_position: position, ..self.status },
                ..self
            }.with_entries(
                after_write(self.entries(), POSITION_ACTUAL, 0, DataValue::Integer32(position)),
            )
        } else {
            self
        }
    }

    /// One tick of the profile position mode while it waits for a set-point. A
    /// rising edge of bit 4 arms a move. An armed move whose parameters the
    /// dictionary holds is planned: an invalid one clears the first mode-specific
    /// status bit, a stationary one starts at once, and any other asks for a
    /// trajectory.
    pub open spec fn acknowledge(self, now: u64) -> (DriveView, Option<MotionRequest>) {
        let armed = if !self.start_travel && self.rising_edge() {
            DriveView { start_travel: true, target_reached: false, ..self }
        } else {
            self
        };
        if !armed.start_travel {
            (armed, None)
        } else {
            match armed.move_parameters() {
                None => (armed, None),
                Some((a, a_max, v, target)) => match motion_plan(
                    a,
                    a_max,
                    v,
                    armed.status.actual_position,
                    target,
                    armed.relative,
                ) {
                    Err(_) => (DriveView { status_oms1: false, ..armed }, None),
                    Ok(MotionPlan::Stationary) => (
                        armed.begin_move(now, Map::<u64, i32>::empty().insert(0, 0)),
                        None,
                    ),
                    Ok(MotionPlan::Generate(request)) => (armed, Some(request)),
                },
            }
        }
    }

    /// One tick of the profile position mode while it moves: the drive is where
    /// the trajectory is at this time, and the target is reached once the time is
    /// past the trajectory's end.
    pub open spec fn follow(self, now: u64) -> DriveView {
        let elapsed = self.elapsed(now);
        let moved = match position_at(self.motion, elapsed) {
            Some(position) => self.at_position(position),
            None => self,
        };
        if elapsed > end_of(self.motion) {
            DriveView {
                target_reached: true,
                profile_position_status: ProfilePositionStatus::SetpointAcknowledge,
                ..moved
            }
        } else {
            DriveView { target_reached: false, ..moved }
        }
    }

    /// One tick of the profile position mode, and the move that it asks a
    /// trajectory for.
    pub open spec fn profile_position(self, now: u64) -> (DriveView, Option<MotionRequest>) {
        match self.profile_position_status {
            ProfilePositionStatus::SetpointAcknowledge => self.acknowledge(now),
            ProfilePositionStatus::Moving => (self.follow(now), None),
        }
    }

    /// One tick of the profile velocity mode.
    pub open spec fn profile_velocity(self, now: u64) -> DriveView {
        match self.profile_velocity_status {
            ProfileVelocityStatus::WaitingForStart => if !self.halt {
                DriveView {
                    target_reached: true,
                    move_duration: RAMP_DURATION,
                    timer: now,
                    profile_velocity_status: ProfileVelocityStatus::RampingUp,
                    ..self
                }
            } else {
                DriveView { target_reached: true, ..self }
            },
            ProfileVelocityStatus::RampingUp => if self.elapsed(now) > self.move_duration {
                DriveView {
                    target_reached: true,
                    profile_velocity_status: ProfileVelocityStatus::Rotating,
                    ..self
                }
            } else if self.halt {
                DriveView {
                    target_reached: false,
                    timer: now,
                    profile_velocity_status: ProfileVelocityStatus::RampingDown,
                    ..self
                }
            } else {
                DriveView { target_reached: false, ..self }
            },
            ProfileVelocityStatus::Rotating => if self.halt {
                DriveView {
                    target_reached: true,
                    move_duration: RAMP_DURATION,
                    timer: now,
                    profile_velocity_status: ProfileVelocityStatus::RampingDown,
                    ..self
                }
            } else {
                DriveView { target_reached: true, ..self }
            },
            ProfileVelocityStatus::RampingDown => if self.elapsed(now) > self.move_duration {
                DriveView {
                    target_reached: false,
                    profile_velocity_status: ProfileVelocityStatus::WaitingForStart,
                    ..self
                }
            } else {
                DriveView { target_reached: false, ..self }
            },
        }
    }

    /// One tick of the homing mode.
    pub open spec fn homing(self, now: u64) -> DriveView {
        match self.home_status {
            HomeStatus::WaitingForStart => if self.rising_edge() {
                DriveView {
                    target_reached: true,
                    status_oms2: false,
                    timer: now,
                    home_status: HomeStatus::Homing,
                    ..self
                }
            } else {
                DriveView { target_reached: true, status_oms2: false, ..self }
            },
            HomeStatus::Homing => if self.elapsed(now) > HOMING_DURATION {
                DriveView {
                    target_reached: true,
                    status_oms1: true,
                    status_oms2: false,
                    home_status: HomeStatus::WaitingForStart,
                    ..self
                }
            } else {
                DriveView { target_reached: false, status_oms1: false, status_oms2: false, ..self }
            },
        }
    }

    /// One tick of the motion mode that is active: none unless operation is
    /// enabled.
    pub open spec fn update_operation(self, now: u64) -> (DriveView, Option<MotionRequest>) {
        if self.state != State::OperationEnabled {
            (self, None)
        } else {
            match self.mode_of_operation_display {
                ModeOfOperation::ProfilePosition => self.profile_position(now),
                ModeOfOperation::ProfileVelocity => (self.profile_velocity(now), None),
                ModeOfOperation::Homing => (self.homing(now), None),
                ModeOfOperation::NoMode => (self, None),
            }
        }
    }

    /// Assembles the statusword and, where it changed, shows it in the dictionary.
    pub open spec fn set_statusword(self) -> DriveView {
        let word = statusword_of(
            self.status.statusword,
            self.state,
            self.target_reached,
            self.status_oms1,
            self.status_oms2,
        );
        if word != self.status.statusword {
            DriveView { status: Status { statusword: word, ..self.status }, ..self }.with_entries(
                after_write(self.entries(), STATUSWORD, 0, DataValue::Unsigned16(word)),
            )
        } else {
            self
        }
    }

    /// One tick at time `now`: mode, command, drive state, motion mode and
    /// statusword, in this order; and the move that it asks a trajectory for.
    pub open spec fn tick(self, now: u64) -> (DriveView, Option<MotionRequest>) {
        let commanded = self.update_mode_of_operation().update_command().update_state();
        let (moved, request) = commanded.update_operation(now);
        (moved.set_statusword(), request)
    }

    /// The drive after the trajectory `points` arrived at time `now`: it follows
    /// it where it waited for one, and is unchanged otherwise.
    pub open spec fn start_move(self, now: u64, points: Map<u64, i32>) -> DriveView {
        if self.awaits_trajectory() {
            self.begin_move(now, points).set_statusword()
        } else {
            self
        }
    }
}

/// The controller of one drive.
pub struct MotorController {
    pub node: Node,
    pub status: Status,
    pub mode_of_operation_display: ModeOfOperation,
    pub controlword: u16,
    pub command: Command,
    pub state: State,
    pub profile_position_status: ProfilePositionStatus,
    pub profile_velocity_status: ProfileVelocityStatus,
    pub halt: bool,
    /// Bit 4 of the controlword at this tick and at the tick before.
    pub control_oms1: [bool; 2],
    pub home_status: HomeStatus,
    pub target_reached: bool,
    pub start_travel: bool,
    pub status_oms1: bool,
    pub status_oms2: bool,
    /// The time at which the timer was armed, in milliseconds.
    pub timer: u64,
    pub relative: bool,
    pub motion_map: MotionMap,
    /// Milliseconds that the current ramp takes.
    pub move_duration: u64,
}

impl MotorController {
    /// What this drive is, as far as its ticks are concerned.
    pub open spec fn view(&self) -> DriveView {
        DriveView {
            node: self.node@,
            status: self.status,
            mode_of_operation_display: self.mode_of_operation_display,
            controlword: self.controlword,
            command: self.command,
            state: self.state,
            profile_position_status: self.profile_position_status,
            profile_velocity_status: self.profile_velocity_status,
            home_status: self.home_status,
            halt: self.halt,
            setpoint: self.control_oms1[0],
            setpoint_before: self.control_oms1[1],
            target_reached: self.target_reached,
            start_travel: self.start_travel,
            status_oms1: self.status_oms1,
            status_oms2: self.status_oms2,
            timer: self.timer,
            relative: self.relative,
            motion: self.motion_map@,
            move_duration: self.move_duration,
        }
    }

    /// Initialize the motor controller.
    pub fn initialize(node: Node) -> (controller: Self)
        ensures
            controller.node == node,
            controller.status == (Status { statusword: 0, actual_position: 0 }),
            controller.mode_of_operation_display == ModeOfOperation::NoMode,
            controller.controlword == 0,
            controller.command == Command::NoCommand,
            controller.state == State::NotReadyToSwitchOn,
            controller.profile_position_status == ProfilePositionStatus::SetpointAcknowledge,
            controller.profile_velocity_status == ProfileVelocityStatus::WaitingForStart,
            controller.home_status == HomeStatus::WaitingForStart,
            !controller.halt,
            !controller.control_oms1[0],
            !controller.control_oms1[1],
            !controller.target_reached,
            !controller.start_travel,
            !controller.status_oms1,
            !controller.status_oms2,
            controller.timer == 0,
            !controller.relative,
            controller.motion_map@ == Map::<u64, i32>::empty().insert(0, 0),
            controller.move_duration == 0,
    {
        Self {
            node,
            status: Status { statusword: 0, actual_position: 0 },
            mode_of_operation_display: ModeOfOperation::NoMode,
            controlword: 0,
            command: Command::NoCommand,
            state: State::NotReadyToSwitchOn,
            profile_position_status: ProfilePositionStatus::SetpointAcknowledge,
            profile_velocity_status: ProfileVelocityStatus::WaitingForStart,
            halt: false,
            control_oms1: [false, false],
            home_status: HomeStatus::WaitingForStart,
            target_reached: false,
            start_travel: false,
            status_oms1: false,
            status_oms2: false,
            timer: 0,
            relative: false,
            motion_map: MotionMap::single(0, 0),
            move_duration: 0,
        }
    }

    /// One tick of the controller at time `now_ms`, in milliseconds of a clock
    /// that does not go back. Returns the move for which a trajectory is to be
    /// handed to `start_move`, if this tick asks for one. A tick that fails
    /// leaves the controller as it was.
    pub fn update_controller(&mut self, now_ms: u64) -> (result: Result<
        Option<MotionRequest>,
        ControllerError,
    >)
        ensures
            match old(self)@.tick_error() {
                Some(e) => result == Err::<Option<MotionRequest>, ControllerError>(e)
                    && final(self)@ == old(self)@,
                None => result == Ok::<Option<MotionRequest>, ControllerError>(
                    old(self)@.tick(now_ms).1,
                ) && final(self)@ == old(self)@.tick(now_ms).0,
            },
            same_layout(old(self).node.eds_data.od@, final(self).node.eds_data.od@),
            final(self).node.eds_data.file_info == old(self).node.eds_data.file_info,
            final(self).node.eds_data.device_info == old(self).node.eds_data.device_info,
    {
        let mode = match self.node.eds_data.od.get_value(MODE_OF_OPERATION, 0) {
            Some(DataValue::Integer8(value)) => match ModeOfOperation::mode_of_operation(value) {
                Some(mode) => mode,
                None => {
                    proof {
                        lemma_same_layout_refl(self.node.eds_data.od@);
                    }
                    return Err(ControllerError::ModeNotImplemented(value));
                },
            },
            _ => {
                proof {
                    lemma_same_layout_refl(self.node.eds_data.od@);
                }
                return Err(ControllerError::ModeNotFound);
            },
        };
        let controlword = match self.node.eds_data.od.get_value(CONTROLWORD, 0) {
            Some(DataValue::Unsigned16(value)) => value,
            _ => {
                proof {
                    lemma_same_layout_refl(self.node.eds_data.od@);
                }
                return Err(ControllerError::ControlwordNotFound);
            },
        };
        let ghost start = self.node.eds_data.od@;
        self.update_mode_of_operation(mode);
        let ghost after_mode = self.node.eds_data.od@;
        self.update_command(controlword);
        self.update_state();
        let request = self.update_operation(now_ms);
        let ghost after_operation = self.node.eds_data.od@;
        self.set_statusword();
        proof {
            crate::cia301::lemma_same_layout_trans(start, after_mode, after_operation);
            crate::cia301::lemma_same_layout_trans(start, after_operation, self.node.eds_data.od@);
        }
        Ok(request)
    }

    /// Hands the controller the trajectory of the move that the last tick asked
    /// for, at time `now_ms`. The controller follows it where it waits for one and
    /// ignores it otherwise. Returns whether it follows it.
    pub fn start_move(&mut self, now_ms: u64, motion_map: MotionMap) -> (accepted: bool)
        ensures
            accepted == old(self)@.awaits_trajectory(),
            final(self)@ == old(self)@.start_move(now_ms, motion_map@),
            same_layout(old(self).node.eds_data.od@, final(self).node.eds_data.od@),
            final(self).node.eds_data.file_info == old(self).node.eds_data.file_info,
            final(self).node.eds_data.device_info == old(self).node.eds_data.device_info,
    {
        let waiting = match (
            &self.state,
            &self.mode_of_operation_display,
            &self.profile_position_status,
        ) {
            (
                State::OperationEnabled,
                ModeOfOperation::ProfilePosition,
                ProfilePositionStatus::SetpointAcknowledge,
            ) => self.start_travel,
            _ => false,
        };
        if !waiting {
            proof {
                lemma_same_layout_refl(self.node.eds_data.od@);
            }
            return false;
        }
        self.begin_move(now_ms, motion_map);
        self.set_statusword();
        true
    }

    /// Starts to follow `motion_map` at time `now_ms`.
    fn begin_move(&mut self, now_ms: u64, motion_map: MotionMap)
        ensures
            final(self)@ == old(self)@.begin_move(now_ms, motion_map@),
            final(self).node == old(self).node,
    {
        self.motion_map = motion_map;
        self.status_oms1 = true;
        self.target_reached = false;
        self.start_travel = false;
        self.timer = now_ms;
        self.profile_position_status = ProfilePositionStatus::Moving;
    }

    /// Milliseconds since the timer was armed.
    fn elapsed(&self, now_ms: u64) -> (elapsed: u64)
        ensures
            elapsed == elapsed_since(self.timer, now_ms),
    {
        if now_ms >= self.timer {
            now_ms - self.timer
        } else {
            0
        }
    }

    /// One tick of the motion mode that is active.
    fn update_operation(&mut self, now_ms: u64) -> (request: Option<MotionRequest>)
        ensures
            final(self)@ == old(self)@.update_operation(now_ms).0,
            request == old(self)@.update_operation(now_ms).1,
            same_layout(old(self).node.eds_data.od@, final(self).node.eds_data.od@),
            final(self).node.eds_data.file_info == old(self).node.eds_data.file_info,
            final(self).node.eds_data.device_info == old(self).node.eds_data.device_info,
    {
        match (&self.mode_of_operation_display, &self.state) {
            (ModeOfOperation::ProfilePosition, State::OperationEnabled) => self.profile_position(
                now_ms,
            ),
            (ModeOfOperation::ProfileVelocity, State::OperationEnabled) => {
                self.profile_velocity(now_ms);
                proof {
                    lemma_same_layout_refl(self.node.eds_data.od@);
                }
                None
            },
            (ModeOfOperation::Homing, State::OperationEnabled) => {
                self.homing(now_ms);
                proof {
                    lemma_same_layout_refl(self.node.eds_data.od@);
                }
                None
            },
            _ => {
                proof {
                    lemma_same_layout_refl(self.node.eds_data.od@);
                }
                None
            },
        }
    }

    /// The parameters of a move that the dictionary holds.
    fn move_parameters(&self) -> (parameters: Option<(u32, u32, u32, i32)>)
        ensures
            parameters == self@.move_parameters(),
    {
        let acceleration = self.node.eds_data.od.get_value(PROFILE_ACCELERATION, 0);
        let max_acceleration = self.node.eds_data.od.get_value(MAX_ACCELERATION, 0);
        let profile_velocity = self.node.eds_data.od.get_value(PROFILE_VELOCITY, 0);
        let target_position = self.node.eds_data.od.get_value(TARGET_POSITION, 0);
        match (acceleration, max_acceleration, profile_velocity, target_position) {
            (
                Some(DataValue::Unsigned32(acceleration)),
                Some(DataValue::Unsigned32(max_acceleration)),
                Some(DataValue::Unsigned32(profile_velocity)),
                Some(DataValue::Integer32(target_position)),
            ) => Some((acceleration, max_acceleration, profile_velocity, target_position)),
            _ => None,
        }
    }

    /// Takes the drive to `position` and shows it in the dictionary.
    fn set_position(&mut self, position: i32)
        ensures
            final(self)@ == old(self)@.at_position(position),
            same_layout(old(self).node.eds_data.od@, final(self).node.eds_data.od@),
            final(self).node.eds_data.file_info == old(self).node.eds_data.file_info,
            final(self).node.eds_data.device_info == old(self).node.eds_data.device_info,
    {
        if self.status.actual_position != position {
            self.status.actual_position = position;
            self.node.eds_data.od.mutate(POSITION_ACTUAL, 0, DataValue::Integer32(position));
        } else {
            proof {
                lemma_same_layout_refl(self.node.eds_data.od@);
            }
        }
    }

    /// One tick of the profile position mode while it waits for a set-point.
    fn acknowledge(&mut self, now_ms: u64) -> (request: Option<MotionRequest>)
        ensures
            final(self)@ == old(self)@.acknowledge(now_ms).0,
            request == old(self)@.acknowledge(now_ms).1,
            final(self).node == old(self).node,
    {
        if !self.start_travel && self.control_oms1[0] && !self.control_oms1[1] {
            self.start_travel = true;
            self.target_reached = false;
        }
        if !self.start_travel {
            return None;
        }
        let parameters = self.move_parameters();
        let (acceleration, max_acceleration, profile_velocity, target_position) = match parameters {
            Some(parameters) => parameters,
            None => {
                return None;
            },
        };
        let plan = position_motion_map(
            self.node.id,
            acceleration,
            max_acceleration,
            profile_velocity,
            self.status.actual_position,
            target_position,
            self.relative,
        );
        match plan {
            Ok(MotionPlan::Stationary) => {
                self.begin_move(now_ms, MotionMap::single(0, 0));
                None
            },
            Ok(MotionPlan::Generate(request)) => Some(request),
            Err(_e) => {
                self.status_oms1 = false;
                None
            },
        }
    }

    /// One tick of the profile position mode while it moves.
    fn follow(&mut self, now_ms: u64)
        ensures
            final(self)@ == old(self)@.follow(now_ms),
            same_layout(old(self).node.eds_data.od@, final(self).node.eds_data.od@),
            final(self).node.eds_data.file_info == old(self).node.eds_data.file_info,
            final(self).node.eds_data.device_info == old(self).node.eds_data.device_info,
    {
        let elapsed_time = self.elapsed(now_ms);
        let end_time = self.motion_map.end_time();
        let position = self.motion_map.position_at(elapsed_time);
        match position {
            Some(new_actual_position) => {
                self.set_position(new_actual_position);
            },
            None => {
                proof {
                    lemma_same_layout_refl(self.node.eds_data.od@);
                }
            },
        }
        if elapsed_time > end_time {
            self.target_reached = true;
            self.profile_position_status = ProfilePositionStatus::SetpointAcknowledge;
        } else {
            self.target_reached = false;
        }
    }

    /// One tick of the profile position mode.
    fn profile_position(&mut self, now_ms: u64) -> (request: Option<MotionRequest>)
        ensures
            final(self)@ == old(self)@.profile_position(now_ms).0,
            request == old(self)@.profile_position(now_ms).1,
            same_layout(old(self).node.eds_data.od@, final(self).node.eds_data.od@),
            final(self).node.eds_data.file_info == old(self).node.eds_data.file_info,
            final(self).node.eds_data.device_info == old(self).node.eds_data.device_info,
    {
        match self.profile_position_status {
            ProfilePositionStatus::SetpointAcknowledge => {
                proof {
                    lemma_same_layout_refl(self.node.eds_data.od@);
                }
                self.acknowledge(now_ms)
            },
            ProfilePositionStatus::Moving => {
                self.follow(now_ms);
                None
            },
        }
    }

    /// One tick of the profile velocity mode.
    fn profile_velocity(&mut self, now_ms: u64)
        ensures
            final(self)@ == old(self)@.profile_velocity(now_ms),
            final(self).node == old(self).node,
    {
        let ramp_over = self.elapsed(now_ms) > self.move_duration;
        let halt = self.halt;
        // What becomes of: target reached, the timer (armed or not), the ramp
        // duration (set or not), and the sub-state.
        let (target_reached, arm, ramp, next) = match self.profile_velocity_status {
            ProfileVelocityStatus::WaitingForStart => if !halt {
                (true, true, true, ProfileVelocityStatus::RampingUp)
            } else {
                (true, false, false, ProfileVelocityStatus::WaitingForStart)
            },
            ProfileVelocityStatus::RampingUp => if ramp_over {
                (true, false, false, ProfileVelocityStatus::Rotating)
            } else if halt {
                (false, true, false, ProfileVelocityStatus::RampingDown)
            } else {
                (false, false, false, ProfileVelocityStatus::RampingUp)
            },
            ProfileVelocityStatus::Rotating => if halt {
                (true, true, true, ProfileVelocityStatus::RampingDown)
            } else {
                (true, false, false, ProfileVelocityStatus::Rotating)
            },
            ProfileVelocityStatus::RampingDown => if ramp_over {
                (false, false, false, ProfileVelocityStatus::WaitingForStart)
            } else {
                (false, false, false, ProfileVelocityStatus::RampingDown)
            },
        };
        if arm {
            self.timer = now_ms;
        }
        if ramp {
            self.move_duration = RAMP_DURATION;
        }
        self.target_reached = target_reached;
        self.profile_velocity_status = next;
    }

    /// One tick of the homing mode.
    fn homing(&mut self, now_ms: u64)
        ensures
            final(self)@ == old(self)@.homing(now_ms),
            final(self).node == old(self).node,
    {
        let homed = self.elapsed(now_ms) > HOMING_DURATION;
        match self.home_status {
            HomeStatus::WaitingForStart => {
                self.target_reached = true;
                self.status_oms2 = false;
                if self.control_oms1[0] && !self.control_oms1[1] {
                    self.timer = now_ms;
                    self.home_status = HomeStatus::Homing;
                }
            },
            HomeStatus::Homing => {
                self.status_oms2 = false;
                if homed {
                    self.target_reached = true;
                    self.status_oms1 = true;
                    self.home_status = HomeStatus::WaitingForStart;
                } else {
                    self.target_reached = false;
                    self.status_oms1 = false;
                }
            },
        }
    }

    fn update_command(&mut self, controlword: u16)
        requires
            old(self)@.controlword_in() == Some(controlword),
        ensures
            final(self)@ == old(self)@.update_command(),
            final(self).node == old(self).node,
    {
        let b0 = get_bit_16(&controlword, 0);
        let b1 = get_bit_16(&controlword, 1);
        let b2 = get_bit_16(&controlword, 2);
        let b3 = get_bit_16(&controlword, 3);
        let b7 = get_bit_16(&controlword, 7);
        self.command = match (b7, b3, b2, b1, b0) {
            (false, _, true, true, false) => Command::Shutdown,
            (false, false, true, true, true) => Command::SwitchOn,
            (false, _, _, false, _) => Command::DisableVoltage,
            (false, _, false, true, _) => Command::QuickStop,
            (false, true, true, true, true) => Command::EnableOperation,
            (true, _, _, _, _) => Command::FaultReset,
        };
        self.controlword = controlword;
        self.control_oms1 = [get_bit_16(&controlword, 4), self.control_oms1[0]];
        self.relative = get_bit_16(&controlword, 6);
        self.halt = get_bit_16(&controlword, 8);
    }

    fn update_mode_of_operation(&mut self, mode_of_operation: ModeOfOperation)
        requires
            old(self)@.mode_in() == mode_of_operation,
        ensures
            final(self)@ == old(self)@.update_mode_of_operation(),
            same_layout(old(self).node.eds_data.od@, final(self).node.eds_data.od@),
            final(self).node.eds_data.file_info == old(self).node.eds_data.file_info,
            final(self).node.eds_data.device_info == old(self).node.eds_data.device_info,
    {
        if self.mode_of_operation_display != mode_of_operation {
            self.mode_of_operation_display = mode_of_operation;
            self.profile_position_status = ProfilePositionStatus::SetpointAcknowledge;
            self.profile_velocity_status = ProfileVelocityStatus::WaitingForStart;
            self.node.eds_data.od.mutate(
                MODE_OF_OPERATION_DISPLAY,
                0,
                DataValue::Integer8(self.mode_of_operation_display.mode_code()),
            );
        } else {
            proof {
                lemma_same_layout_refl(self.node.eds_data.od@);
            }
        }
    }

    fn update_state(&mut self)
        ensures
            final(self)@ == old(self)@.update_state(),
            final(self).node == old(self).node,
    {
        self.state = match self.state {
            State::NotReadyToSwitchOn => State::SwitchedOnDisabled,
            State::SwitchedOnDisabled => match &self.command {
                Command::Shutdown => State::ReadyToSwitchOn,
                _ => State::SwitchedOnDisabled,
            },
            State::ReadyToSwitchOn => match &self.command {
                Command::SwitchOn => State::SwitchedOn,
                Command::DisableVoltage => State::SwitchedOnDisabled,
                _ => State::ReadyToSwitchOn,
            },
            State::SwitchedOn => match &self.command {
                Command::EnableOperation => State::OperationEnabled,
                Command::Shutdown => State::ReadyToSwitchOn,
                _ => State::SwitchedOn,
            },
            State::OperationEnabled => match &self.command {
                Command::QuickStop => State::QuickStopActive,
                Command::DisableVoltage => State::SwitchedOnDisabled,
                Command::SwitchOn => State::SwitchedOn,
                _ => State::OperationEnabled,
            },
            State::QuickStopActive => match &self.command {
                Command::DisableVoltage => State::SwitchedOnDisabled,
                Command::EnableOperationAfterQuickStop => State::OperationEnabled,
                _ => State::QuickStopActive,
            },
            State::FaultReactionActive => State::Fault,
            State::Fault => match &self.command {
                Command::FaultReset => State::SwitchedOnDisabled,
                _ => State::Fault,
            },
        };
    }

    fn set_statusword(&mut self)
        ensures
            final(self)@ == old(self)@.set_statusword(),
            same_layout(old(self).node.eds_data.od@, final(self).node.eds_data.od@),
            final(self).node.eds_data.file_info == old(self).node.eds_data.file_info,
            final(self).node.eds_data.device_info == old(self).node.eds_data.device_info,
    {
        let mut statusword = self.status.statusword;
        let bits = state_bit_table(&self.state);
        set_bits(&mut statusword, &bits);
        statusword = set_bit_16(&statusword, 10, self.target_reached);
        statusword = set_bit_16(&statusword, 12, self.status_oms1);
        statusword = set_bit_16(&statusword, 13, self.status_oms2);
        if self.status.statusword != statusword {
            self.status.statusword = statusword;
            self.node.eds_data.od.mutate(STATUSWORD, 0, DataValue::Unsigned16(statusword));
        } else {
            proof {
                lemma_same_layout_refl(self.node.eds_data.od@);
            }
        }
    }
}

/// The statusword bits that a drive state fixes, each with its value.
fn state_bit_table(state: &State) -> (bits: Vec<(usize, bool)>)
    ensures
        bits@ == state_bits(*state),
        forall|i: int| 0 <= i < bits@.len() ==> (#[trigger] bits@[i]).0 < 16,
{
    match state {
        State::NotReadyToSwitchOn => vec![
            (0, false),
            (1, false),
            (2, false),
            (3, false),
            (5, false),
            (6, false),
        ],
        State::SwitchedOnDisabled => vec![(0, false), (1, false), (2, false), (3, false), (6, true)],
        State::ReadyToSwitchOn => vec![
            (0, true),
            (1, false),
            (2, false),
            (3, false),
            (5, true),
            (6, false),
        ],
        State::SwitchedOn => vec![(0, true), (1, true), (2, false), (3, false), (5, true), (6, false)],
        State::OperationEnabled => vec![
            (0, true),
            (1, true),
            (2, true),
            (3, false),
            (5, true),
            (6, false),
        ],
        State::QuickStopActive => vec![
            (0, true),
            (1, true),
            (2, true),
            (3, false),
            (5, false),
            (6, false),
        ],
        State::FaultReactionActive => vec![(0, true), (1, true), (2, true), (3, true), (6, false)],
        State::Fault => vec![(0, false), (1, false), (2, false), (3, true), (6, false)],
    }
}

/// Whether bit `index` of `u16_value` is set.
pub fn get_bit_16(u16_value: &u16, index: usize) -> (bit: bool)
    requires
        index < 16,
    ensures
        bit == bit_of(*u16_value, index),
{
    let mask: u16 = 1u16 << index;
    (*u16_value & mask) != 0
}

/// `u16_value` with bit `bit_position` set or cleared.
pub fn set_bit_16(u16_value: &u16, bit_position: usize, value: bool) -> (word: u16)
    requires
        bit_position < 16,
    ensures
        word == with_bit(*u16_value, bit_position, value),
{
    let mask: u16 = 1u16 << bit_position;
    if value {
        *u16_value | mask
    } else {
        *u16_value & !mask
    }
}

/// Sets or clears each bit of `bits` in `statusword`, in order.
pub fn set_bits(statusword: &mut u16, bits: &Vec<(usize, bool)>)
    requires
        forall|i: int| 0 <= i < bits@.len() ==> (#[trigger] bits@[i]).0 < 16,
    ensures
        *final(statusword) == with_bits(*old(statusword), bits@),
{
    let mut i: usize = 0;
    assert(bits@.skip(0) =~= bits@);
    while i < bits.len()
        invariant
            i <= bits@.len(),
            forall|j: int| 0 <= j < bits@.len() ==> (#[trigger] bits@[j]).0 < 16,
            with_bits(*statusword, bits@.skip(i as int)) == with_bits(*old(statusword), bits@),
        decreases bits@.len() - i,
    {
        let (bit, value) = bits[i];
        assert(bits@.skip(i as int).drop_first() =~= bits@.skip(i + 1));
        *statusword = set_bit_16(statusword, bit, value);
        i = i + 1;
    }
}

/// A dictionary has its own layout.
pub proof fn lemma_same_layout_refl(entries: Entries)
    ensures
        same_layout(entries, entries),
{
}

} // verus!
