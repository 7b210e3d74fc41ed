//! The command protocol parser: one addressed, typed message in, a validated
//! command against a device-set expression out.
//!
//! The accepted path shapes, with segments counted from the leading empty
//! segment that a leading slash produces:
//!
//! ```text
//! /devices/<set>/stop
//! /devices/<set>/vibrate/speed        one float-like argument: the speed
//! /devices/<set>/vibrateMap/speedMap  one numeric argument (motor index)
//!                                     and one float-like argument (speed)
//! ```
//!
//! Floating-point values never cross into this crate as floats: a float-like
//! argument arrives as the bit pattern of the double-precision value it
//! widens to, together with its coercion to an unsigned integer, both
//! computed at the decoding boundary. "Float-like" means a single- or
//! double-precision argument; a numeric argument additionally admits an
//! integer.
use vstd::prelude::*;
use crate::text::{split_slash, split_path, str_eq};

verus! {

/// The bit pattern of a double-precision vibration speed.
pub type SpeedBits = u64;

/// A motor index on a device.
pub type Motor = u32;

/// One decoded message argument, as handed in by the transport boundary.
#[derive(Debug, Clone, Copy, PartialEq, Eq, Structural)]
pub enum OscArg {
    /// A 32-bit integer argument.
    Int(i32),
    /// A single-precision argument: the bit pattern of the double it widens
    /// to, and its coercion to an unsigned integer (saturating).
    Float { bits: u64, trunc: u32 },
    /// A double-precision argument: its bit pattern, and its coercion to an
    /// unsigned integer (saturating).
    Double { bits: u64, trunc: u32 },
    /// An argument of any other type; never valid in a command.
    Other,
}

/// One decoded inbound message: a slash-delimited address path and an
/// optional ordered argument list.
pub struct OscMessage {
    pub addr: String,
    pub args: Option<Vec<OscArg>>,
}

/// A validated motor command.
#[derive(Debug, Clone, Copy, PartialEq, Eq, Structural)]
pub enum Command {
    /// Stop all motors.
    Stop,
    /// Set all motors to one speed, given as double-precision bits.
    Vibrate(SpeedBits),
    /// Set one motor to a speed, given as double-precision bits.
    VibrateMap(Motor, SpeedBits),
}

/// A validated command together with the device-set expression it targets;
/// the expression is carried through uninterpreted.
#[derive(Debug, Clone)]
pub struct CommandBroadcast {
    pub devices_set: String,
    pub command: Command,
}

/// The mathematical value of a [`CommandBroadcast`].
pub ghost struct BroadcastView {
    pub devices_set: Seq<char>,
    pub command: Command,
}

impl View for CommandBroadcast {
    type V = BroadcastView;

    open spec fn view(&self) -> BroadcastView {
        BroadcastView { devices_set: self.devices_set@, command: self.command }
    }
}

/// Why a message was rejected. Rejections are diagnostics, never fatal: the
/// message is dropped and the dispatch loop continues.
#[derive(Debug, Clone, Copy, PartialEq, Eq)]
pub enum ParseError {
    /// The path does not address `devices`.
    InvalidMessage,
    /// The path names no known command.
    InvalidCommand,
    /// The command's argument-name segment is wrong or missing.
    InvalidArgumentName,
    /// The command needs arguments and the message carries none at all.
    MissingArguments,
    /// An argument has the wrong type or is missing; carries the offending
    /// argument, or `None` where the list is too short.
    InvalidArgumentValue(Option<OscArg>),
}

/// The human-readable reason for a rejection, as the dispatch loop logs it.
pub open spec fn describe_spec(e: ParseError) -> Seq<char> {
    match e {
        ParseError::InvalidMessage => "invalid message"@,
        ParseError::InvalidCommand => "invalid command"@,
        ParseError::InvalidArgumentName => "invalid argument name"@,
        ParseError::MissingArguments => "invalid argument value: none"@,
        ParseError::InvalidArgumentValue(_) => "invalid argument value"@,
    }
}

impl ParseError {
    /// The human-readable reason for this rejection.
    pub fn describe(&self) -> (r: String)
        ensures
            r@ == describe_spec(*self),
    {
        match self {
            ParseError::InvalidMessage => "invalid message".to_owned(),
            ParseError::InvalidCommand => "invalid command".to_owned(),
            ParseError::InvalidArgumentName => "invalid argument name".to_owned(),
            ParseError::MissingArguments => "invalid argument value: none".to_owned(),
            ParseError::InvalidArgumentValue(_) => "invalid argument value".to_owned(),
        }
    }
}

/// The argument at position `i`, or `None` where the list is too short.
pub open spec fn arg_at(args: Seq<OscArg>, i: int) -> Option<OscArg> {
    if 0 <= i < args.len() {
        Some(args[i])
    } else {
        None
    }
}

/// The double-precision bits of a float-like argument; `None` for any other
/// argument, or for a missing one.
pub open spec fn speed_bits(arg: Option<OscArg>) -> Option<SpeedBits> {
    match arg {
        Some(OscArg::Double { bits, trunc }) => Some(bits),
        Some(OscArg::Float { bits, trunc }) => Some(bits),
        _ => None,
    }
}

/// The motor index a numeric argument coerces to: an integer reinterpreted as
/// unsigned, or a float-like value's unsigned coercion; `None` for any other
/// argument, or for a missing one.
pub open spec fn motor_index(arg: Option<OscArg>) -> Option<Motor> {
    match arg {
        Some(OscArg::Int(x)) => Some(x as u32),
        Some(OscArg::Float { bits, trunc }) => Some(trunc),
        Some(OscArg::Double { bits, trunc }) => Some(trunc),
        _ => None,
    }
}

/// The argument list's mathematical value: `None` where the message carries
/// no list at all.
pub open spec fn args_view(args: Option<Vec<OscArg>>) -> Option<Seq<OscArg>> {
    match args {
        Some(v) => Some(v@),
        None => None,
    }
}

/// What parsing an address path with an argument list yields: the validated
/// broadcast, or the exact rejection. This is the whole grammar.
pub open spec fn parse_spec(addr: Seq<char>, args: Option<Seq<OscArg>>) -> Result<
    BroadcastView,
    ParseError,
> {
    let path = split_slash(addr);
    if path.len() < 2 || path[1] != "devices"@ {
        Err(ParseError::InvalidMessage)
    } else if path.len() < 4 {
        Err(ParseError::InvalidCommand)
    } else if path[3] == "stop"@ {
        Ok(BroadcastView { devices_set: path[2], command: Command::Stop })
    } else if path[3] == "vibrate"@ {
        if path.len() < 5 || path[4] != "speed"@ {
            Err(ParseError::InvalidArgumentName)
        } else {
            match args {
                None => Err(ParseError::MissingArguments),
                Some(a) => match speed_bits(arg_at(a, 0)) {
                    Some(bits) => Ok(
                        BroadcastView { devices_set: path[2], command: Command::Vibrate(bits) },
                    ),
                    None => Err(ParseError::InvalidArgumentValue(arg_at(a, 0))),
                },
            }
        }
    } else if path[3] == "vibrateMap"@ {
        if path.len() < 5 || path[4] != "speedMap"@ {
            Err(ParseError::InvalidArgumentName)
        } else {
            match args {
                None => Err(ParseError::MissingArguments),
                Some(a) => match motor_index(arg_at(a, 0)) {
                    None => Err(ParseError::InvalidArgumentValue(arg_at(a, 0))),
                    Some(motor) => match speed_bits(arg_at(a, 1)) {
                        None => Err(ParseError::InvalidArgumentValue(arg_at(a, 1))),
                        Some(bits) => Ok(
                            BroadcastView {
                                devices_set: path[2],
                                command: Command::VibrateMap(motor, bits),
                            },
                        ),
                    },
                },
            }
        }
    } else {
        Err(ParseError::InvalidCommand)
    }
}

/// The mathematical value of a parse result.
pub open spec fn broadcast_view_of(r: Result<CommandBroadcast, ParseError>) -> Result<
    BroadcastView,
    ParseError,
> {
    match r {
        Ok(b) => Ok(b@),
        Err(e) => Err(e),
    }
}

/// The argument at position `i`, or `None` where the list is too short.
fn arg_get(args: &Vec<OscArg>, i: usize) -> (r: Option<OscArg>)
    ensures
        r == arg_at(args@, i as int),
{
    if i < args.len() {
        Some(args[i])
    } else {
        None
    }
}

/// The double-precision bits of the float-like argument at position `i`.
fn speed_of(args: &Vec<OscArg>, i: usize) -> (r: Option<SpeedBits>)
    ensures
        r == speed_bits(arg_at(args@, i as int)),
{
    match arg_get(args, i) {
        Some(OscArg::Double { bits, trunc: _ }) => Some(bits),
        Some(OscArg::Float { bits, trunc: _ }) => Some(bits),
        _ => None,
    }
}

/// The motor index the numeric argument at position `i` coerces to.
fn motor_of(args: &Vec<OscArg>, i: usize) -> (r: Option<Motor>)
    ensures
        r == motor_index(arg_at(args@, i as int)),
{
    match arg_get(args, i) {
        Some(OscArg::Int(x)) => Some(x as u32),
        Some(OscArg::Float { bits: _, trunc }) => Some(trunc),
        Some(OscArg::Double { bits: _, trunc }) => Some(trunc),
        _ => None,
    }
}

/// Validates one inbound message against the command grammar: the validated
/// broadcast on success, the exact rejection otherwise.
pub fn validate_osc_message(message: &OscMessage) -> (r: Result<CommandBroadcast, ParseError>)
    ensures
        broadcast_view_of(r) == parse_spec(message.addr@, args_view(message.args)),
{
    let path = split_path(message.addr.as_str());
    let ghost spath = split_slash(message.addr@);
    proof {
        assert(forall|i: int| 0 <= i < path@.len() ==> path.deep_view()[i] == #[trigger] path@[i]@);
    }
    if path.len() < 2 || !str_eq(path[1].as_str(), "devices") {
        return Err(ParseError::InvalidMessage);
    }
    if path.len() < 4 {
        return Err(ParseError::InvalidCommand);
    }
    if str_eq(path[3].as_str(), "stop") {
        return Ok(CommandBroadcast { devices_set: path[2].clone(), command: Command::Stop });
    }
    if str_eq(path[3].as_str(), "vibrate") {
        if path.len() < 5 || !str_eq(path[4].as_str(), "speed") {
            return Err(ParseError::InvalidArgumentName);
        }
        return match &message.args {
            None => Err(ParseError::MissingArguments),
            Some(a) => match speed_of(a, 0) {
                Some(bits) => Ok(
                    CommandBroadcast {
                        devices_set: path[2].clone(),
                        command: Command::Vibrate(bits),
                    },
                ),
                None => Err(ParseError::InvalidArgumentValue(arg_get(a, 0))),
            },
        };
    }
    if str_eq(path[3].as_str(), "vibrateMap") {
        if path.len() < 5 || !str_eq(path[4].as_str(), "speedMap") {
            return Err(ParseError::InvalidArgumentName);
        }
        return match &message.args {
            None => Err(ParseError::MissingArguments),
            Some(a) => match motor_of(a, 0) {
                None => Err(ParseError::InvalidArgumentValue(arg_get(a, 0))),
                Some(motor) => match speed_of(a, 1) {
                    None => Err(ParseError::InvalidArgumentValue(arg_get(a, 1))),
                    Some(bits) => Ok(
                        CommandBroadcast {
                            devices_set: path[2].clone(),
                            command: Command::VibrateMap(motor, bits),
                        },
                    ),
                },
            },
        };
    }
    Err(ParseError::InvalidCommand)
}

} // verus!
