//! The data model: discoverable keyboards, user commands, daemon requests,
//! and the failures a command can end in.

use vstd::prelude::*;

verus! {

/// One discoverable keyboard, as the daemon reports it: a stable integer
/// handle, a display name, and whether some client holds a binding to it.
#[derive(Clone, Debug)]
pub struct KeyboardDescriptor {
    pub id: usize,
    pub friendly_name: String,
    pub is_connected: bool,
}

/// The parsed command line: exactly one subcommand per invocation.
#[derive(Clone, Debug)]
pub struct Cli {
    pub command: Commands,
}

/// The closed set of supported user commands, each carrying only the
/// arguments that operation needs.
#[derive(Clone, Debug)]
pub enum Commands {
    /// List all available keyboards.
    List,
    /// Connect to the keyboard with the given id.
    Connect { index: usize },
    /// Connect to the first keyboard the daemon detects.
    ConnectAny,
    /// Set the active layer of the connected keyboard.
    SetLayer { index: usize },
    /// Set the RGB color of one LED.
    SetRGB { led: usize, color: String, sustain: i32 },
    /// Set the RGB color of every LED at once.
    SetRGBAll { color: String, sustain: i32 },
    /// Turn a status LED on, or off when `off` is set.
    SetStatusLed { led: usize, off: bool, sustain: i32 },
    /// Take one brightness step up.
    IncreaseBrightness,
    /// Take one brightness step down.
    DecreaseBrightness,
    /// Release the current binding.
    Disconnect,
}

/// One request against the controller daemon, one variant per operation
/// of its interface. Channel intensities travel as plain bytes, so a
/// request never holds an unvalidated color.
#[derive(Clone, Copy, Debug, PartialEq, Eq, Structural)]
pub enum Request {
    Discover,
    Bind { id: usize },
    BindAny,
    Unbind,
    SetLayer { index: usize },
    SetLedColor { led: usize, red: u8, green: u8, blue: u8, sustain: i32 },
    SetAllLedColor { red: u8, green: u8, blue: u8, sustain: i32 },
    SetStatusLed { led: usize, on: bool, sustain: i32 },
    StepBrightness { increase: bool },
}

/// A typed failure of one command. `InvalidColor` is found locally,
/// before any daemon call; every other variant carries the daemon's own
/// displayable message verbatim.
#[derive(Clone, Debug, PartialEq, Eq)]
pub enum Failure {
    /// The color argument is not six hexadecimal digits.
    InvalidColor { input: String },
    /// The daemon cannot be contacted at all.
    DaemonUnreachable { message: String },
    /// The operation needs a bound device and none is bound.
    NoActiveBinding { message: String },
    /// A connect request named an id that discovery does not report.
    UnknownDevice { message: String },
    /// The daemon understood the request but declined it.
    DaemonRejected { message: String },
}

/// The one line a failed command shows the user.
pub open spec fn failure_line_spec(f: Failure) -> Seq<char> {
    match f {
        Failure::InvalidColor { input } => input@ + " is not a valid hex color"@,
        Failure::DaemonUnreachable { message } => message@,
        Failure::NoActiveBinding { message } => message@,
        Failure::UnknownDevice { message } => message@,
        Failure::DaemonRejected { message } => message@,
    }
}

impl Failure {
    /// Renders the failure as the single line the user sees: the daemon's
    /// message verbatim, or the local complaint about a bad color string.
    pub fn display_line(&self) -> (line: String)
        ensures
            line@ == failure_line_spec(*self),
    {
        match self {
            Failure::InvalidColor { input } => {
                let mut line = input.clone();
                line.append(" is not a valid hex color");
                line
            },
            Failure::DaemonUnreachable { message } => message.clone(),
            Failure::NoActiveBinding { message } => message.clone(),
            Failure::UnknownDevice { message } => message.clone(),
            Failure::DaemonRejected { message } => message.clone(),
        }
    }
}

/// What one executed command comes to: the lines a successful command
/// prints, or the single line of a failed one.
#[derive(Debug)]
pub enum Outcome {
    Success { lines: Vec<String> },
    Failed { line: String },
}

} // verus!
