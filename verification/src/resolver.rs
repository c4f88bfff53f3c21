//! The command resolver: validates each user command's arguments, picks
//! the single daemon request that carries it out, and renders the
//! outcome as the lines the user sees.

use vstd::prelude::*;

use crate::codec;
use crate::codec::{channel_value, valid_hex_color};
use crate::model::{Commands, Failure, KeyboardDescriptor, Outcome, Request};
use crate::model::failure_line_spec;
use crate::text::{decimal_rep, usize_to_string};

verus! {

/// The one daemon request that carries out a command, or the local
/// failure that stops it before any daemon call. Every command maps to
/// exactly one request of its own kind — none is downgraded into
/// another — and only a color argument that is not six hexadecimal
/// digits fails locally. The user-facing `off` flag of a status LED
/// command is inverted exactly once, here.
pub open spec fn resolves_to(cmd: Commands, r: Result<Request, Failure>) -> bool {
    match cmd {
        Commands::List => r == Ok::<Request, Failure>(Request::Discover),
        Commands::Connect { index } => r == Ok::<Request, Failure>(Request::Bind { id: index }),
        Commands::ConnectAny => r == Ok::<Request, Failure>(Request::BindAny),
        Commands::SetLayer { index } => r == Ok::<Request, Failure>(Request::SetLayer { index }),
        Commands::SetRGB { led, color, sustain } => if valid_hex_color(color@) {
            r == Ok::<Request, Failure>(Request::SetLedColor {
                led,
                red: channel_value(color@, 0) as u8,
                green: channel_value(color@, 1) as u8,
                blue: channel_value(color@, 2) as u8,
                sustain,
            })
        } else {
            r matches Err(Failure::InvalidColor { input }) && input@ == color@
        },
        Commands::SetRGBAll { color, sustain } => if valid_hex_color(color@) {
            r == Ok::<Request, Failure>(Request::SetAllLedColor {
                red: channel_value(color@, 0) as u8,
                green: channel_value(color@, 1) as u8,
                blue: channel_value(color@, 2) as u8,
                sustain,
            })
        } else {
            r matches Err(Failure::InvalidColor { input }) && input@ == color@
        },
        Commands::SetStatusLed { led, off, sustain } => r == Ok::<Request, Failure>(
            Request::SetStatusLed { led, on: !off, sustain },
        ),
        Commands::IncreaseBrightness => r == Ok::<Request, Failure>(
            Request::StepBrightness { increase: true },
        ),
        Commands::DecreaseBrightness => r == Ok::<Request, Failure>(
            Request::StepBrightness { increase: false },
        ),
        Commands::Disconnect => r == Ok::<Request, Failure>(Request::Unbind),
    }
}

/// Translates one command into its daemon request.
///
/// A color argument is validated here, before any daemon call: on a
/// malformed color the command fails locally with `InvalidColor` and no
/// request is produced. Every other command maps unconditionally to the
/// matching request, arguments passed through unchanged (`sustain`
/// included, even when negative).
pub fn resolve(cmd: &Commands) -> (r: Result<Request, Failure>)
    ensures
        resolves_to(*cmd, r),
{
    match cmd {
        Commands::List => Ok(Request::Discover),
        Commands::Connect { index } => Ok(Request::Bind { id: *index }),
        Commands::ConnectAny => Ok(Request::BindAny),
        Commands::SetLayer { index } => Ok(Request::SetLayer { index: *index }),
        Commands::SetRGB { led, color, sustain } => match codec::parse_hex_color(color.as_str()) {
            Some(c) => Ok(Request::SetLedColor {
                led: *led,
                red: c.red,
                green: c.green,
                blue: c.blue,
                sustain: *sustain,
            }),
            None => Err(Failure::InvalidColor { input: color.clone() }),
        },
        Commands::SetRGBAll { color, sustain } => match codec::parse_hex_color(color.as_str()) {
            Some(c) => Ok(Request::SetAllLedColor {
                red: c.red,
                green: c.green,
                blue: c.blue,
                sustain: *sustain,
            }),
            None => Err(Failure::InvalidColor { input: color.clone() }),
        },
        Commands::SetStatusLed { led, off, sustain } => Ok(Request::SetStatusLed {
            led: *led,
            on: !*off,
            sustain: *sustain,
        }),
        Commands::IncreaseBrightness => Ok(Request::StepBrightness { increase: true }),
        Commands::DecreaseBrightness => Ok(Request::StepBrightness { increase: false }),
        Commands::Disconnect => Ok(Request::Unbind),
    }
}

/// The line the listing shows for one keyboard: its id, its name, and a
/// `(connected)` marker when some client holds a binding to it.
pub open spec fn descriptor_line_spec(k: KeyboardDescriptor) -> Seq<char> {
    decimal_rep(k.id as nat) + ": "@ + k.friendly_name@ + " "@ + if k.is_connected {
        "(connected)"@
    } else {
        Seq::<char>::empty()
    }
}

/// Renders the listing line for one keyboard.
pub fn descriptor_line(k: &KeyboardDescriptor) -> (line: String)
    ensures
        line@ == descriptor_line_spec(*k),
{
    let mut line = usize_to_string(k.id);
    line.append(": ");
    line.append(k.friendly_name.as_str());
    line.append(" ");
    if k.is_connected {
        line.append("(connected)");
    }
    proof {
        assert(line@ =~= descriptor_line_spec(*k));
    }
    line
}

/// Renders one listing line per discovered keyboard, in the daemon's
/// reported order; an empty discovery result yields no lines.
pub fn list_lines(keyboards: &Vec<KeyboardDescriptor>) -> (lines: Vec<String>)
    ensures
        lines@.len() == keyboards@.len(),
        forall|i: int|
            0 <= i < keyboards@.len() ==> (#[trigger] lines@[i])@ == descriptor_line_spec(
                keyboards@[i],
            ),
{
    let mut lines: Vec<String> = Vec::new();
    let mut i: usize = 0;
    while i < keyboards.len()
        invariant
            i <= keyboards@.len(),
            lines@.len() == i,
            forall|j: int|
                0 <= j < i ==> (#[trigger] lines@[j])@ == descriptor_line_spec(keyboards@[j]),
        decreases keyboards@.len() - i,
    {
        let line = descriptor_line(&keyboards[i]);
        lines.push(line);
        i += 1;
    }
    lines
}

/// The confirmation line of a successfully executed command. The
/// listing command is not here: its successful output is the descriptor
/// lines themselves.
pub open spec fn success_line_spec(cmd: Commands) -> Seq<char> {
    match cmd {
        Commands::List => Seq::<char>::empty(),
        Commands::Connect { index } => "Connected to keyboard "@ + decimal_rep(index as nat),
        Commands::ConnectAny => "Connected to the first keyboard detected by keymapp"@,
        Commands::SetLayer { index } => "Layer set to "@ + decimal_rep(index as nat),
        Commands::SetRGB { led, color, sustain } => "LED "@ + decimal_rep(led as nat)
            + " set to color "@ + color@,
        Commands::SetRGBAll { color, sustain } => "All LEDs set to color "@ + color@,
        Commands::SetStatusLed { led, off, sustain } => "Status LED "@ + decimal_rep(led as nat)
            + " turned "@ + if !off {
            "on"@
        } else {
            "off"@
        },
        Commands::IncreaseBrightness => "Brightness increased"@,
        Commands::DecreaseBrightness => "Brightness decreased"@,
        Commands::Disconnect => "Disconnected from the currently connected keyboard"@,
    }
}

/// Renders the confirmation line of a successfully executed command.
pub fn success_line(cmd: &Commands) -> (line: String)
    requires
        !(cmd matches Commands::List),
    ensures
        line@ == success_line_spec(*cmd),
{
    match cmd {
        Commands::List => String::new(),
        Commands::Connect { index } => {
            let mut line = String::from_str("Connected to keyboard ");
            line.append(usize_to_string(*index).as_str());
            proof {
                assert(line@ =~= success_line_spec(*cmd));
            }
            line
        },
        Commands::ConnectAny => String::from_str(
            "Connected to the first keyboard detected by keymapp",
        ),
        Commands::SetLayer { index } => {
            let mut line = String::from_str("Layer set to ");
            line.append(usize_to_string(*index).as_str());
            proof {
                assert(line@ =~= success_line_spec(*cmd));
            }
            line
        },
        Commands::SetRGB { led, color, sustain } => {
            let mut line = String::from_str("LED ");
            line.append(usize_to_string(*led).as_str());
            line.append(" set to color ");
            line.append(color.as_str());
            proof {
                assert(line@ =~= success_line_spec(*cmd));
            }
            line
        },
        Commands::SetRGBAll { color, sustain } => {
            let mut line = String::from_str("All LEDs set to color ");
            line.append(color.as_str());
            proof {
                assert(line@ =~= success_line_spec(*cmd));
            }
            line
        },
        Commands::SetStatusLed { led, off, sustain } => {
            let mut line = String::from_str("Status LED ");
            line.append(usize_to_string(*led).as_str());
            line.append(" turned ");
            if !*off {
                line.append("on");
            } else {
                line.append("off");
            }
            proof {
                assert(line@ =~= success_line_spec(*cmd));
            }
            line
        },
        Commands::IncreaseBrightness => String::from_str("Brightness increased"),
        Commands::DecreaseBrightness => String::from_str("Brightness decreased"),
        Commands::Disconnect => String::from_str(
            "Disconnected from the currently connected keyboard",
        ),
    }
}

/// Turns the daemon's answer to a discovery query into the command's
/// outcome: one line per reported keyboard in the reported order, or the
/// failure's single line.
pub fn report_list(result: Result<Vec<KeyboardDescriptor>, Failure>) -> (o: Outcome)
    ensures
        match result {
            Ok(keyboards) => o matches Outcome::Success { lines } && lines@.len()
                == keyboards@.len() && forall|i: int|
                0 <= i < keyboards@.len() ==> (#[trigger] lines@[i])@ == descriptor_line_spec(
                    keyboards@[i],
                ),
            Err(f) => o matches Outcome::Failed { line } && line@ == failure_line_spec(f),
        },
{
    match result {
        Ok(keyboards) => Outcome::Success { lines: list_lines(&keyboards) },
        Err(f) => Outcome::Failed { line: f.display_line() },
    }
}

/// Turns the daemon's answer to any non-listing request into the
/// command's outcome: the command's single confirmation line on
/// success, or the failure's single line — never a success line on a
/// failed command.
pub fn report_action(cmd: &Commands, result: Result<(), Failure>) -> (o: Outcome)
    requires
        !(cmd matches Commands::List),
    ensures
        match result {
            Ok(_) => o matches Outcome::Success { lines } && lines@.len() == 1 && (
            lines@[0])@ == success_line_spec(*cmd),
            Err(f) => o matches Outcome::Failed { line } && line@ == failure_line_spec(f),
        },
{
    match result {
        Ok(_) => {
            let mut lines: Vec<String> = Vec::new();
            lines.push(success_line(cmd));
            Outcome::Success { lines }
        },
        Err(f) => Outcome::Failed { line: f.display_line() },
    }
}

} // verus!
