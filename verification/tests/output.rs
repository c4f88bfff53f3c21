use kontroll::model::{Commands, Failure, Outcome};
use kontroll::resolver::{descriptor_line, report_action, success_line};
use kontroll::model::KeyboardDescriptor;
use kontroll::text::usize_to_string;

fn confirmation_of(cmd: Commands) -> String {
    match report_action(&cmd, Ok(())) {
        Outcome::Success { mut lines } => {
            assert_eq!(lines.len(), 1);
            lines.remove(0)
        }
        other => panic!("expected success, got {:?}", other),
    }
}

#[test]
fn decimal_rendering_is_exact() {
    assert_eq!(usize_to_string(0), "0");
    assert_eq!(usize_to_string(7), "7");
    assert_eq!(usize_to_string(10), "10");
    assert_eq!(usize_to_string(120), "120");
    assert_eq!(usize_to_string(98765), "98765");
}

#[test]
fn descriptor_line_without_binding_has_empty_marker() {
    let line = descriptor_line(&KeyboardDescriptor {
        id: 0,
        friendly_name: String::from("A"),
        is_connected: false,
    });
    assert_eq!(line, "0: A ");
}

#[test]
fn descriptor_line_with_binding_is_marked_connected() {
    let line = descriptor_line(&KeyboardDescriptor {
        id: 12,
        friendly_name: String::from("Moonlander Mark I"),
        is_connected: true,
    });
    assert_eq!(line, "12: Moonlander Mark I (connected)");
}

#[test]
fn confirmation_lines_per_command() {
    assert_eq!(
        confirmation_of(Commands::Connect { index: 12 }),
        "Connected to keyboard 12"
    );
    assert_eq!(
        confirmation_of(Commands::ConnectAny),
        "Connected to the first keyboard detected by keymapp"
    );
    assert_eq!(
        confirmation_of(Commands::Disconnect),
        "Disconnected from the currently connected keyboard"
    );
    assert_eq!(
        confirmation_of(Commands::SetLayer { index: 2 }),
        "Layer set to 2"
    );
    assert_eq!(
        confirmation_of(Commands::SetRGB {
            led: 3,
            color: String::from("FF00FF"),
            sustain: 0,
        }),
        "LED 3 set to color FF00FF"
    );
    assert_eq!(
        confirmation_of(Commands::SetRGBAll {
            color: String::from("00ff00"),
            sustain: 0,
        }),
        "All LEDs set to color 00ff00"
    );
    assert_eq!(confirmation_of(Commands::IncreaseBrightness), "Brightness increased");
    assert_eq!(confirmation_of(Commands::DecreaseBrightness), "Brightness decreased");
}

#[test]
fn status_led_confirmation_names_the_resulting_state() {
    assert_eq!(
        confirmation_of(Commands::SetStatusLed { led: 4, off: false, sustain: 0 }),
        "Status LED 4 turned on"
    );
    assert_eq!(
        confirmation_of(Commands::SetStatusLed { led: 4, off: true, sustain: 0 }),
        "Status LED 4 turned off"
    );
}

#[test]
fn success_line_matches_report_action() {
    let cmd = Commands::SetLayer { index: 9 };
    assert_eq!(success_line(&cmd), "Layer set to 9");
}

#[test]
fn invalid_color_failure_names_the_input() {
    let f = Failure::InvalidColor { input: String::from("zz00ff") };
    assert_eq!(f.display_line(), "zz00ff is not a valid hex color");
}

#[test]
fn daemon_failures_are_surfaced_verbatim() {
    let cases = [
        Failure::DaemonUnreachable { message: String::from("could not reach the daemon") },
        Failure::NoActiveBinding { message: String::from("no keyboard is currently connected") },
        Failure::UnknownDevice { message: String::from("No keyboard with id 9 found") },
        Failure::DaemonRejected { message: String::from("the device declined the request") },
    ];
    let expected = [
        "could not reach the daemon",
        "no keyboard is currently connected",
        "No keyboard with id 9 found",
        "the device declined the request",
    ];
    for (f, want) in cases.into_iter().zip(expected) {
        assert_eq!(f.display_line(), want);
    }
}

#[test]
fn failed_action_reports_the_failure_line() {
    let outcome = report_action(
        &Commands::SetLayer { index: 1 },
        Err(Failure::NoActiveBinding { message: String::from("no keyboard is currently connected") }),
    );
    match outcome {
        Outcome::Failed { line } => assert_eq!(line, "no keyboard is currently connected"),
        other => panic!("expected a failure line, got {:?}", other),
    }
}
