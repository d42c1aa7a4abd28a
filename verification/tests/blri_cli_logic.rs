use bouffalo::blri::console::{feed_chunk, format_serial_output, LineEnd, LineMode, LinePiece, OutputStyle};
use bouffalo::blri::settings::{
    binary_path_for, build_target_in_path, conflict_outcome, release_in_path, BlriConfig, ConfigField,
};

#[test]
fn serial_output_styles() {
    assert_eq!(format_serial_output("   \t"), OutputStyle::Blank);
    assert_eq!(format_serial_output(""), OutputStyle::Blank);
    assert_eq!(format_serial_output("\u{3000}"), OutputStyle::Blank);
    assert_eq!(format_serial_output("> led on"), OutputStyle::Prompt);
    assert_eq!(format_serial_output("an error here"), OutputStyle::Error);
    assert_eq!(format_serial_output("FATAL ERROR"), OutputStyle::Error);
    assert_eq!(format_serial_output("Warning: low"), OutputStyle::Warning);
    assert_eq!(format_serial_output("Command list"), OutputStyle::Help);
    assert_eq!(format_serial_output("type help"), OutputStyle::Help);
    assert_eq!(format_serial_output("Unknown command"), OutputStyle::UnknownCommand);
    assert_eq!(format_serial_output("led: on"), OutputStyle::Status);
    assert_eq!(format_serial_output("led state off"), OutputStyle::Plain);
    assert_eq!(format_serial_output("booting"), OutputStyle::Plain);
}

#[test]
fn config_conflicts() {
    let mut saved = BlriConfig::default();
    assert!(!saved.is_complete());
    assert_eq!(saved.baudrate, 2000000);
    let none = saved.configuration_conflicts("COM3", 2000000, &None, false, &None, false, false);
    assert_eq!(none, vec![ConfigField::Port]);
    saved.update_from_run(
        "COM3",
        115200,
        Some("riscv64imac-unknown-none-elf".to_string()),
        true,
        Some("demo".to_string()),
        true,
        false,
    );
    assert!(saved.is_complete());
    assert_eq!(saved.port.as_deref(), Some("COM3"));
    let same = saved.configuration_conflicts(
        "COM3",
        115200,
        &Some("riscv64imac-unknown-none-elf".to_string()),
        true,
        &None,
        true,
        false,
    );
    assert!(same.is_empty());
    let diff = saved.configuration_conflicts("COM4", 9600, &Some("x".to_string()), false, &Some("y".to_string()), false, true);
    assert_eq!(
        diff,
        vec![
            ConfigField::Port,
            ConfigField::Baudrate,
            ConfigField::Target,
            ConfigField::Release,
            ConfigField::Package,
            ConfigField::Reset,
            ConfigField::Console
        ]
    );
    assert_eq!(conflict_outcome(false, false), (true, false));
    assert_eq!(conflict_outcome(true, true), (true, true));
    assert_eq!(conflict_outcome(true, false), (false, false));
}

#[test]
fn binary_paths() {
    assert_eq!(binary_path_for("riscv64imac-unknown-none-elf", true, "demo", false), "target/riscv64imac-unknown-none-elf/release/demo");
    assert_eq!(binary_path_for("t", false, "p", true), "../target/t/debug/p");
}

fn chars(s: &str) -> Vec<char> {
    s.chars().collect()
}

fn shown(pieces: &[LinePiece]) -> Vec<(String, LineEnd)> {
    pieces.iter().map(|p| (p.text.iter().collect(), p.end)).collect()
}

#[test]
fn console_lines() {
    let mut buf = Vec::new();
    let out = feed_chunk(LineMode::Console, &mut buf, &chars("ab\ncd\r\x07e\tf\x08"));
    assert_eq!(
        shown(&out),
        vec![
            ("ab".to_string(), LineEnd::Newline),
            ("cd".to_string(), LineEnd::Return),
            ("e\tf\x08".to_string(), LineEnd::Open),
        ]
    );
    assert!(buf.is_empty());
    // An empty line ended by a carriage return is still shown.
    let out = feed_chunk(LineMode::Console, &mut buf, &chars("\r"));
    assert_eq!(shown(&out), vec![(String::new(), LineEnd::Return)]);
}

#[test]
fn monitor_lines() {
    let mut buf = Vec::new();
    let out = feed_chunk(LineMode::Monitor, &mut buf, &chars("\rx\ty\r\n"));
    assert_eq!(
        shown(&out),
        vec![("xy".to_string(), LineEnd::Return), (String::new(), LineEnd::Newline)]
    );
    // A chunk that ends in a control character shows what it has.
    let out = feed_chunk(LineMode::Monitor, &mut buf, &chars("tail\x1b"));
    assert_eq!(shown(&out), vec![("tail".to_string(), LineEnd::Open)]);
    assert!(buf.is_empty());
}

#[test]
fn line_buffer_carries_over() {
    // A line buffer left over from before is completed by the next chunk.
    let mut buf = vec!['o', 'l', 'd'];
    let out = feed_chunk(LineMode::Monitor, &mut buf, &chars("er\n"));
    assert_eq!(shown(&out), vec![("older".to_string(), LineEnd::Newline)]);
    // An empty chunk flushes what is left.
    let mut buf = vec!['x'];
    let out = feed_chunk(LineMode::Console, &mut buf, &[]);
    assert_eq!(shown(&out), vec![("x".to_string(), LineEnd::Open)]);
    assert!(buf.is_empty());
}

#[test]
fn build_parameters_from_path() {
    let p = "/home/u/proj/target/riscv64imac-unknown-none-elf/release/blinky";
    assert_eq!(build_target_in_path(p), Some("riscv64imac-unknown-none-elf".to_string()));
    assert!(release_in_path(p));
    let p = "target/riscv32imac-unknown-none-elf/debug/demo";
    assert_eq!(build_target_in_path(p), Some("riscv32imac-unknown-none-elf".to_string()));
    assert!(!release_in_path(p));
    // The last part after `target` that names a bare-metal triple wins.
    let p = "target/a-unknown-none-elf/x/target/b-unknown-none-elf/release/demo";
    assert_eq!(build_target_in_path(p), Some("b-unknown-none-elf".to_string()));
    // A host triple, or a `target` part with nothing after it, gives none.
    assert_eq!(build_target_in_path("target/x86_64-unknown-linux-gnu/debug/demo"), None);
    assert_eq!(build_target_in_path("out/target"), None);
    assert_eq!(build_target_in_path("mytarget/riscv64-unknown-none-elf/demo"), None);
    assert!(!release_in_path("release/demo"));
}

#[test]
fn settings_for_run_choice() {
    let mut saved = BlriConfig::default();
    saved.baudrate = 115200;
    saved.reset = true;
    let port = "/dev/ttyUSB1".to_string();
    assert_eq!(saved.settings_for_run(true, &port, 2000000, false, true), (port.clone(), 2000000, false, true));
    assert_eq!(saved.settings_for_run(false, &port, 2000000, false, true), (port.clone(), 115200, true, false));
    saved.port = Some("/dev/ttyUSB0".to_string());
    assert_eq!(
        saved.settings_for_run(false, &port, 2000000, false, true),
        ("/dev/ttyUSB0".to_string(), 115200, true, false)
    );
}
