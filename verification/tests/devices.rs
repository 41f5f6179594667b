use cargo_piston::devices::Devices;
use cargo_piston::devices::IOSDevice;

fn empty_devices() -> Devices {
    Devices { ios: Vec::new(), android: Vec::new() }
}

fn row(name: &str, hostname: &str, ident: &str, state: &str, model: &str) -> String {
    format!("{:<10} {:<27} {:<15} {:<21} {:<15}", name, hostname, ident, state, model)
}

fn dash_row() -> String {
    format!(
        "{} {} {} {} {}",
        "-".repeat(10),
        "-".repeat(27),
        "-".repeat(15),
        "-".repeat(21),
        "-".repeat(15)
    )
}

#[test]
fn adb_path_under_sdk() {
    assert_eq!(Devices::adb_path("/opt/sdk"), "/opt/sdk/platform-tools/adb");
}

#[test]
fn adb_output_parses_serials() {
    let output = "List of devices attached\nemulator-5554\tdevice\nR58M123ABC\tdevice\n\n";
    let mut d = empty_devices();
    d.populate_android(output);
    assert_eq!(d.android, vec!["emulator-5554".to_string(), "R58M123ABC".to_string()]);
    assert!(d.ios.is_empty());
}

#[test]
fn adb_output_skips_non_device_lines() {
    let output = "List of devices attached\nemulator-5554\tunauthorized\nR58M123ABC\tdevice\nsingleword\n";
    let mut d = empty_devices();
    d.populate_android(output);
    assert_eq!(d.android, vec!["R58M123ABC".to_string()]);
}

#[test]
fn adb_output_first_line_is_skipped() {
    let output = "serial0\tdevice\nserial1\tdevice\n";
    let mut d = empty_devices();
    d.populate_android(output);
    assert_eq!(d.android, vec!["serial1".to_string()]);
}

#[test]
fn adb_empty_output_adds_nothing() {
    let mut d = empty_devices();
    d.populate_android("");
    d.populate_android("List of devices attached\n");
    assert!(d.android.is_empty());
}

#[test]
fn devicectl_output_parses_iphones() {
    let lines = vec![
        row("Name", "Hostname", "Identifier", "State", "Model"),
        dash_row(),
        row(
            "iPhone",
            "my-phone.coredevice.local",
            "ABC-123",
            "available (paired)",
            "iPhone 15 Pro",
        ),
        row("iPad", "pad.coredevice.local", "DEF-456", "available (paired)", "iPad Air"),
        row("iPhone", "other.coredevice.local", "GHI-789", "connecting", "iPhone 12"),
    ];
    let output = lines.join("\n");
    let mut d = empty_devices();
    d.populate_ios(&output);
    assert_eq!(d.ios.len(), 1);
    assert_eq!(d.ios[0].model, "iPhone 15 Pro");
    assert_eq!(d.ios[0].id, "my-phone");
    assert_eq!(d.ios[0].udid, "ABC-123");
    assert!(!d.ios[0].provisioned);
    assert!(d.android.is_empty());
}

#[test]
fn devicectl_model_defaults_to_unknown_without_fifth_column() {
    let lines = vec![
        format!("{:<10} {:<27} {:<15} {:<21}", "Name", "Hostname", "Identifier", "State"),
        format!(
            "{} {} {} {}",
            "-".repeat(10),
            "-".repeat(27),
            "-".repeat(15),
            "-".repeat(21)
        ),
        format!(
            "{:<10} {:<27} {:<15} {:<21}",
            "iPhone", "mine.coredevice.local", "XYZ-1", "available"
        ),
    ];
    let output = lines.join("\n");
    let mut d = empty_devices();
    d.populate_ios(&output);
    assert_eq!(d.ios.len(), 1);
    assert_eq!(d.ios[0].model, "unknown");
    assert_eq!(d.ios[0].id, "mine");
}

#[test]
fn devicectl_short_output_adds_nothing() {
    let mut d = empty_devices();
    d.populate_ios("");
    d.populate_ios("just one line");
    assert!(d.ios.is_empty());
}

#[test]
fn device_listing_empty() {
    let d = empty_devices();
    assert_eq!(d.format_devices(), "\nCargo Piston Device List:\n\nNo devices connected\n");
}

#[test]
fn device_listing_android_only() {
    let d = Devices { ios: Vec::new(), android: vec!["serial1".to_string(), "serial2".to_string()] };
    assert_eq!(
        d.format_devices(),
        "\nCargo Piston Device List:\n\nAndroid:\n\nDevice 1:\nserial1\n\nDevice 2:\nserial2\n"
    );
}

#[test]
fn device_listing_both_platforms() {
    let d = Devices {
        ios: vec![IOSDevice {
            model: "iPhone 15".to_string(),
            id: "my-phone".to_string(),
            udid: "ABC-123".to_string(),
            provisioned: false,
        }],
        android: vec!["serial1".to_string()],
    };
    assert_eq!(
        d.format_devices(),
        "\nCargo Piston Device List:\n\nAndroid:\n\nDevice 1:\nserial1\n\niOS:\n\nDevice 1:\nModel: iPhone 15\nid: my-phone\nudid: ABC-123\nprovisioned: false\n"
    );
}
