use cargo_piston::error::PistonError;
use cargo_piston::helper::EnvMap;
use cargo_piston::ios::IOSBuilder;
use cargo_piston::linux::LinuxBuilder;
use cargo_piston::macos::MacOSBuilder;
use cargo_piston::metadata::AndroidMetadata;
use cargo_piston::metadata::PackageMeta;
use cargo_piston::metadata::ProjectMetadata;
use cargo_piston::windows::WindowsBuilder;

fn meta(icon: Option<&str>, embed: bool) -> ProjectMetadata {
    ProjectMetadata {
        root: Some(PackageMeta {
            name: String::from("myapp"),
            version: String::from("0.1.0"),
            icon_path: icon.map(String::from),
            embed_resources_ok: embed,
            android: AndroidMetadata {
                package: None,
                version_code: None,
                version_name: None,
                min_sdk_version: None,
                target_sdk_version: None,
                label: None,
            },
        }),
    }
}

#[test]
fn linux_new_requires_zigbuild_on_macos_host() {
    let r = LinuxBuilder::new(
        false,
        String::from("x86_64-unknown-linux-gnu"),
        String::from("/proj"),
        String::from("cargo"),
        &meta(None, false),
        "macos",
        None,
    );
    assert!(matches!(r, Err(PistonError::ZigbuildMissingError(_))));
    let ok = LinuxBuilder::new(
        false,
        String::from("x86_64-unknown-linux-gnu"),
        String::from("/proj"),
        String::from("cargo"),
        &meta(None, false),
        "linux",
        None,
    )
    .unwrap();
    assert_eq!(ok.app_name.as_deref(), Some("myapp"));
    assert!(ok.zigbuild_path.is_none());
}

#[test]
fn linux_prebuild_plan_and_command() {
    let mut b = LinuxBuilder::new(
        true,
        String::from("x86_64-unknown-linux-gnu"),
        String::from("/proj"),
        String::from("cargo"),
        &meta(None, false),
        "linux",
        None,
    )
    .unwrap();
    let plan = b.pre_build();
    assert_eq!(b.output_path.as_deref(), Some("/proj/target/release/linux"));
    assert_eq!(plan.clears, vec!["/proj/target/release/linux".to_string()]);
    assert_eq!(plan.dirs, vec!["/proj/target/release/linux".to_string()]);
    assert!(plan.files.is_empty());
    assert!(plan.icons.is_empty());
    assert_eq!(
        b.build_command(false),
        "cargo build --target x86_64-unknown-linux-gnu --release"
    );
}

#[test]
fn linux_build_command_through_cross_linker() {
    let b = LinuxBuilder::new(
        false,
        String::from("aarch64-unknown-linux-gnu"),
        String::from("/proj"),
        String::from("cargo"),
        &meta(None, false),
        "macos",
        Some(String::from("/opt/zigbuild")),
    )
    .unwrap();
    assert_eq!(
        b.build_command(true),
        "/opt/zigbuild cargo build --target aarch64-unknown-linux-gnu "
    );
}

#[test]
fn macos_host_check() {
    assert!(MacOSBuilder::check_host("macos", "aarch64-apple-darwin").is_ok());
    match MacOSBuilder::check_host("linux", "aarch64-apple-darwin") {
        Err(PistonError::UnsupportedOSError { os, target }) => {
            assert_eq!(os, "linux");
            assert_eq!(target, "aarch64-apple-darwin");
        },
        _ => panic!("expected an unsupported-OS error"),
    }
}

#[test]
fn macos_new_reads_env_and_metadata() {
    let mut env = EnvMap::new();
    env.insert(String::from("cargo_path"), String::from("/usr/bin/cargo"));
    let b = MacOSBuilder::new(
        false,
        String::from("aarch64-apple-darwin"),
        String::from("/proj"),
        &env,
        &meta(Some("icon.png"), false),
    );
    assert_eq!(b.cargo_path, "/usr/bin/cargo");
    assert_eq!(b.app_name.as_deref(), Some("myapp"));
    assert_eq!(b.icon_path.as_deref(), Some("icon.png"));
    let b2 = MacOSBuilder::new(
        false,
        String::from("aarch64-apple-darwin"),
        String::from("/proj"),
        &EnvMap::new(),
        &ProjectMetadata { root: None },
    );
    assert_eq!(b2.cargo_path, "cargo");
    assert!(b2.app_name.is_none());
}

#[test]
fn ios_builder_placeholder() {
    let b = IOSBuilder::new();
    assert!(!b.release);
    assert_eq!(b.target, "target");
}

#[test]
fn windows_new_fails_without_root_package() {
    let r = WindowsBuilder::new(
        false,
        String::from("x86_64-pc-windows-msvc"),
        String::from("/proj"),
        String::from("cargo"),
        &ProjectMetadata { root: None },
    );
    assert!(matches!(r, Err(PistonError::CargoParseError(_))));
}

#[test]
fn windows_prebuild_without_icon() {
    let mut b = WindowsBuilder::new(
        false,
        String::from("x86_64-pc-windows-msvc"),
        String::from("/proj"),
        String::from("cargo"),
        &meta(None, true),
    )
    .unwrap();
    let pre = b.pre_build();
    assert_eq!(b.output_path.as_deref(), Some("/proj/target/debug/windows"));
    assert_eq!(pre.plan.clears, vec!["/proj/target/debug/windows".to_string()]);
    assert_eq!(pre.plan.dirs, vec!["/proj/target/debug/windows".to_string()]);
    assert_eq!(
        pre.plan.files,
        vec![(
            "/proj/target/debug/windows/app.rc".to_string(),
            "IDI_ICON1 ICON \"target/debug/windows/windows_icon.ico\"".to_string(),
        )]
    );
    assert!(pre.plan.icons.is_empty());
    assert!(pre.build_script.is_none());
}

#[test]
fn windows_prebuild_with_icon_embedding() {
    let mut b = WindowsBuilder::new(
        true,
        String::from("x86_64-pc-windows-msvc"),
        String::from("/proj"),
        String::from("cargo"),
        &meta(Some("assets/icon.png"), true),
    )
    .unwrap();
    let pre = b.pre_build();
    assert_eq!(
        pre.plan.files,
        vec![(
            "/proj/target/release/windows/app.rc".to_string(),
            "IDI_ICON1 ICON \"target/release/windows/windows_icon.ico\"".to_string(),
        )]
    );
    assert_eq!(pre.plan.icons.len(), 1);
    assert_eq!(pre.plan.icons[0].source, "assets/icon.png");
    assert_eq!(pre.plan.icons[0].dest, "/proj/target/release/windows/windows_icon.ico");
    assert_eq!(pre.plan.icons[0].width, 64);
    assert_eq!(pre.plan.icons[0].height, 64);
    let script = pre.build_script.expect("a build script is generated");
    assert_eq!(script.path, "/proj/build.rs");
    assert_eq!(script.icon_output, "/proj/target/release/windows/windows_icon.ico");
}

#[test]
fn windows_prebuild_without_embedder_skips_icon() {
    let mut b = WindowsBuilder::new(
        true,
        String::from("x86_64-pc-windows-msvc"),
        String::from("/proj"),
        String::from("cargo"),
        &meta(Some("assets/icon.png"), false),
    )
    .unwrap();
    let pre = b.pre_build();
    assert!(pre.plan.icons.is_empty());
    assert!(pre.build_script.is_none());
}

#[test]
fn windows_build_command_and_paths() {
    let mut b = WindowsBuilder::new(
        true,
        String::from("x86_64-pc-windows-msvc"),
        String::from("/proj"),
        String::from("cargo"),
        &meta(None, false),
    )
    .unwrap();
    assert_eq!(b.build_command(), "cargo build --target x86_64-pc-windows-msvc --release");
    b.pre_build();
    let (binary, bundle) = b.post_build_paths();
    assert_eq!(binary, "/proj/target/x86_64-pc-windows-msvc/release/myapp.exe");
    assert_eq!(bundle, "/proj/target/release/windows/myapp.exe");
}
