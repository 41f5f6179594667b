use cargo_piston::error::PistonError;
use cargo_piston::helper::EnvMap;
use cargo_piston::helper::Helper;
use cargo_piston::metadata::AndroidMetadata;
use cargo_piston::metadata::PackageMeta;
use cargo_piston::metadata::ProjectMetadata;

fn lines(items: &[&str]) -> Vec<String> {
    items.iter().map(|s| s.to_string()).collect()
}

#[test]
fn env_lines_parse_key_values() {
    let env = Helper::parse_env_lines(&lines(&[
        "sdk_path=/opt/sdk",
        "  ndk_path =  /opt/ndk  ",
        "",
        "# a comment",
        "   ",
        "no_equals_line",
        "=no_key",
        "java_path=/opt/java",
    ]));
    assert_eq!(env.get("sdk_path").map(String::as_str), Some("/opt/sdk"));
    assert_eq!(env.get("ndk_path").map(String::as_str), Some("/opt/ndk"));
    assert_eq!(env.get("java_path").map(String::as_str), Some("/opt/java"));
    assert_eq!(env.get("no_equals_line"), None);
    assert_eq!(env.get(""), None);
}

#[test]
fn env_later_lines_override_earlier() {
    let env = Helper::parse_env_lines(&lines(&["key=first", "key=second"]));
    assert_eq!(env.get("key").map(String::as_str), Some("second"));
}

#[test]
fn env_value_keeps_later_equals_signs() {
    let env = Helper::parse_env_lines(&lines(&["key=a=b=c"]));
    assert_eq!(env.get("key").map(String::as_str), Some("a=b=c"));
}

#[test]
fn env_get_or_err_reports_missing_key() {
    let env = Helper::parse_env_lines(&lines(&["present=1"]));
    assert_eq!(Helper::get_or_err(&env, "present").unwrap().as_str(), "1");
    match Helper::get_or_err(&env, "absent") {
        Err(PistonError::MissingEnvKeyError(k)) => assert_eq!(k, "absent"),
        _ => panic!("expected a missing-key error"),
    }
}

#[test]
fn env_map_insert_and_get() {
    let mut env = EnvMap::new();
    assert_eq!(env.get("a"), None);
    env.insert(String::from("a"), String::from("1"));
    env.insert(String::from("b"), String::from("2"));
    env.insert(String::from("a"), String::from("3"));
    assert_eq!(env.get("a").map(String::as_str), Some("3"));
    assert_eq!(env.get("b").map(String::as_str), Some("2"));
}

fn meta_with_root() -> ProjectMetadata {
    ProjectMetadata {
        root: Some(PackageMeta {
            name: String::from("my-game"),
            version: String::from("1.2.3"),
            icon_path: None,
            embed_resources_ok: true,
            android: AndroidMetadata {
                package: None,
                version_code: None,
                version_name: None,
                min_sdk_version: None,
                target_sdk_version: None,
                label: None,
            },
        }),
    }
}

#[test]
fn metadata_accessors() {
    let meta = meta_with_root();
    assert_eq!(Helper::get_app_name(&meta).unwrap(), "my-game");
    assert_eq!(Helper::get_app_version(&meta).unwrap(), "1.2.3");
    assert_eq!(Helper::get_icon_path(&meta), None);
    assert_eq!(Helper::get_lib_name(&meta).unwrap(), "my_game");
}

#[test]
fn metadata_accessors_without_root() {
    let meta = ProjectMetadata { root: None };
    assert!(matches!(Helper::get_app_name(&meta), Err(PistonError::CargoParseError(_))));
    assert!(matches!(Helper::get_app_version(&meta), Err(PistonError::CargoParseError(_))));
    assert!(matches!(Helper::get_lib_name(&meta), Err(PistonError::CargoParseError(_))));
    assert_eq!(Helper::get_icon_path(&meta), None);
}

#[test]
fn error_messages() {
    assert_eq!(
        PistonError::CargoParseError(String::from("bad toml")).message(),
        "Failed to parse the cargo.toml: bad toml"
    );
    assert_eq!(
        PistonError::ReadDirError { path: String::from("/x"), source: String::from("gone") }
            .message(),
        "Failed to read directory \"/x\""
    );
    assert_eq!(
        PistonError::RemoveSubdirError { path: String::from("/y"), source: String::from("busy") }
            .message(),
        "Failed to remove subdirectory \"/y\""
    );
    assert_eq!(
        PistonError::RemoveFileError { path: String::from("/z"), source: String::from("io") }
            .message(),
        "Failed to remove file \"/z\""
    );
    assert_eq!(PistonError::Generic(String::from("boom")).message(), "Generic Error: boom");
    assert_eq!(
        PistonError::UnsupportedOSError {
            os: String::from("windows"),
            target: String::from("t"),
        }
        .message(),
        "Unsupported OS windows for target t"
    );
    assert_eq!(
        PistonError::ParseManifestError(String::from("bad table")).message(),
        "Failed to derive the manifest: bad table"
    );
    assert_eq!(
        PistonError::CreateDirAllError { path: String::from("/d"), source: String::from("io") }
            .message(),
        "Failed to create directory \"/d\""
    );
    assert_eq!(
        PistonError::WriteFileError(String::from("disk full")).message(),
        "Failed to write file: disk full"
    );
    assert_eq!(
        PistonError::BuildError(String::from("tool died")).message(),
        "Build failed: tool died"
    );
    assert_eq!(
        PistonError::UnsupportedTargetError(String::from("t")).message(),
        "Unsupported target: t"
    );
    assert_eq!(
        PistonError::ZigbuildMissingError(String::from("unset")).message(),
        "Missing zigbuild path: unset"
    );
    assert_eq!(
        PistonError::MissingEnvKeyError(String::from("ndk_path")).message(),
        "Missing environment key: ndk_path"
    );
}
