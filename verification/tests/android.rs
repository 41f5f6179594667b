use cargo_piston::android::AndroidBuilder;
use cargo_piston::android::AndroidManifest;
use cargo_piston::error::PistonError;
use cargo_piston::helper::EnvMap;
use cargo_piston::metadata::AndroidMetadata;
use cargo_piston::metadata::PackageMeta;
use cargo_piston::metadata::ProjectMetadata;

fn empty_android_meta() -> AndroidMetadata {
    AndroidMetadata {
        package: None,
        version_code: None,
        version_name: None,
        min_sdk_version: None,
        target_sdk_version: None,
        label: None,
    }
}

fn sample_metadata() -> ProjectMetadata {
    ProjectMetadata {
        root: Some(PackageMeta {
            name: String::from("myapp"),
            version: String::from("0.1.0"),
            icon_path: Some(String::from("assets/icon.png")),
            embed_resources_ok: false,
            android: empty_android_meta(),
        }),
    }
}

fn full_env() -> EnvMap {
    let mut env = EnvMap::new();
    env.insert(String::from("ndk_path"), String::from("/opt/ndk"));
    env.insert(String::from("sdk_path"), String::from("/opt/sdk"));
    env.insert(String::from("java_path"), String::from("/opt/java"));
    env.insert(String::from("bundletool_path"), String::from("/opt/bundletool.jar"));
    env
}

#[test]
fn manifest_defaults() {
    let meta = sample_metadata();
    let m = AndroidManifest::build(&meta, &String::from("myapp")).unwrap();
    assert_eq!(m.package, "com.example.myapp");
    assert_eq!(m.version_code, 1);
    assert_eq!(m.version_name, "1.0");
    assert_eq!(m.min_sdk_version, 21);
    assert_eq!(m.target_sdk_version, 34);
    assert_eq!(m.app_label, "myapp App");
    assert_eq!(m.app_name, "myapp");
    assert_eq!(m.icon, "@mipmap/ic_launcher");
}

#[test]
fn manifest_overrides() {
    let mut meta = sample_metadata();
    if let Some(root) = &mut meta.root {
        root.android = AndroidMetadata {
            package: Some(String::from("org.acme.game")),
            version_code: Some(7),
            version_name: Some(String::from("2.3")),
            min_sdk_version: Some(24),
            target_sdk_version: Some(35),
            label: Some(String::from("Acme Game")),
        };
    }
    let m = AndroidManifest::build(&meta, &String::from("game")).unwrap();
    assert_eq!(m.package, "org.acme.game");
    assert_eq!(m.version_code, 7);
    assert_eq!(m.version_name, "2.3");
    assert_eq!(m.min_sdk_version, 24);
    assert_eq!(m.target_sdk_version, 35);
    assert_eq!(m.app_label, "Acme Game");
    assert_eq!(m.app_name, "game");
}

#[test]
fn manifest_build_fails_without_root_package() {
    let meta = ProjectMetadata { root: None };
    let r = AndroidManifest::build(&meta, &String::from("x"));
    assert!(matches!(r, Err(PistonError::ParseManifestError(_))));
}

#[test]
fn manifest_to_xml_exact() {
    let meta = sample_metadata();
    let m = AndroidManifest::build(&meta, &String::from("myapp")).unwrap();
    let expected = "<?xml version=\"1.0\" encoding=\"utf-8\"?>\n            <manifest xmlns:android=\"http://schemas.android.com/apk/res/android\"\n                package=\"com.example.myapp\"\n                android:versionCode=\"1\"\n                android:versionName=\"1.0\">\n\n                <uses-sdk android:minSdkVersion=\"21\" android:targetSdkVersion=\"34\" />\n\n                <application android:label=\"myapp App\" android:hasCode=\"false\" android:icon=\"@mipmap/ic_launcher\">\n                    <activity android:name=\"android.app.NativeActivity\"\n                        android:label=\"myapp App\"\n                        android:exported=\"true\">\n                        <meta-data android:name=\"android.app.lib_name\" android:value=\"myapp\" />\n                        <intent-filter>\n                            <action android:name=\"android.intent.action.MAIN\" />\n                            <category android:name=\"android.intent.category.LAUNCHER\" />\n                        </intent-filter>\n                    </activity>\n                </application>\n            </manifest>";
    assert_eq!(m.to_xml(), expected);
}

#[test]
fn manifest_to_xml_deterministic() {
    let meta = sample_metadata();
    let m1 = AndroidManifest::build(&meta, &String::from("myapp")).unwrap();
    let m2 = AndroidManifest::build(&meta, &String::from("myapp")).unwrap();
    assert_eq!(m1.to_xml().into_bytes(), m2.to_xml().into_bytes());
}

#[test]
fn manifest_escapes_fields() {
    let mut meta = sample_metadata();
    if let Some(root) = &mut meta.root {
        root.android.label = Some(String::from("A & B <Game>"));
    }
    let m = AndroidManifest::build(&meta, &String::from("myapp")).unwrap();
    let xml = m.to_xml();
    assert!(xml.contains("android:label=\"A &amp; B &lt;Game&gt;\""));
    assert!(!xml.contains("A & B <Game>"));
}

#[test]
fn escape_xml_entities() {
    assert_eq!(AndroidManifest::escape_xml("&<>\"'"), "&amp;&lt;&gt;&quot;&apos;");
    assert_eq!(AndroidManifest::escape_xml(""), "");
    assert_eq!(AndroidManifest::escape_xml("plain-text_123"), "plain-text_123");
    assert_eq!(AndroidManifest::escape_xml("a&b&c"), "a&amp;b&amp;c");
}

#[test]
fn android_builder_new_populates_paths() {
    let meta = sample_metadata();
    let env = full_env();
    let b = AndroidBuilder::new(
        false,
        String::from("aarch64-linux-android"),
        String::from("/proj"),
        &env,
        &meta,
        String::from("34.0.0"),
    )
    .unwrap();
    assert_eq!(b.build_path, "/proj/target/debug/androidbuilder/android");
    assert_eq!(b.manifest_path, "/proj/target/debug/androidbuilder/android/AndroidManifest.xml");
    assert_eq!(b.resources, "/proj/target/debug/androidbuilder/android/app/src/main/res");
    assert_eq!(b.ndk_path, "/opt/ndk");
    assert_eq!(b.sdk_path, "/opt/sdk");
    assert_eq!(b.java_path, "/opt/java");
    assert_eq!(b.bundletool_path, "/opt/bundletool.jar");
    assert_eq!(b.cargo_path, "cargo");
    assert_eq!(b.app_name, "myapp");
    assert_eq!(b.lib_name, "myapp");
    assert_eq!(b.app_version, "0.1.0");
    assert_eq!(b.icon_path.as_deref(), Some("assets/icon.png"));
    assert!(b.output_path.is_none());
}

#[test]
fn android_builder_new_missing_key() {
    let meta = sample_metadata();
    let mut env = full_env();
    env = {
        let mut e = EnvMap::new();
        if let Some(v) = env.get("sdk_path") {
            e.insert(String::from("sdk_path"), v.clone());
        }
        e
    };
    let r = AndroidBuilder::new(
        false,
        String::from("aarch64-linux-android"),
        String::from("/proj"),
        &env,
        &meta,
        String::from("34.0.0"),
    );
    match r {
        Err(PistonError::MissingEnvKeyError(k)) => assert_eq!(k, "ndk_path"),
        _ => panic!("expected a missing-key error"),
    }
}

#[test]
fn android_prebuild_plan_paths() {
    let meta = sample_metadata();
    let env = full_env();
    let mut b = AndroidBuilder::new(
        true,
        String::from("aarch64-linux-android"),
        String::from("/proj"),
        &env,
        &meta,
        String::from("34.0.0"),
    )
    .unwrap();
    let plan = b.pre_build();
    let res = "/proj/target/release/androidbuilder/android/app/src/main/res";
    assert_eq!(b.output_path.as_deref(), Some("/proj/target/release/android"));
    assert_eq!(plan.clears, vec![res.to_string(), "/proj/target/release/android".to_string()]);
    assert_eq!(
        plan.dirs,
        vec![
            res.to_string(),
            "/proj/target/release/android".to_string(),
            format!("{}/mipmap-hdpi", res),
            format!("{}/mipmap-mdpi", res),
            format!("{}/mipmap-xhdpi", res),
            format!("{}/mipmap-xxhdpi", res),
            format!("{}/mipmap-xxxhdpi", res),
        ]
    );
    assert!(plan.files.is_empty());
    let sizes: Vec<(u32, u32)> = plan.icons.iter().map(|j| (j.width, j.height)).collect();
    assert_eq!(sizes, vec![(48, 48), (72, 72), (96, 96), (144, 144), (192, 192)]);
    assert_eq!(plan.icons[0].dest, format!("{}/mipmap-hdpi/ic_launcher.png", res));
    assert_eq!(plan.icons[4].dest, format!("{}/mipmap-xxxhdpi/ic_launcher.png", res));
    for j in &plan.icons {
        assert_eq!(j.source, "assets/icon.png");
    }
}

#[test]
fn android_commands_exact() {
    let meta = sample_metadata();
    let env = full_env();
    let b = AndroidBuilder::new(
        true,
        String::from("aarch64-linux-android"),
        String::from("/proj"),
        &env,
        &meta,
        String::from("34.0.0"),
    )
    .unwrap();
    assert_eq!(b.build_so_command(), "cargo build --target aarch64-linux-android  --release --lib");
    assert_eq!(b.linker_name(), "aarch64-linux-android21-clang");
    assert_eq!(
        b.linker_path("linux-x86_64"),
        "/opt/ndk/toolchains/llvm/prebuilt/linux-x86_64/bin/aarch64-linux-android21-clang"
    );
    assert_eq!(b.ar_path("linux-x86_64"), "/opt/ndk/toolchains/llvm/prebuilt/linux-x86_64/bin/llvm-ar");
    assert_eq!(b.linker_env_key(), "CARGO_TARGET_AARCH64_LINUX_ANDROID_LINKER");
    assert_eq!(b.ar_env_key(), "CARGO_TARGET_AARCH64_LINUX_ANDROID_AR");
    assert_eq!(
        b.compile_resources_command(),
        "/opt/sdk/build-tools/34.0.0/aapt2 compile --dir /proj/target/release/androidbuilder/android/app/src/main/res -o /proj/target/release/androidbuilder/android/compiled_resources.zip"
    );
    let base = b.base_dir();
    assert_eq!(base, "/proj/target/release/androidbuilder/android/base");
    let compiled = b.compiled_resources_path();
    assert_eq!(
        b.link_command(&base, &compiled, true),
        "/opt/sdk/build-tools/34.0.0/aapt2 link --proto-format --output-to-dir -o /proj/target/release/androidbuilder/android/base --manifest /proj/target/release/androidbuilder/android/AndroidManifest.xml -I /opt/sdk/platforms/android-34/android.jar  /proj/target/release/androidbuilder/android/compiled_resources.zip"
    );
    assert_eq!(
        b.link_command(&base, &compiled, false),
        "/opt/sdk/build-tools/34.0.0/aapt2 link --proto-format --output-to-dir -o /proj/target/release/androidbuilder/android/base --manifest /proj/target/release/androidbuilder/android/AndroidManifest.xml -I /opt/sdk/platforms/android-34/android.jar "
    );
    assert_eq!(b.lib_file(), "libmyapp.so");
    assert_eq!(
        b.so_path(),
        "/proj/target/aarch64-linux-android/release/libmyapp.so"
    );
    assert_eq!(b.base_zip_path(), "/proj/target/release/androidbuilder/android/base.zip");
    assert_eq!(b.zip_base_command(&base), "cd /proj/target/release/androidbuilder/android/base && zip -r ../base.zip *");
    assert_eq!(b.aab_path(), "/proj/target/release/androidbuilder/android/myapp.aab");
    assert_eq!(
        b.build_bundle_command("/b/base.zip", "/b/app.aab"),
        "java -jar /opt/bundletool.jar build-bundle --modules=/b/base.zip --output=/b/app.aab"
    );
}

#[test]
fn android_linker_name_armv7_special_case() {
    let meta = sample_metadata();
    let env = full_env();
    let b = AndroidBuilder::new(
        false,
        String::from("armv7-linux-androideabi"),
        String::from("/proj"),
        &env,
        &meta,
        String::from("34.0.0"),
    )
    .unwrap();
    assert_eq!(b.linker_name(), "armv7a-linux-androideabi21-clang");
}

#[test]
fn abi_mapping() {
    assert_eq!(AndroidBuilder::abi_for_target("aarch64-linux-android").unwrap(), "arm64-v8a");
    match AndroidBuilder::abi_for_target("x86_64-linux-android") {
        Err(PistonError::UnsupportedTargetError(m)) => {
            assert_eq!(m, "Unsupported target x86_64-linux-android")
        },
        _ => panic!("expected an unsupported-target error"),
    }
}
