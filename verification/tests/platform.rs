use cargo_piston::platform::Platform;

#[test]
fn test_platform_from_target() {
    assert!(matches!(Platform::from_target("aarch64-apple-darwin"), Platform::Macos));
    assert!(matches!(Platform::from_target("aarch64-apple-ios"), Platform::Ios));
    assert!(matches!(Platform::from_target("aarch64-unknown-linux-gnu"), Platform::Linux));
    assert!(matches!(Platform::from_target("x86_64-pc-windows-msvc"), Platform::Windows));
    assert!(matches!(Platform::from_target("aarch64-linux-android"), Platform::Android));
    assert!(matches!(Platform::from_target("some-unknown-target"), Platform::Unknown));
}

#[test]
fn all_known_macos_triples_classify() {
    let triples = [
        "aarch64-apple-darwin",
        "x86_64-apple-darwin",
        "arm64e-apple-darwin",
        "x86_64h-apple-darwin",
    ];
    for t in triples {
        assert!(matches!(Platform::from_target(t), Platform::Macos), "{}", t);
    }
}

#[test]
fn all_known_ios_triples_classify() {
    let triples = [
        "aarch64-apple-ios",
        "aarch64-apple-ios-macabi",
        "aarch64-apple-ios-sim",
        "x86_64-apple-ios",
        "arm64e-apple-ios",
        "armv7s-apple-ios",
        "i386-apple-ios",
    ];
    for t in triples {
        assert!(matches!(Platform::from_target(t), Platform::Ios), "{}", t);
    }
}

#[test]
fn all_known_linux_triples_classify() {
    let triples = [
        "aarch64-unknown-linux-gnu",
        "i686-unknown-linux-gnu",
        "x86_64-unknown-linux-gnu",
        "aarch64-unknown-linux-musl",
        "arm-unknown-linux-gnueabi",
        "arm-unknown-linux-gnueabihf",
        "armv7-unknown-linux-gnueabihf",
        "i586-unknown-linux-gnu",
        "i686-unknown-linux-musl",
        "loongarch64-unknown-linux-gnu",
        "loongarch64-unknown-linux-musl",
        "powerpc-unknown-linux-gnu",
        "powerpc64-unknown-linux-gnu",
        "powerpc64le-unknown-linux-gnu",
        "powerpc64le-unknown-linux-musl",
        "riscv64gc-unknown-linux-gnu",
        "s390x-unknown-linux-gnu",
        "x86_64-unknown-linux-musl",
        "arm-unknown-linux-musleabi",
        "arm-unknown-linux-musleabihf",
        "armv5te-unknown-linux-gnueabi",
        "armv7-unknown-linux-gnueabi",
        "armv7-unknown-linux-musleabi",
        "armv7-unknown-linux-musleabihf",
        "i586-unknown-linux-musl",
        "riscv64gc-unknown-linux-musl",
        "sparc64-unknown-linux-gnu",
        "thumbv7neon-unknown-linux-gnueabihf",
        "x86_64-unknown-linux-gnux32",
        "aarch64-unknown-linux-gnu_ilp32",
        "aarch64_be-unknown-linux-gnu",
        "aarch64_be-unknown-linux-gnu_ilp32",
        "aarch64_be-unknown-linux-musl",
        "armeb-unknown-linux-gnueabi",
        "csky-unknown-linux-gnuabiv2",
        "csky-unknown-linux-gnuabiv2hf",
        "hexagon-unknown-linux-musl",
        "i686-unknown-haiku",
        "loongarch64-unknown-linux-ohos",
        "mips-unknown-linux-gnu",
        "mips-unknown-linux-musl",
        "mips-unknown-linux-uclibc",
        "mips64-unknown-linux-gnuabi64",
        "mips64-unknown-linux-muslabi64",
        "mips64el-unknown-linux-gnuabi64",
        "mips64el-unknown-linux-muslabi64",
        "mipsel-unknown-linux-gnu",
        "mipsel-unknown-linux-musl",
        "mipsel-unknown-linux-uclibc",
        "powerpc-unknown-linux-gnuspe",
        "powerpc-unknown-linux-musl",
        "powerpc-unknown-linux-muslspe",
        "riscv32gc-unknown-linux-gnu",
        "riscv32gc-unknown-linux-musl",
        "riscv64a23-unknown-linux-gnu",
        "s390x-unknown-linux-musl",
        "sparc-unknown-linux-gnu",
        "thumbv7neon-unknown-linux-musleabihf",
        "x86_64-unknown-dragonfly",
        "x86_64-unknown-haiku",
        "x86_64-unknown-linux-none",
        "x86_64-unikraft-linux-musl",
    ];
    for t in triples {
        assert!(matches!(Platform::from_target(t), Platform::Linux), "{}", t);
    }
}

#[test]
fn all_known_windows_triples_classify() {
    let triples = [
        "aarch64-pc-windows-msvc",
        "i686-pc-windows-msvc",
        "x86_64-pc-windows-gnu",
        "x86_64-pc-windows-msvc",
        "aarch64-pc-windows-gnullvm",
        "i686-pc-windows-gnu",
        "x86_64-pc-windows-gnullvm",
        "arm64ec-pc-windows-msvc",
        "i686-pc-nto-qnx700",
        "i686-uwp-windows-gnu",
        "i686-win7-windows-gnu",
        "i686-win7-windows-msvc",
        "thumbv7a-pc-windows-msvc",
        "thumbv7a-uwp-windows-msvc",
        "x86_64-pc-nto-qnx710",
        "x86_64-pc-nto-qnx710_iosock",
        "x86_64-pc-nto-qnx800",
        "x86_64-uwp-windows-gnu",
        "x86_64-uwp-windows-msvc",
        "x86_64-win7-windows-gnu",
        "x86_64-win7-windows-msvc",
    ];
    for t in triples {
        assert!(matches!(Platform::from_target(t), Platform::Windows), "{}", t);
    }
}

#[test]
fn all_known_android_triples_classify() {
    let triples = [
        "aarch64-linux-android",
        "arm-linux-androideabi",
        "armv7-linux-androideabi",
        "i686-linux-android",
        "x86_64-linux-android",
        "riscv64-linux-android",
    ];
    for t in triples {
        assert!(matches!(Platform::from_target(t), Platform::Android), "{}", t);
    }
}

#[test]
fn unrecognized_strings_are_unknown() {
    assert!(matches!(Platform::from_target(""), Platform::Unknown));
    assert!(matches!(Platform::from_target("wasm32-unknown-unknown"), Platform::Unknown));
    assert!(matches!(Platform::from_target("aarch64-apple-darwin "), Platform::Unknown));
    assert!(matches!(Platform::from_target("x86_64"), Platform::Unknown));
}

#[test]
fn classification_ignores_ascii_case() {
    assert!(matches!(Platform::from_target("AARCH64-APPLE-DARWIN"), Platform::Macos));
    assert!(matches!(Platform::from_target("X86_64-PC-Windows-MSVC"), Platform::Windows));
}

#[test]
fn host_fallback_macos_yields_macos() {
    assert!(matches!(Platform::from_host_os("macos"), Platform::Macos));
}

#[test]
fn host_fallback_linux_yields_linux() {
    assert!(matches!(Platform::from_host_os("linux"), Platform::Linux));
}

#[test]
fn host_fallback_other_yields_unknown() {
    assert!(matches!(Platform::from_host_os("windows"), Platform::Unknown));
    assert!(matches!(Platform::from_host_os("freebsd"), Platform::Unknown));
    assert!(matches!(Platform::from_host_os(""), Platform::Unknown));
}

#[test]
fn classify_request_prefers_target() {
    let t = String::from("aarch64-linux-android");
    assert!(matches!(Platform::classify_request(Some(&t), "macos"), Platform::Android));
    assert!(matches!(Platform::classify_request(None, "macos"), Platform::Macos));
    assert!(matches!(Platform::classify_request(None, "linux"), Platform::Linux));
    assert!(matches!(Platform::classify_request(None, "windows"), Platform::Unknown));
}

#[test]
fn category_names() {
    assert_eq!(Platform::Android.category_name(), Some("Android"));
    assert_eq!(Platform::Ios.category_name(), Some("Ios"));
    assert_eq!(Platform::Linux.category_name(), Some("Linux"));
    assert_eq!(Platform::Windows.category_name(), Some("Windows"));
    assert_eq!(Platform::Macos.category_name(), Some("Macos"));
    assert_eq!(Platform::Unknown.category_name(), None);
}
