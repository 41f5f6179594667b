//! Classification of compiler target triples into the platforms the
//! packaging pipeline knows how to bundle for.

use vstd::prelude::*;
use vstd::string::StrSliceExecFns;
use crate::strutil::str_eq;

verus! {

/// The closed set of platforms a build can be packaged for. `Unknown` is a
/// terminal error for the build command.
#[derive(Debug, Clone, Copy, PartialEq, Eq, Structural)]
pub enum Platform {
    Android,
    Ios,
    Linux,
    Windows,
    Macos,
    Unknown,
}

/// ASCII lowercasing of a single character; other characters are unchanged.
pub open spec fn lower_char(c: char) -> char {
    if 65 <= c as u32 && c as u32 <= 90 {
        ((c as u32 + 32) as u8) as char
    } else {
        c
    }
}

/// Two character sequences are equal once both are ASCII-lowercased.
pub open spec fn eq_ignore_ascii_case(a: Seq<char>, b: Seq<char>) -> bool {
    a.len() == b.len() && (forall|i: int| 0 <= i < a.len() ==> lower_char(a[i]) == lower_char(b[i]))
}

/// Platform chosen when no target triple was given: decided by the host
/// operating system, where only macOS and Linux hosts are supported.
pub open spec fn host_platform(os: Seq<char>) -> Platform {
    if os == "macos"@ {
        Platform::Macos
    } else if os == "linux"@ {
        Platform::Linux
    } else {
        Platform::Unknown
    }
}

fn lower_char_exec(c: char) -> (r: char)
    ensures
        r == lower_char(c),
{
    let u = c as u32;
    if 65 <= u && u <= 90 {
        ((u + 32) as u8) as char
    } else {
        c
    }
}

/// Case-insensitive (ASCII) equality of two string slices.
pub fn eq_lower(a: &str, b: &str) -> (r: bool)
    ensures
        r == eq_ignore_ascii_case(a@, b@),
{
    let alen = a.unicode_len();
    let blen = b.unicode_len();
    if alen != blen {
        return false;
    }
    let mut i: usize = 0;
    while i < alen
        invariant
            alen == a@.len(),
            alen == b@.len(),
            0 <= i <= alen,
            forall|k: int| 0 <= k < i ==> lower_char(a@[k]) == lower_char(b@[k]),
        decreases alen - i,
    {
        if lower_char_exec(a.get_char(i)) != lower_char_exec(b.get_char(i)) {
            return false;
        }
        i += 1;
    }
    true
}

/// The target triples that are packaged as macOS applications.
pub open spec fn is_macos_triple(t: Seq<char>) -> bool {
    ||| eq_ignore_ascii_case(t, "aarch64-apple-darwin"@)
    ||| eq_ignore_ascii_case(t, "x86_64-apple-darwin"@)
    ||| eq_ignore_ascii_case(t, "arm64e-apple-darwin"@)
    ||| eq_ignore_ascii_case(t, "x86_64h-apple-darwin"@)
}

/// The target triples that are packaged as iOS applications.
pub open spec fn is_ios_triple(t: Seq<char>) -> bool {
    ||| eq_ignore_ascii_case(t, "aarch64-apple-ios"@)
    ||| eq_ignore_ascii_case(t, "aarch64-apple-ios-macabi"@)
    ||| eq_ignore_ascii_case(t, "aarch64-apple-ios-sim"@)
    ||| eq_ignore_ascii_case(t, "x86_64-apple-ios"@)
    ||| eq_ignore_ascii_case(t, "arm64e-apple-ios"@)
    ||| eq_ignore_ascii_case(t, "armv7s-apple-ios"@)
    ||| eq_ignore_ascii_case(t, "i386-apple-ios"@)
}

/// The target triples that are packaged as Linux applications.
pub open spec fn is_linux_triple(t: Seq<char>) -> bool {
    ||| eq_ignore_ascii_case(t, "aarch64-unknown-linux-gnu"@)
    ||| eq_ignore_ascii_case(t, "i686-unknown-linux-gnu"@)
    ||| eq_ignore_ascii_case(t, "x86_64-unknown-linux-gnu"@)
    ||| eq_ignore_ascii_case(t, "aarch64-unknown-linux-musl"@)
    ||| eq_ignore_ascii_case(t, "arm-unknown-linux-gnueabi"@)
    ||| eq_ignore_ascii_case(t, "arm-unknown-linux-gnueabihf"@)
    ||| eq_ignore_ascii_case(t, "armv7-unknown-linux-gnueabihf"@)
    ||| eq_ignore_ascii_case(t, "i586-unknown-linux-gnu"@)
    ||| eq_ignore_ascii_case(t, "i686-unknown-linux-musl"@)
    ||| eq_ignore_ascii_case(t, "loongarch64-unknown-linux-gnu"@)
    ||| eq_ignore_ascii_case(t, "loongarch64-unknown-linux-musl"@)
    ||| eq_ignore_ascii_case(t, "powerpc-unknown-linux-gnu"@)
    ||| eq_ignore_ascii_case(t, "powerpc64-unknown-linux-gnu"@)
    ||| eq_ignore_ascii_case(t, "powerpc64le-unknown-linux-gnu"@)
    ||| eq_ignore_ascii_case(t, "powerpc64le-unknown-linux-musl"@)
    ||| eq_ignore_ascii_case(t, "riscv64gc-unknown-linux-gnu"@)
    ||| eq_ignore_ascii_case(t, "s390x-unknown-linux-gnu"@)
    ||| eq_ignore_ascii_case(t, "x86_64-unknown-linux-musl"@)
    ||| eq_ignore_ascii_case(t, "arm-unknown-linux-musleabi"@)
    ||| eq_ignore_ascii_case(t, "arm-unknown-linux-musleabihf"@)
    ||| eq_ignore_ascii_case(t, "armv5te-unknown-linux-gnueabi"@)
    ||| eq_ignore_ascii_case(t, "armv7-unknown-linux-gnueabi"@)
    ||| eq_ignore_ascii_case(t, "armv7-unknown-linux-musleabi"@)
    ||| eq_ignore_ascii_case(t, "armv7-unknown-linux-musleabihf"@)
    ||| eq_ignore_ascii_case(t, "i586-unknown-linux-musl"@)
    ||| eq_ignore_ascii_case(t, "riscv64gc-unknown-linux-musl"@)
    ||| eq_ignore_ascii_case(t, "sparc64-unknown-linux-gnu"@)
    ||| eq_ignore_ascii_case(t, "thumbv7neon-unknown-linux-gnueabihf"@)
    ||| eq_ignore_ascii_case(t, "x86_64-unknown-linux-gnux32"@)
    ||| eq_ignore_ascii_case(t, "aarch64-unknown-linux-gnu_ilp32"@)
    ||| eq_ignore_ascii_case(t, "aarch64_be-unknown-linux-gnu"@)
    ||| eq_ignore_ascii_case(t, "aarch64_be-unknown-linux-gnu_ilp32"@)
    ||| eq_ignore_ascii_case(t, "aarch64_be-unknown-linux-musl"@)
    ||| eq_ignore_ascii_case(t, "armeb-unknown-linux-gnueabi"@)
    ||| eq_ignore_ascii_case(t, "csky-unknown-linux-gnuabiv2"@)
    ||| eq_ignore_ascii_case(t, "csky-unknown-linux-gnuabiv2hf"@)
    ||| eq_ignore_ascii_case(t, "hexagon-unknown-linux-musl"@)
    ||| eq_ignore_ascii_case(t, "i686-unknown-haiku"@)
    ||| eq_ignore_ascii_case(t, "loongarch64-unknown-linux-ohos"@)
    ||| eq_ignore_ascii_case(t, "mips-unknown-linux-gnu"@)
    ||| eq_ignore_ascii_case(t, "mips-unknown-linux-musl"@)
    ||| eq_ignore_ascii_case(t, "mips-unknown-linux-uclibc"@)
    ||| eq_ignore_ascii_case(t, "mips64-unknown-linux-gnuabi64"@)
    ||| eq_ignore_ascii_case(t, "mips64-unknown-linux-muslabi64"@)
    ||| eq_ignore_ascii_case(t, "mips64el-unknown-linux-gnuabi64"@)
    ||| eq_ignore_ascii_case(t, "mips64el-unknown-linux-muslabi64"@)
    ||| eq_ignore_ascii_case(t, "mipsel-unknown-linux-gnu"@)
    ||| eq_ignore_ascii_case(t, "mipsel-unknown-linux-musl"@)
    ||| eq_ignore_ascii_case(t, "mipsel-unknown-linux-uclibc"@)
    ||| eq_ignore_ascii_case(t, "powerpc-unknown-linux-gnuspe"@)
    ||| eq_ignore_ascii_case(t, "powerpc-unknown-linux-musl"@)
    ||| eq_ignore_ascii_case(t, "powerpc-unknown-linux-muslspe"@)
    ||| eq_ignore_ascii_case(t, "riscv32gc-unknown-linux-gnu"@)
    ||| eq_ignore_ascii_case(t, "riscv32gc-unknown-linux-musl"@)
    ||| eq_ignore_ascii_case(t, "riscv64a23-unknown-linux-gnu"@)
    ||| eq_ignore_ascii_case(t, "s390x-unknown-linux-musl"@)
    ||| eq_ignore_ascii_case(t, "sparc-unknown-linux-gnu"@)
    ||| eq_ignore_ascii_case(t, "thumbv7neon-unknown-linux-musleabihf"@)
    ||| eq_ignore_ascii_case(t, "x86_64-unknown-dragonfly"@)
    ||| eq_ignore_ascii_case(t, "x86_64-unknown-haiku"@)
    ||| eq_ignore_ascii_case(t, "x86_64-unknown-linux-none"@)
    ||| eq_ignore_ascii_case(t, "x86_64-unikraft-linux-musl"@)
}

/// The target triples that are packaged as Windows applications.
pub open spec fn is_windows_triple(t: Seq<char>) -> bool {
    ||| eq_ignore_ascii_case(t, "aarch64-pc-windows-msvc"@)
    ||| eq_ignore_ascii_case(t, "i686-pc-windows-msvc"@)
    ||| eq_ignore_ascii_case(t, "x86_64-pc-windows-gnu"@)
    ||| eq_ignore_ascii_case(t, "x86_64-pc-windows-msvc"@)
    ||| eq_ignore_ascii_case(t, "aarch64-pc-windows-gnullvm"@)
    ||| eq_ignore_ascii_case(t, "i686-pc-windows-gnu"@)
    ||| eq_ignore_ascii_case(t, "x86_64-pc-windows-gnullvm"@)
    ||| eq_ignore_ascii_case(t, "arm64ec-pc-windows-msvc"@)
    ||| eq_ignore_ascii_case(t, "i686-pc-nto-qnx700"@)
    ||| eq_ignore_ascii_case(t, "i686-uwp-windows-gnu"@)
    ||| eq_ignore_ascii_case(t, "i686-win7-windows-gnu"@)
    ||| eq_ignore_ascii_case(t, "i686-win7-windows-msvc"@)
    ||| eq_ignore_ascii_case(t, "thumbv7a-pc-windows-msvc"@)
    ||| eq_ignore_ascii_case(t, "thumbv7a-uwp-windows-msvc"@)
    ||| eq_ignore_ascii_case(t, "x86_64-pc-nto-qnx710"@)
    ||| eq_ignore_ascii_case(t, "x86_64-pc-nto-qnx710_iosock"@)
    ||| eq_ignore_ascii_case(t, "x86_64-pc-nto-qnx800"@)
    ||| eq_ignore_ascii_case(t, "x86_64-uwp-windows-gnu"@)
    ||| eq_ignore_ascii_case(t, "x86_64-uwp-windows-msvc"@)
    ||| eq_ignore_ascii_case(t, "x86_64-win7-windows-gnu"@)
    ||| eq_ignore_ascii_case(t, "x86_64-win7-windows-msvc"@)
}

/// The target triples that are packaged as Android bundles.
pub open spec fn is_android_triple(t: Seq<char>) -> bool {
    ||| eq_ignore_ascii_case(t, "aarch64-linux-android"@)
    ||| eq_ignore_ascii_case(t, "arm-linux-androideabi"@)
    ||| eq_ignore_ascii_case(t, "armv7-linux-androideabi"@)
    ||| eq_ignore_ascii_case(t, "i686-linux-android"@)
    ||| eq_ignore_ascii_case(t, "x86_64-linux-android"@)
    ||| eq_ignore_ascii_case(t, "riscv64-linux-android"@)
}

/// Total classification of a target triple: the fixed table above, with
/// every unrecognized string mapped to `Unknown`. Matching is
/// case-insensitive in the ASCII range, as the triples are compared after
/// lowercasing.
pub open spec fn platform_of(t: Seq<char>) -> Platform {
    if is_macos_triple(t) {
        Platform::Macos
    } else if is_ios_triple(t) {
        Platform::Ios
    } else if is_linux_triple(t) {
        Platform::Linux
    } else if is_windows_triple(t) {
        Platform::Windows
    } else if is_android_triple(t) {
        Platform::Android
    } else {
        Platform::Unknown
    }
}

fn matches_macos(t: &str) -> (r: bool)
    ensures
        r == is_macos_triple(t@),
{
    eq_lower(t, "aarch64-apple-darwin") || eq_lower(t, "x86_64-apple-darwin") || eq_lower(
        t,
        "arm64e-apple-darwin",
    ) || eq_lower(t, "x86_64h-apple-darwin")
}

fn matches_ios(t: &str) -> (r: bool)
    ensures
        r == is_ios_triple(t@),
{
    eq_lower(t, "aarch64-apple-ios") || eq_lower(t, "aarch64-apple-ios-macabi") || eq_lower(
        t,
        "aarch64-apple-ios-sim",
    ) || eq_lower(t, "x86_64-apple-ios") || eq_lower(t, "arm64e-apple-ios") || eq_lower(
        t,
        "armv7s-apple-ios",
    ) || eq_lower(t, "i386-apple-ios")
}

#[verifier::rlimit(30)]
fn matches_linux(t: &str) -> (r: bool)
    ensures
        r == is_linux_triple(t@),
{
    eq_lower(t, "aarch64-unknown-linux-gnu") || eq_lower(t, "i686-unknown-linux-gnu") || eq_lower(
        t,
        "x86_64-unknown-linux-gnu",
    ) || eq_lower(t, "aarch64-unknown-linux-musl") || eq_lower(t, "arm-unknown-linux-gnueabi")
        || eq_lower(t, "arm-unknown-linux-gnueabihf") || eq_lower(t, "armv7-unknown-linux-gnueabihf")
        || eq_lower(t, "i586-unknown-linux-gnu") || eq_lower(t, "i686-unknown-linux-musl")
        || eq_lower(t, "loongarch64-unknown-linux-gnu") || eq_lower(
        t,
        "loongarch64-unknown-linux-musl",
    ) || eq_lower(t, "powerpc-unknown-linux-gnu") || eq_lower(t, "powerpc64-unknown-linux-gnu")
        || eq_lower(t, "powerpc64le-unknown-linux-gnu") || eq_lower(
        t,
        "powerpc64le-unknown-linux-musl",
    ) || eq_lower(t, "riscv64gc-unknown-linux-gnu") || eq_lower(t, "s390x-unknown-linux-gnu")
        || eq_lower(t, "x86_64-unknown-linux-musl") || eq_lower(t, "arm-unknown-linux-musleabi")
        || eq_lower(t, "arm-unknown-linux-musleabihf") || eq_lower(
        t,
        "armv5te-unknown-linux-gnueabi",
    ) || eq_lower(t, "armv7-unknown-linux-gnueabi") || eq_lower(t, "armv7-unknown-linux-musleabi")
        || eq_lower(t, "armv7-unknown-linux-musleabihf") || eq_lower(t, "i586-unknown-linux-musl")
        || eq_lower(t, "riscv64gc-unknown-linux-musl") || eq_lower(t, "sparc64-unknown-linux-gnu")
        || eq_lower(t, "thumbv7neon-unknown-linux-gnueabihf") || eq_lower(
        t,
        "x86_64-unknown-linux-gnux32",
    ) || eq_lower(t, "aarch64-unknown-linux-gnu_ilp32") || eq_lower(t, "aarch64_be-unknown-linux-gnu")
        || eq_lower(t, "aarch64_be-unknown-linux-gnu_ilp32") || eq_lower(
        t,
        "aarch64_be-unknown-linux-musl",
    ) || eq_lower(t, "armeb-unknown-linux-gnueabi") || eq_lower(t, "csky-unknown-linux-gnuabiv2")
        || eq_lower(t, "csky-unknown-linux-gnuabiv2hf") || eq_lower(t, "hexagon-unknown-linux-musl")
        || eq_lower(t, "i686-unknown-haiku") || eq_lower(t, "loongarch64-unknown-linux-ohos")
        || eq_lower(t, "mips-unknown-linux-gnu") || eq_lower(t, "mips-unknown-linux-musl")
        || eq_lower(t, "mips-unknown-linux-uclibc") || eq_lower(t, "mips64-unknown-linux-gnuabi64")
        || eq_lower(t, "mips64-unknown-linux-muslabi64") || eq_lower(
        t,
        "mips64el-unknown-linux-gnuabi64",
    ) || eq_lower(t, "mips64el-unknown-linux-muslabi64") || eq_lower(t, "mipsel-unknown-linux-gnu")
        || eq_lower(t, "mipsel-unknown-linux-musl") || eq_lower(t, "mipsel-unknown-linux-uclibc")
        || eq_lower(t, "powerpc-unknown-linux-gnuspe") || eq_lower(t, "powerpc-unknown-linux-musl")
        || eq_lower(t, "powerpc-unknown-linux-muslspe") || eq_lower(t, "riscv32gc-unknown-linux-gnu")
        || eq_lower(t, "riscv32gc-unknown-linux-musl") || eq_lower(t, "riscv64a23-unknown-linux-gnu")
        || eq_lower(t, "s390x-unknown-linux-musl") || eq_lower(t, "sparc-unknown-linux-gnu")
        || eq_lower(t, "thumbv7neon-unknown-linux-musleabihf") || eq_lower(
        t,
        "x86_64-unknown-dragonfly",
    ) || eq_lower(t, "x86_64-unknown-haiku") || eq_lower(t, "x86_64-unknown-linux-none") || eq_lower(
        t,
        "x86_64-unikraft-linux-musl",
    )
}

fn matches_windows(t: &str) -> (r: bool)
    ensures
        r == is_windows_triple(t@),
{
    eq_lower(t, "aarch64-pc-windows-msvc") || eq_lower(t, "i686-pc-windows-msvc") || eq_lower(
        t,
        "x86_64-pc-windows-gnu",
    ) || eq_lower(t, "x86_64-pc-windows-msvc") || eq_lower(t, "aarch64-pc-windows-gnullvm")
        || eq_lower(t, "i686-pc-windows-gnu") || eq_lower(t, "x86_64-pc-windows-gnullvm")
        || eq_lower(t, "arm64ec-pc-windows-msvc") || eq_lower(t, "i686-pc-nto-qnx700") || eq_lower(
        t,
        "i686-uwp-windows-gnu",
    ) || eq_lower(t, "i686-win7-windows-gnu") || eq_lower(t, "i686-win7-windows-msvc") || eq_lower(
        t,
        "thumbv7a-pc-windows-msvc",
    ) || eq_lower(t, "thumbv7a-uwp-windows-msvc") || eq_lower(t, "x86_64-pc-nto-qnx710")
        || eq_lower(t, "x86_64-pc-nto-qnx710_iosock") || eq_lower(t, "x86_64-pc-nto-qnx800")
        || eq_lower(t, "x86_64-uwp-windows-gnu") || eq_lower(t, "x86_64-uwp-windows-msvc")
        || eq_lower(t, "x86_64-win7-windows-gnu") || eq_lower(t, "x86_64-win7-windows-msvc")
}

fn matches_android(t: &str) -> (r: bool)
    ensures
        r == is_android_triple(t@),
{
    eq_lower(t, "aarch64-linux-android") || eq_lower(t, "arm-linux-androideabi") || eq_lower(
        t,
        "armv7-linux-androideabi",
    ) || eq_lower(t, "i686-linux-android") || eq_lower(t, "x86_64-linux-android") || eq_lower(
        t,
        "riscv64-linux-android",
    )
}

impl Platform {
    /// Categorize a target triple into a platform by matching it, up to
    /// ASCII case, against the fixed table of known triples; any other
    /// string yields `Unknown`.
    pub fn from_target(target: &str) -> (r: Platform)
        ensures
            r == platform_of(target@),
    {
        if matches_macos(target) {
            Platform::Macos
        } else if matches_ios(target) {
            Platform::Ios
        } else if matches_linux(target) {
            Platform::Linux
        } else if matches_windows(target) {
            Platform::Windows
        } else if matches_android(target) {
            Platform::Android
        } else {
            Platform::Unknown
        }
    }

    /// Fallback classification from the host operating system name, used
    /// when the build request carries no target triple.
    pub fn from_host_os(os: &str) -> (r: Platform)
        ensures
            r == host_platform(os@),
    {
        if str_eq(os, "macos") {
            Platform::Macos
        } else if str_eq(os, "linux") {
            Platform::Linux
        } else {
            Platform::Unknown
        }
    }

    /// The platform a build request is for: its target triple when one
    /// was given, else the host's own platform.
    pub fn classify_request(target: Option<&String>, host_os: &str) -> (r: Platform)
        ensures
            r == (match target {
                Some(t) => platform_of(t@),
                None => host_platform(host_os@),
            }),
    {
        match target {
            Some(t) => Platform::from_target(t.as_str()),
            None => Platform::from_host_os(host_os),
        }
    }

    /// The category name the build command reports for a platform;
    /// nothing for `Unknown`, which aborts the command.
    pub fn category_name(self) -> (r: Option<&'static str>)
        ensures
            match r {
                Some(s) => {
                    &&& self != Platform::Unknown
                    &&& (self == Platform::Android ==> s@ == "Android"@)
                    &&& (self == Platform::Ios ==> s@ == "Ios"@)
                    &&& (self == Platform::Linux ==> s@ == "Linux"@)
                    &&& (self == Platform::Windows ==> s@ == "Windows"@)
                    &&& (self == Platform::Macos ==> s@ == "Macos"@)
                },
                None => self == Platform::Unknown,
            },
    {
        match self {
            Platform::Android => Some("Android"),
            Platform::Ios => Some("Ios"),
            Platform::Linux => Some("Linux"),
            Platform::Windows => Some("Windows"),
            Platform::Macos => Some("Macos"),
            Platform::Unknown => None,
        }
    }
}

} // verus!
