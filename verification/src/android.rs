//! Derivation of the Android manifest from project metadata, and its
//! serialization to XML.

use vstd::prelude::*;
use vstd::string::StrSliceExecFns;
use vstd::string::StringExecFns;
use crate::error::PistonError;
use crate::helper::EnvMap;
use crate::helper::Helper;
use crate::metadata::PackageMeta;
use crate::metadata::ProjectMetadata;
use crate::scaffold::IconJob;
use crate::scaffold::ScaffoldPlan;
use crate::scaffold::under_any;
use crate::strutil::dec_str;
use crate::strutil::dec_string;
use crate::strutil::env_key_char;
use crate::strutil::path_join;
use crate::strutil::str_eq;
use crate::strutil::to_env_key_part;
use crate::strutil::push_dec;
use crate::strutil::underscore_char;

verus! {

/// How one character is written in XML attribute and text content: the
/// five markup characters become entity references, all others stand as
/// themselves.
pub open spec fn escape_char(c: char) -> Seq<char> {
    if c == '&' {
        "&amp;"@
    } else if c == '<' {
        "&lt;"@
    } else if c == '>' {
        "&gt;"@
    } else if c == '"' {
        "&quot;"@
    } else if c == '\'' {
        "&apos;"@
    } else {
        seq![c]
    }
}

/// `s` with every markup character replaced by its entity reference.
pub open spec fn escape_seq(s: Seq<char>) -> Seq<char>
    decreases s.len(),
{
    if s.len() == 0 {
        Seq::empty()
    } else {
        escape_char(s[0]) + escape_seq(s.drop_first())
    }
}

proof fn lemma_escape_push(s: Seq<char>, c: char)
    ensures
        escape_seq(s.push(c)) == escape_seq(s) + escape_char(c),
    decreases s.len(),
{
    assert(s.push(c)[0] == if s.len() == 0 {
        c
    } else {
        s[0]
    });
    if s.len() == 0 {
        assert(s.push(c).drop_first() =~= Seq::<char>::empty());
        assert(escape_seq(s.push(c)) == escape_char(c) + escape_seq(Seq::<char>::empty()));
        assert(escape_char(c) + Seq::<char>::empty() =~= escape_char(c));
        assert(Seq::<char>::empty() + escape_char(c) =~= escape_char(c));
    } else {
        assert(s.push(c).drop_first() =~= s.drop_first().push(c));
        lemma_escape_push(s.drop_first(), c);
        assert(escape_seq(s.push(c)) == escape_char(s[0]) + (escape_seq(s.drop_first())
            + escape_char(c)));
        assert(escape_char(s[0]) + (escape_seq(s.drop_first()) + escape_char(c)) =~= (escape_char(
            s[0],
        ) + escape_seq(s.drop_first())) + escape_char(c));
    }
}

/// Appends the XML-escaped form of `s` to `out`.
fn push_escaped(out: &mut String, s: &str)
    ensures
        final(out)@ == old(out)@ + escape_seq(s@),
{
    let n = s.unicode_len();
    let mut i: usize = 0;
    while i < n
        invariant
            n == s@.len(),
            0 <= i <= n,
            out@ == old(out)@ + escape_seq(s@.subrange(0, i as int)),
        decreases n - i,
    {
        let c = s.get_char(i);
        if c == '&' {
            out.append("&amp;");
        } else if c == '<' {
            out.append("&lt;");
        } else if c == '>' {
            out.append("&gt;");
        } else if c == '"' {
            out.append("&quot;");
        } else if c == '\'' {
            out.append("&apos;");
        } else {
            out.append(s.substring_char(i, i + 1));
            proof {
                assert(s@.subrange(i as int, i + 1) =~= seq![s@[i as int]]);
            }
        }
        proof {
            assert(s@.subrange(0, i + 1) =~= s@.subrange(0, i as int).push(s@[i as int]));
            lemma_escape_push(s@.subrange(0, i as int), s@[i as int]);
        }
        i += 1;
    }
    proof {
        assert(s@.subrange(0, n as int) =~= s@);
    }
}

/// The opening of the manifest, up to the `package` attribute value.
pub const XML_SEG_HEAD: &'static str = "<?xml version=\"1.0\" encoding=\"utf-8\"?>\n            <manifest xmlns:android=\"http://schemas.android.com/apk/res/android\"\n                package=\"";

/// Between the `package` and `android:versionCode` attribute values.
pub const XML_SEG_VCODE: &'static str = "\"\n                android:versionCode=\"";

/// Between the `android:versionCode` and `android:versionName` values.
pub const XML_SEG_VNAME: &'static str = "\"\n                android:versionName=\"";

/// Closes the manifest tag and opens `uses-sdk`, up to the minimum SDK.
pub const XML_SEG_MINSDK: &'static str = "\">\n\n                <uses-sdk android:minSdkVersion=\"";

/// Between the minimum and target SDK versions.
pub const XML_SEG_TARGETSDK: &'static str = "\" android:targetSdkVersion=\"";

/// Closes `uses-sdk` and opens `application`, up to the label.
pub const XML_SEG_LABEL: &'static str = "\" />\n\n                <application android:label=\"";

/// Between the application label and the icon reference.
pub const XML_SEG_ICON: &'static str = "\" android:hasCode=\"false\" android:icon=\"";

/// Closes `application`'s attributes and opens the activity, up to the
/// activity label.
pub const XML_SEG_ACT_LABEL: &'static str = "\">\n                    <activity android:name=\"android.app.NativeActivity\"\n                        android:label=\"";

/// Between the activity label and the native library name.
pub const XML_SEG_LIB: &'static str = "\"\n                        android:exported=\"true\">\n                        <meta-data android:name=\"android.app.lib_name\" android:value=\"";

/// The fixed tail: intent filter and all closing tags.
pub const XML_SEG_TAIL: &'static str = "\" />\n                        <intent-filter>\n                            <action android:name=\"android.intent.action.MAIN\" />\n                            <category android:name=\"android.intent.category.LAUNCHER\" />\n                        </intent-filter>\n                    </activity>\n                </application>\n            </manifest>";

/// The Android manifest, derived once from project metadata and then
/// serialized to XML without further mutation.
#[derive(Debug, Clone)]
pub struct AndroidManifest {
    pub package: String,
    pub version_code: u32,
    pub version_name: String,
    pub min_sdk_version: u32,
    pub target_sdk_version: u32,
    pub app_label: String,
    pub app_name: String,
    pub icon: String,
}

/// The application identifier used when the metadata names none.
pub open spec fn default_package(crate_name: Seq<char>) -> Seq<char> {
    "com.example."@ + crate_name
}

/// The application label used when the metadata names none.
pub open spec fn default_label(crate_name: Seq<char>) -> Seq<char> {
    crate_name + " App"@
}

/// The manifest `build` derives from a package's metadata: each field
/// either the value the `android` sub-table names or its documented
/// default.
pub open spec fn manifest_matches(m: AndroidManifest, pkg: PackageMeta, app_name: Seq<char>) -> bool {
    &&& m.package@ == (match pkg.android.package {
        Some(p) => p@,
        None => default_package(pkg.name@),
    })
    &&& m.version_code == (match pkg.android.version_code {
        Some(v) => v,
        None => 1u32,
    })
    &&& m.version_name@ == (match pkg.android.version_name {
        Some(v) => v@,
        None => "1.0"@,
    })
    &&& m.min_sdk_version == (match pkg.android.min_sdk_version {
        Some(v) => v,
        None => 21u32,
    })
    &&& m.target_sdk_version == (match pkg.android.target_sdk_version {
        Some(v) => v,
        None => 34u32,
    })
    &&& m.app_label@ == (match pkg.android.label {
        Some(l) => l@,
        None => default_label(pkg.name@),
    })
    &&& m.app_name@ == app_name
    &&& m.icon@ == "@mipmap/ic_launcher"@
}

/// The XML document `to_xml` serializes a manifest to: the fixed template
/// with the manifest's fields escaped (the numeric fields in decimal)
/// spliced into it.
pub open spec fn manifest_xml(m: AndroidManifest) -> Seq<char> {
    XML_SEG_HEAD@ + escape_seq(m.package@) + XML_SEG_VCODE@ + dec_str(m.version_code as int)
        + XML_SEG_VNAME@ + escape_seq(m.version_name@) + XML_SEG_MINSDK@ + dec_str(
        m.min_sdk_version as int,
    ) + XML_SEG_TARGETSDK@ + dec_str(m.target_sdk_version as int) + XML_SEG_LABEL@ + escape_seq(
        m.app_label@,
    ) + XML_SEG_ICON@ + escape_seq(m.icon@) + XML_SEG_ACT_LABEL@ + escape_seq(m.app_label@)
        + XML_SEG_LIB@ + escape_seq(m.app_name@) + XML_SEG_TAIL@
}

impl AndroidManifest {
    /// Derives the manifest from the project metadata: every key of the
    /// `android` sub-table that is present is taken as given, every absent
    /// key falls back to its documented default. Fails exactly when the
    /// metadata has no root package.
    pub fn build(metadata: &ProjectMetadata, app_name: &String) -> (r: Result<
        AndroidManifest,
        PistonError,
    >)
        ensures
            metadata.root is Some <==> r is Ok,
            r matches Ok(m) ==> manifest_matches(m, metadata.root->0, app_name@),
            r matches Err(e) ==> e matches PistonError::ParseManifestError(m) && m@
                == "No Root package found in metadata"@,
    {
        let pkg = match &metadata.root {
            Some(p) => p,
            None => {
                return Err(
                    PistonError::ParseManifestError(
                        String::from_str("No Root package found in metadata"),
                    ),
                );
            },
        };
        let package = match &pkg.android.package {
            Some(p) => p.clone(),
            None => {
                let mut s = String::from_str("com.example.");
                s.append(pkg.name.as_str());
                s
            },
        };
        let version_code = match &pkg.android.version_code {
            Some(v) => *v,
            None => 1,
        };
        let version_name = match &pkg.android.version_name {
            Some(v) => v.clone(),
            None => String::from_str("1.0"),
        };
        let min_sdk_version = match &pkg.android.min_sdk_version {
            Some(v) => *v,
            None => 21,
        };
        let target_sdk_version = match &pkg.android.target_sdk_version {
            Some(v) => *v,
            None => 34,
        };
        let app_label = match &pkg.android.label {
            Some(l) => l.clone(),
            None => {
                let mut s = pkg.name.clone();
                s.append(" App");
                s
            },
        };
        Ok(
            AndroidManifest {
                package,
                version_code,
                version_name,
                min_sdk_version,
                target_sdk_version,
                app_label,
                app_name: app_name.clone(),
                icon: String::from_str("@mipmap/ic_launcher"),
            },
        )
    }

    /// Serializes the manifest to the XML document `manifest_xml` gives.
    pub fn to_xml(&self) -> (r: String)
        ensures
            r@ == manifest_xml(*self),
    {
        let mut out = String::new();
        out.append(XML_SEG_HEAD);
        push_escaped(&mut out, self.package.as_str());
        out.append(XML_SEG_VCODE);
        push_dec(&mut out, self.version_code as u64);
        out.append(XML_SEG_VNAME);
        push_escaped(&mut out, self.version_name.as_str());
        out.append(XML_SEG_MINSDK);
        push_dec(&mut out, self.min_sdk_version as u64);
        out.append(XML_SEG_TARGETSDK);
        push_dec(&mut out, self.target_sdk_version as u64);
        out.append(XML_SEG_LABEL);
        push_escaped(&mut out, self.app_label.as_str());
        out.append(XML_SEG_ICON);
        push_escaped(&mut out, self.icon.as_str());
        out.append(XML_SEG_ACT_LABEL);
        push_escaped(&mut out, self.app_label.as_str());
        out.append(XML_SEG_LIB);
        push_escaped(&mut out, self.app_name.as_str());
        out.append(XML_SEG_TAIL);
        proof {
            assert(out@ =~= manifest_xml(*self));
        }
        out
    }

    /// Escapes a string for inclusion in the manifest's XML.
    pub fn escape_xml(s: &str) -> (r: String)
        ensures
            r@ == escape_seq(s@),
    {
        let mut out = String::new();
        push_escaped(&mut out, s);
        proof {
            assert(out@ =~= escape_seq(s@));
        }
        out
    }
}

/// The output directory name for a build profile.
pub open spec fn release_dir(release: bool) -> Seq<char> {
    if release {
        "release"@
    } else {
        "debug"@
    }
}

/// The directory name of the build profile, as it appears under
/// `target`.
pub fn release_dir_name(release: bool) -> (r: &'static str)
    ensures
        r@ == release_dir(release),
{
    if release {
        "release"
    } else {
        "debug"
    }
}

/// Where the Android bundle is assembled.
pub open spec fn android_build_path(cwd: Seq<char>, release: bool) -> Seq<char> {
    cwd + "/"@ + "target"@ + "/"@ + release_dir(release) + "/"@ + "androidbuilder"@ + "/"@
        + "android"@
}

/// Where the finished Android build artifacts go.
pub open spec fn android_output_path(cwd: Seq<char>, release: bool) -> Seq<char> {
    cwd + "/"@ + "target/"@ + release_dir(release) + "/android"@
}

/// Assembles an Android application bundle: scaffolds the bundle
/// directories, compiles the project as a native library, links the
/// manifest and resources, and packs the result. The file-system and
/// process work is carried out by a front end following the paths and
/// commands computed here.
pub struct AndroidBuilder {
    pub release: bool,
    pub target: String,
    pub cwd: String,
    pub build_path: String,
    pub output_path: Option<String>,
    pub icon_path: Option<String>,
    pub cargo_path: String,
    pub gpg_path: Option<String>,
    pub app_name: String,
    pub lib_name: String,
    pub app_version: String,
    pub manifest: AndroidManifest,
    pub manifest_path: String,
    pub ndk_path: String,
    pub sdk_path: String,
    pub java_path: String,
    pub resources: String,
    pub build_tools_version: String,
    pub bundletool_path: String,
    pub key_id: Option<String>,
    pub key_pass: Option<String>,
}

impl AndroidBuilder {
    /// Gathers everything an Android build needs: the toolchain paths
    /// from the environment map, the package facts from the project
    /// metadata, the derived manifest, and the build-tree paths. Fails
    /// on the first missing toolchain key, then when the metadata has no
    /// root package.
    pub fn new(
        release: bool,
        target: String,
        cwd: String,
        env_vars: &EnvMap,
        metadata: &ProjectMetadata,
        build_tools_version: String,
    ) -> (r: Result<AndroidBuilder, PistonError>)
        ensures
            r is Ok <==> (env_vars@.contains_key("ndk_path"@) && env_vars@.contains_key("sdk_path"@)
                && env_vars@.contains_key("java_path"@) && env_vars@.contains_key(
                "bundletool_path"@,
            ) && metadata.root is Some),
            r matches Ok(b) ==> {
                let pkg = metadata.root->0;
                &&& b.release == release
                &&& b.target@ == target@
                &&& b.cwd@ == cwd@
                &&& b.build_path@ == android_build_path(cwd@, release)
                &&& b.output_path is None
                &&& (match pkg.icon_path {
                    Some(p) => b.icon_path matches Some(q) && q@ == p@,
                    None => b.icon_path is None,
                })
                &&& b.cargo_path@ == (if env_vars@.contains_key("cargo_path"@) {
                    env_vars@["cargo_path"@]
                } else {
                    "cargo"@
                })
                &&& (match b.gpg_path {
                    Some(g) => env_vars@.contains_key("gpg_path"@) && g@ == env_vars@["gpg_path"@],
                    None => !env_vars@.contains_key("gpg_path"@),
                })
                &&& b.app_name@ == pkg.name@
                &&& b.lib_name@ == pkg.name@.map_values(|c: char| underscore_char(c))
                &&& b.app_version@ == pkg.version@
                &&& manifest_matches(b.manifest, pkg, pkg.name@)
                &&& b.manifest_path@ == android_build_path(cwd@, release) + "/"@
                    + "AndroidManifest.xml"@
                &&& b.ndk_path@ == env_vars@["ndk_path"@]
                &&& b.sdk_path@ == env_vars@["sdk_path"@]
                &&& b.java_path@ == env_vars@["java_path"@]
                &&& b.bundletool_path@ == env_vars@["bundletool_path"@]
                &&& b.resources@ == android_build_path(cwd@, release) + "/"@ + "app"@ + "/"@
                    + "src"@ + "/"@ + "main"@ + "/"@ + "res"@
                &&& b.build_tools_version@ == build_tools_version@
                &&& (match b.key_id {
                    Some(k) => env_vars@.contains_key("android_gpg_key_id"@) && k@
                        == env_vars@["android_gpg_key_id"@],
                    None => !env_vars@.contains_key("android_gpg_key_id"@),
                })
                &&& (match b.key_pass {
                    Some(k) => env_vars@.contains_key("android_gpg_key_pass"@) && k@
                        == env_vars@["android_gpg_key_pass"@],
                    None => !env_vars@.contains_key("android_gpg_key_pass"@),
                })
            },
            r matches Err(e) ==> {
                if !env_vars@.contains_key("ndk_path"@) {
                    e matches PistonError::MissingEnvKeyError(k) && k@ == "ndk_path"@
                } else if !env_vars@.contains_key("sdk_path"@) {
                    e matches PistonError::MissingEnvKeyError(k) && k@ == "sdk_path"@
                } else if !env_vars@.contains_key("java_path"@) {
                    e matches PistonError::MissingEnvKeyError(k) && k@ == "java_path"@
                } else if !env_vars@.contains_key("bundletool_path"@) {
                    e matches PistonError::MissingEnvKeyError(k) && k@ == "bundletool_path"@
                } else {
                    e matches PistonError::CargoParseError(_)
                }
            },
    {
        let cargo_path: String = match env_vars.get("cargo_path") {
            Some(v) => v.clone(),
            None => String::from_str("cargo"),
        };
        let gpg_path: Option<String> = match env_vars.get("gpg_path") {
            Some(v) => Some(v.clone()),
            None => None,
        };
        let ndk_path: String = match Helper::get_or_err(env_vars, "ndk_path") {
            Ok(v) => v.clone(),
            Err(e) => {
                return Err(e);
            },
        };
        let sdk_path: String = match Helper::get_or_err(env_vars, "sdk_path") {
            Ok(v) => v.clone(),
            Err(e) => {
                return Err(e);
            },
        };
        let java_path: String = match Helper::get_or_err(env_vars, "java_path") {
            Ok(v) => v.clone(),
            Err(e) => {
                return Err(e);
            },
        };
        let bundletool_path: String = match Helper::get_or_err(env_vars, "bundletool_path") {
            Ok(v) => v.clone(),
            Err(e) => {
                return Err(e);
            },
        };
        let key_id: Option<String> = match env_vars.get("android_gpg_key_id") {
            Some(v) => Some(v.clone()),
            None => None,
        };
        let key_pass: Option<String> = match env_vars.get("android_gpg_key_pass") {
            Some(v) => Some(v.clone()),
            None => None,
        };
        let lib_name = match Helper::get_lib_name(metadata) {
            Ok(v) => v,
            Err(e) => {
                return Err(e);
            },
        };
        let icon_path = Helper::get_icon_path(metadata);
        let app_name = match Helper::get_app_name(metadata) {
            Ok(v) => v,
            Err(e) => {
                return Err(e);
            },
        };
        let app_version = match Helper::get_app_version(metadata) {
            Ok(v) => v,
            Err(e) => {
                return Err(e);
            },
        };
        let manifest = match AndroidManifest::build(metadata, &app_name) {
            Ok(m) => m,
            Err(e) => {
                return Err(e);
            },
        };
        let mut build_path = String::from_str(cwd.as_str());
        build_path.append("/");
        build_path.append("target");
        build_path.append("/");
        build_path.append(release_dir_name(release));
        build_path.append("/");
        build_path.append("androidbuilder");
        build_path.append("/");
        build_path.append("android");
        let mut manifest_path = String::from_str(build_path.as_str());
        manifest_path.append("/");
        manifest_path.append("AndroidManifest.xml");
        let mut resources_path = String::from_str(build_path.as_str());
        resources_path.append("/");
        resources_path.append("app");
        resources_path.append("/");
        resources_path.append("src");
        resources_path.append("/");
        resources_path.append("main");
        resources_path.append("/");
        resources_path.append("res");
        Ok(
            AndroidBuilder {
                release,
                target,
                cwd,
                build_path,
                output_path: None,
                icon_path,
                cargo_path,
                gpg_path,
                app_name,
                lib_name,
                app_version,
                manifest,
                manifest_path,
                ndk_path,
                sdk_path,
                java_path,
                resources: resources_path,
                build_tools_version,
                bundletool_path,
                key_id,
                key_pass,
            },
        )
    }
}

/// The mipmap directory for one icon resolution.
pub open spec fn mipmap_dir(resources: Seq<char>, name: Seq<char>) -> Seq<char> {
    resources + "/"@ + name
}

/// The launcher icon inside one mipmap directory.
pub open spec fn mipmap_icon(resources: Seq<char>, name: Seq<char>) -> Seq<char> {
    mipmap_dir(resources, name) + "/"@ + "ic_launcher.png"@
}

impl AndroidBuilder {
    /// The directory scaffolding of the Android pre-build step: the
    /// resource tree and the output directory are cleared and recreated,
    /// the five mipmap directories are created, and the project icon is
    /// resized into each of them. Also records the output path on the
    /// builder.
    pub fn pre_build(&mut self) -> (r: ScaffoldPlan)
        requires
            old(self).icon_path is Some,
        ensures
            final(self).output_path matches Some(p) && p@ == android_output_path(
                old(self).cwd@,
                old(self).release,
            ),
            final(self).release == old(self).release,
            final(self).target == old(self).target,
            final(self).cwd == old(self).cwd,
            final(self).build_path == old(self).build_path,
            final(self).icon_path == old(self).icon_path,
            final(self).cargo_path == old(self).cargo_path,
            final(self).gpg_path == old(self).gpg_path,
            final(self).app_name == old(self).app_name,
            final(self).lib_name == old(self).lib_name,
            final(self).app_version == old(self).app_version,
            final(self).manifest == old(self).manifest,
            final(self).manifest_path == old(self).manifest_path,
            final(self).ndk_path == old(self).ndk_path,
            final(self).sdk_path == old(self).sdk_path,
            final(self).java_path == old(self).java_path,
            final(self).resources == old(self).resources,
            final(self).build_tools_version == old(self).build_tools_version,
            final(self).bundletool_path == old(self).bundletool_path,
            final(self).key_id == old(self).key_id,
            final(self).key_pass == old(self).key_pass,
            r.wf(),
            r.clears.deep_view() == seq![
                old(self).resources@,
                android_output_path(old(self).cwd@, old(self).release),
            ],
            r.dirs.deep_view() == seq![
                old(self).resources@,
                android_output_path(old(self).cwd@, old(self).release),
                mipmap_dir(old(self).resources@, "mipmap-hdpi"@),
                mipmap_dir(old(self).resources@, "mipmap-mdpi"@),
                mipmap_dir(old(self).resources@, "mipmap-xhdpi"@),
                mipmap_dir(old(self).resources@, "mipmap-xxhdpi"@),
                mipmap_dir(old(self).resources@, "mipmap-xxxhdpi"@),
            ],
            r.files@ == Seq::<(String, String)>::empty(),
            r.icons@.len() == 5,
            forall|k: int|
                0 <= k < 5 ==> (#[trigger] r.icons@[k]).source@ == old(self).icon_path->0@,
            r.icons@[0].dest@ == mipmap_icon(old(self).resources@, "mipmap-hdpi"@),
            r.icons@[0].width == 48u32 && r.icons@[0].height == 48u32,
            r.icons@[1].dest@ == mipmap_icon(old(self).resources@, "mipmap-mdpi"@),
            r.icons@[1].width == 72u32 && r.icons@[1].height == 72u32,
            r.icons@[2].dest@ == mipmap_icon(old(self).resources@, "mipmap-xhdpi"@),
            r.icons@[2].width == 96u32 && r.icons@[2].height == 96u32,
            r.icons@[3].dest@ == mipmap_icon(old(self).resources@, "mipmap-xxhdpi"@),
            r.icons@[3].width == 144u32 && r.icons@[3].height == 144u32,
            r.icons@[4].dest@ == mipmap_icon(old(self).resources@, "mipmap-xxxhdpi"@),
            r.icons@[4].width == 192u32 && r.icons@[4].height == 192u32,
    {
        let mut output_path = String::from_str(self.cwd.as_str());
        output_path.append("/");
        output_path.append("target/");
        output_path.append(release_dir_name(self.release));
        output_path.append("/android");
        let hdpi = path_join(self.resources.as_str(), "mipmap-hdpi");
        let mdpi = path_join(self.resources.as_str(), "mipmap-mdpi");
        let xhdpi = path_join(self.resources.as_str(), "mipmap-xhdpi");
        let xxhdpi = path_join(self.resources.as_str(), "mipmap-xxhdpi");
        let xxxhdpi = path_join(self.resources.as_str(), "mipmap-xxxhdpi");
        let icon = match &self.icon_path {
            Some(p) => p.clone(),
            None => String::new(),
        };
        let mut clears: Vec<String> = Vec::new();
        clears.push(self.resources.clone());
        clears.push(output_path.clone());
        let mut dirs: Vec<String> = Vec::new();
        dirs.push(self.resources.clone());
        dirs.push(output_path.clone());
        dirs.push(hdpi.clone());
        dirs.push(mdpi.clone());
        dirs.push(xhdpi.clone());
        dirs.push(xxhdpi.clone());
        dirs.push(xxxhdpi.clone());
        let mut icons: Vec<IconJob> = Vec::new();
        icons.push(
            IconJob {
                source: icon.clone(),
                dest: path_join(hdpi.as_str(), "ic_launcher.png"),
                width: 48,
                height: 48,
            },
        );
        icons.push(
            IconJob {
                source: icon.clone(),
                dest: path_join(mdpi.as_str(), "ic_launcher.png"),
                width: 72,
                height: 72,
            },
        );
        icons.push(
            IconJob {
                source: icon.clone(),
                dest: path_join(xhdpi.as_str(), "ic_launcher.png"),
                width: 96,
                height: 96,
            },
        );
        icons.push(
            IconJob {
                source: icon.clone(),
                dest: path_join(xxhdpi.as_str(), "ic_launcher.png"),
                width: 144,
                height: 144,
            },
        );
        icons.push(
            IconJob {
                source: icon.clone(),
                dest: path_join(xxxhdpi.as_str(), "ic_launcher.png"),
                width: 192,
                height: 192,
            },
        );
        let plan = ScaffoldPlan { clears, dirs, files: Vec::new(), icons };
        proof {
            assert(plan.clears.deep_view() =~= seq![
                self.resources@,
                android_output_path(self.cwd@, self.release),
            ]);
            assert(plan.dirs.deep_view() =~= seq![
                self.resources@,
                android_output_path(self.cwd@, self.release),
                mipmap_dir(self.resources@, "mipmap-hdpi"@),
                mipmap_dir(self.resources@, "mipmap-mdpi"@),
                mipmap_dir(self.resources@, "mipmap-xhdpi"@),
                mipmap_dir(self.resources@, "mipmap-xxhdpi"@),
                mipmap_dir(self.resources@, "mipmap-xxxhdpi"@),
            ]);
            lemma_android_plan_wf(plan, self.resources@, android_output_path(self.cwd@, self.release));
        }
        self.output_path = Some(output_path);
        plan
    }
}

proof fn lemma_prefix_of_concat(a: Seq<char>, b: Seq<char>)
    ensures
        a.is_prefix_of(a + b),
{
    assert(a =~= (a + b).subrange(0, a.len() as int));
}

proof fn lemma_android_plan_wf(plan: ScaffoldPlan, res: Seq<char>, outp: Seq<char>)
    requires
        plan.clears.deep_view() == seq![res, outp],
        plan.dirs.deep_view() == seq![
            res,
            outp,
            mipmap_dir(res, "mipmap-hdpi"@),
            mipmap_dir(res, "mipmap-mdpi"@),
            mipmap_dir(res, "mipmap-xhdpi"@),
            mipmap_dir(res, "mipmap-xxhdpi"@),
            mipmap_dir(res, "mipmap-xxxhdpi"@),
        ],
        plan.files@ == Seq::<(String, String)>::empty(),
        plan.icons@.len() == 5,
        plan.icons@[0].dest@ == mipmap_icon(res, "mipmap-hdpi"@),
        plan.icons@[1].dest@ == mipmap_icon(res, "mipmap-mdpi"@),
        plan.icons@[2].dest@ == mipmap_icon(res, "mipmap-xhdpi"@),
        plan.icons@[3].dest@ == mipmap_icon(res, "mipmap-xxhdpi"@),
        plan.icons@[4].dest@ == mipmap_icon(res, "mipmap-xxxhdpi"@),
    ensures
        plan.wf(),
{
    let paths = plan.planned_paths();
    assert(plan.clears.deep_view().len() == 2);
    assert(plan.clears@.len() == 2);
    assert(plan.clears@[0]@ == plan.clears.deep_view()[0]);
    assert(plan.clears@[1]@ == plan.clears.deep_view()[1]);
    assert(plan.dirs.deep_view().len() == 7);
    assert(plan.dirs@.len() == 7);
    assert forall|k: int| 0 <= k < 7 implies (#[trigger] plan.dirs@[k])@ == plan.dirs.deep_view()[k]
        by {}
    assert(paths.len() == 12);
    assert(res.is_prefix_of(res)) by {
        assert(res =~= res.subrange(0, res.len() as int));
    }
    assert(outp.is_prefix_of(outp)) by {
        assert(outp =~= outp.subrange(0, outp.len() as int));
    }
    lemma_prefix_of_concat(res, "/"@ + "mipmap-hdpi"@);
    lemma_prefix_of_concat(res, "/"@ + "mipmap-mdpi"@);
    lemma_prefix_of_concat(res, "/"@ + "mipmap-xhdpi"@);
    lemma_prefix_of_concat(res, "/"@ + "mipmap-xxhdpi"@);
    lemma_prefix_of_concat(res, "/"@ + "mipmap-xxxhdpi"@);
    lemma_prefix_of_concat(res, "/"@ + "mipmap-hdpi"@ + "/"@ + "ic_launcher.png"@);
    lemma_prefix_of_concat(res, "/"@ + "mipmap-mdpi"@ + "/"@ + "ic_launcher.png"@);
    lemma_prefix_of_concat(res, "/"@ + "mipmap-xhdpi"@ + "/"@ + "ic_launcher.png"@);
    lemma_prefix_of_concat(res, "/"@ + "mipmap-xxhdpi"@ + "/"@ + "ic_launcher.png"@);
    lemma_prefix_of_concat(res, "/"@ + "mipmap-xxxhdpi"@ + "/"@ + "ic_launcher.png"@);
    assert forall|i: int| 0 <= i < paths.len() implies under_any(
        plan.clears@,
        #[trigger] paths[i]@,
    ) by {
        assert(plan.clears@[0]@ == res);
        assert(plan.clears@[1]@ == outp);
        if i < 7 {
            assert(paths[i] == plan.dirs@[i]);
        } else {
            assert(paths[i] == plan.icons@.map_values(|j2: IconJob| j2.dest)[i - 7]);
            assert(paths[i] == plan.icons@[i - 7].dest);
        }
        if i == 0 || i >= 2 {
            assert(mipmap_dir(res, "mipmap-hdpi"@) =~= res + ("/"@ + "mipmap-hdpi"@));
            assert(mipmap_dir(res, "mipmap-mdpi"@) =~= res + ("/"@ + "mipmap-mdpi"@));
            assert(mipmap_dir(res, "mipmap-xhdpi"@) =~= res + ("/"@ + "mipmap-xhdpi"@));
            assert(mipmap_dir(res, "mipmap-xxhdpi"@) =~= res + ("/"@ + "mipmap-xxhdpi"@));
            assert(mipmap_dir(res, "mipmap-xxxhdpi"@) =~= res + ("/"@ + "mipmap-xxxhdpi"@));
            assert(mipmap_icon(res, "mipmap-hdpi"@) =~= res + ("/"@ + "mipmap-hdpi"@ + "/"@
                + "ic_launcher.png"@));
            assert(mipmap_icon(res, "mipmap-mdpi"@) =~= res + ("/"@ + "mipmap-mdpi"@ + "/"@
                + "ic_launcher.png"@));
            assert(mipmap_icon(res, "mipmap-xhdpi"@) =~= res + ("/"@ + "mipmap-xhdpi"@ + "/"@
                + "ic_launcher.png"@));
            assert(mipmap_icon(res, "mipmap-xxhdpi"@) =~= res + ("/"@ + "mipmap-xxhdpi"@ + "/"@
                + "ic_launcher.png"@));
            assert(mipmap_icon(res, "mipmap-xxxhdpi"@) =~= res + ("/"@ + "mipmap-xxxhdpi"@ + "/"@
                + "ic_launcher.png"@));
            assert(res.is_prefix_of(paths[i]@));
        } else {
            assert(outp.is_prefix_of(paths[i]@));
        }
    }
}

/// The cargo flag a build profile adds.
pub open spec fn release_flag(release: bool) -> Seq<char> {
    if release {
        "--release"@
    } else {
        Seq::empty()
    }
}

/// The NDK linker binary for a target at an API level: the target triple
/// with the API level and a compiler suffix, except for the 32-bit ARM
/// triple, whose linker carries a `v7a` name.
pub open spec fn linker_name_spec(target: Seq<char>, api: Seq<char>) -> Seq<char> {
    if target == "armv7-linux-androideabi"@ {
        "armv7a-linux-androideabi"@ + api + "-clang"@
    } else {
        target + api + "-clang"@
    }
}

impl AndroidBuilder {
    /// The NDK linker binary name for this build's target, at the
    /// manifest's minimum SDK version.
    pub fn linker_name(&self) -> (r: String)
        ensures
            r@ == linker_name_spec(self.target@, dec_str(self.manifest.min_sdk_version as int)),
    {
        let api = dec_string(self.manifest.min_sdk_version as u64);
        let mut out: String;
        if str_eq(self.target.as_str(), "armv7-linux-androideabi") {
            out = String::from_str("armv7a-linux-androideabi");
        } else {
            out = String::from_str(self.target.as_str());
        }
        out.append(api.as_str());
        out.append("-clang");
        out
    }

    /// The path of the NDK linker for the given host-platform toolchain
    /// directory.
    pub fn linker_path(&self, host_platform: &str) -> (r: String)
        ensures
            r@ == self.ndk_path@ + "/"@ + "toolchains/llvm/prebuilt"@ + "/"@ + host_platform@
                + "/"@ + "bin"@ + "/"@ + linker_name_spec(
                self.target@,
                dec_str(self.manifest.min_sdk_version as int),
            ),
    {
        let mut out = String::from_str(self.ndk_path.as_str());
        out.append("/");
        out.append("toolchains/llvm/prebuilt");
        out.append("/");
        out.append(host_platform);
        out.append("/");
        out.append("bin");
        out.append("/");
        let name = self.linker_name();
        out.append(name.as_str());
        out
    }

    /// The path of the NDK archiver for the given host-platform
    /// toolchain directory.
    pub fn ar_path(&self, host_platform: &str) -> (r: String)
        ensures
            r@ == self.ndk_path@ + "/"@ + "toolchains/llvm/prebuilt"@ + "/"@ + host_platform@
                + "/"@ + "bin"@ + "/"@ + "llvm-ar"@,
    {
        let mut out = String::from_str(self.ndk_path.as_str());
        out.append("/");
        out.append("toolchains/llvm/prebuilt");
        out.append("/");
        out.append(host_platform);
        out.append("/");
        out.append("bin");
        out.append("/");
        out.append("llvm-ar");
        out
    }

    /// The cargo environment variable that selects the linker for this
    /// build's target.
    pub fn linker_env_key(&self) -> (r: String)
        ensures
            r@ == "CARGO_TARGET_"@ + self.target@.map_values(|c: char| env_key_char(c))
                + "_LINKER"@,
    {
        let mut out = String::from_str("CARGO_TARGET_");
        let part = to_env_key_part(self.target.as_str());
        out.append(part.as_str());
        out.append("_LINKER");
        out
    }

    /// The cargo environment variable that selects the archiver for this
    /// build's target.
    pub fn ar_env_key(&self) -> (r: String)
        ensures
            r@ == "CARGO_TARGET_"@ + self.target@.map_values(|c: char| env_key_char(c)) + "_AR"@,
    {
        let mut out = String::from_str("CARGO_TARGET_");
        let part = to_env_key_part(self.target.as_str());
        out.append(part.as_str());
        out.append("_AR");
        out
    }

    /// The cargo invocation that builds the project as a native library
    /// for this build's target.
    pub fn build_so_command(&self) -> (r: String)
        ensures
            r@ == "cargo build --target "@ + self.target@ + "  "@ + release_flag(self.release)
                + " --lib"@,
    {
        let mut out = String::from_str("cargo build --target ");
        out.append(self.target.as_str());
        out.append("  ");
        if self.release {
            out.append("--release");
        }
        out.append(" --lib");
        proof {
            assert(out@ =~= "cargo build --target "@ + self.target@ + "  "@ + release_flag(
                self.release,
            ) + " --lib"@);
        }
        out
    }

    /// Where the compiled resource archive is written.
    pub fn compiled_resources_path(&self) -> (r: String)
        ensures
            r@ == self.build_path@ + "/"@ + "compiled_resources.zip"@,
    {
        path_join(self.build_path.as_str(), "compiled_resources.zip")
    }

    /// The path of the resource compiler in the SDK's build tools.
    pub fn aapt2_path(&self) -> (r: String)
        ensures
            r@ == self.sdk_path@ + "/"@ + "build-tools/"@ + self.build_tools_version@ + "/aapt2"@,
    {
        let mut out = String::from_str(self.sdk_path.as_str());
        out.append("/");
        out.append("build-tools/");
        out.append(self.build_tools_version.as_str());
        out.append("/aapt2");
        out
    }

    /// The command that compiles the resource directory into the
    /// compiled resource archive.
    pub fn compile_resources_command(&self) -> (r: String)
        ensures
            r@ == self.sdk_path@ + "/"@ + "build-tools/"@ + self.build_tools_version@ + "/aapt2"@
                + " compile --dir "@ + self.resources@ + " -o "@ + self.build_path@ + "/"@
                + "compiled_resources.zip"@,
    {
        let mut out = self.aapt2_path();
        out.append(" compile --dir ");
        out.append(self.resources.as_str());
        out.append(" -o ");
        let compiled = self.compiled_resources_path();
        out.append(compiled.as_str());
        out
    }

    /// The platform jar the manifest is linked against, at the
    /// manifest's target SDK version.
    pub fn android_jar_path(&self) -> (r: String)
        ensures
            r@ == self.sdk_path@ + "/"@ + "platforms/android-"@ + dec_str(
                self.manifest.target_sdk_version as int,
            ) + "/android.jar"@,
    {
        let mut out = String::from_str(self.sdk_path.as_str());
        out.append("/");
        out.append("platforms/android-");
        push_dec(&mut out, self.manifest.target_sdk_version as u64);
        out.append("/android.jar");
        out
    }

    /// Where the base module of the bundle is assembled.
    pub fn base_dir(&self) -> (r: String)
        ensures
            r@ == self.build_path@ + "/"@ + "base"@,
    {
        path_join(self.build_path.as_str(), "base")
    }

    /// The command that links the manifest and the compiled resources
    /// into the base module; the resource archive is named only when it
    /// exists.
    pub fn link_command(&self, base_dir: &str, compiled_res: &str, compiled_exists: bool) -> (r:
        String)
        ensures
            r@ == self.sdk_path@ + "/"@ + "build-tools/"@ + self.build_tools_version@ + "/aapt2"@
                + " link --proto-format --output-to-dir -o "@ + base_dir@ + " --manifest "@
                + self.manifest_path@ + " -I "@ + self.sdk_path@ + "/"@ + "platforms/android-"@
                + dec_str(self.manifest.target_sdk_version as int) + "/android.jar"@ + " "@ + (
            if compiled_exists {
                " "@ + compiled_res@
            } else {
                Seq::empty()
            }),
    {
        let mut out = self.aapt2_path();
        out.append(" link --proto-format --output-to-dir -o ");
        out.append(base_dir);
        out.append(" --manifest ");
        out.append(self.manifest_path.as_str());
        out.append(" -I ");
        let jar = self.android_jar_path();
        out.append(jar.as_str());
        out.append(" ");
        if compiled_exists {
            out.append(" ");
            out.append(compiled_res);
        }
        proof {
            assert(out@ =~= self.sdk_path@ + "/"@ + "build-tools/"@ + self.build_tools_version@
                + "/aapt2"@ + " link --proto-format --output-to-dir -o "@ + base_dir@
                + " --manifest "@ + self.manifest_path@ + " -I "@ + self.sdk_path@ + "/"@
                + "platforms/android-"@ + dec_str(self.manifest.target_sdk_version as int)
                + "/android.jar"@ + " "@ + (if compiled_exists {
                " "@ + compiled_res@
            } else {
                Seq::empty()
            }));
        }
        out
    }

    /// The application binary interface directory name for a target
    /// triple, or the unsupported-target error for any other triple.
    pub fn abi_for_target(target: &str) -> (r: Result<&'static str, PistonError>)
        ensures
            r is Ok <==> target@ == "aarch64-linux-android"@,
            r matches Ok(v) ==> v@ == "arm64-v8a"@,
            r matches Err(e) ==> e matches PistonError::UnsupportedTargetError(m) && m@
                == "Unsupported target "@ + target@,
    {
        if str_eq(target, "aarch64-linux-android") {
            Ok("arm64-v8a")
        } else {
            let mut msg = String::from_str("Unsupported target ");
            msg.append(target);
            Err(PistonError::UnsupportedTargetError(msg))
        }
    }

    /// The file name of the native library the build produces.
    pub fn lib_file(&self) -> (r: String)
        ensures
            r@ == "lib"@ + self.lib_name@ + ".so"@,
    {
        let mut out = String::from_str("lib");
        out.append(self.lib_name.as_str());
        out.append(".so");
        out
    }

    /// Where cargo leaves the native library for this build's target and
    /// profile.
    pub fn so_path(&self) -> (r: String)
        ensures
            r@ == self.cwd@ + "/"@ + "target"@ + "/"@ + self.target@ + "/"@ + release_dir(
                self.release,
            ) + "/"@ + "lib"@ + self.lib_name@ + ".so"@,
    {
        let mut out = String::from_str(self.cwd.as_str());
        out.append("/");
        out.append("target");
        out.append("/");
        out.append(self.target.as_str());
        out.append("/");
        out.append(release_dir_name(self.release));
        out.append("/");
        let lib = self.lib_file();
        out.append(lib.as_str());
        proof {
            assert(out@ =~= self.cwd@ + "/"@ + "target"@ + "/"@ + self.target@ + "/"@ + release_dir(
                self.release,
            ) + "/"@ + "lib"@ + self.lib_name@ + ".so"@);
        }
        out
    }

    /// Where the zipped base module is written.
    pub fn base_zip_path(&self) -> (r: String)
        ensures
            r@ == self.build_path@ + "/"@ + "base.zip"@,
    {
        path_join(self.build_path.as_str(), "base.zip")
    }

    /// The command that zips the base module's contents into the base
    /// archive.
    pub fn zip_base_command(&self, base_dir: &str) -> (r: String)
        ensures
            r@ == "cd "@ + base_dir@ + " && zip -r ../base.zip *"@,
    {
        let mut out = String::from_str("cd ");
        out.append(base_dir);
        out.append(" && zip -r ../base.zip *");
        out
    }

    /// Where the finished application bundle is written.
    pub fn aab_path(&self) -> (r: String)
        ensures
            r@ == self.build_path@ + "/"@ + self.app_name@ + ".aab"@,
    {
        let mut out = String::from_str(self.build_path.as_str());
        out.append("/");
        out.append(self.app_name.as_str());
        out.append(".aab");
        out
    }

    /// The command that packs the zipped base module into the
    /// application bundle.
    pub fn build_bundle_command(&self, base_zip: &str, aab_path: &str) -> (r: String)
        ensures
            r@ == "java -jar "@ + self.bundletool_path@ + " build-bundle --modules="@ + base_zip@
                + " --output="@ + aab_path@,
    {
        let mut out = String::from_str("java -jar ");
        out.append(self.bundletool_path.as_str());
        out.append(" build-bundle --modules=");
        out.append(base_zip);
        out.append(" --output=");
        out.append(aab_path);
        out
    }
}

/// Whether two optional strings hold the same text.
pub open spec fn option_str_eq(a: Option<String>, b: Option<String>) -> bool {
    match (a, b) {
        (Some(x), Some(y)) => x@ == y@,
        (None, None) => true,
        _ => false,
    }
}

/// Whether two packages carry the same values in every field the
/// manifest is derived from.
pub open spec fn manifest_inputs_eq(a: PackageMeta, b: PackageMeta) -> bool {
    &&& a.name@ == b.name@
    &&& option_str_eq(a.android.package, b.android.package)
    &&& a.android.version_code == b.android.version_code
    &&& option_str_eq(a.android.version_name, b.android.version_name)
    &&& a.android.min_sdk_version == b.android.min_sdk_version
    &&& a.android.target_sdk_version == b.android.target_sdk_version
    &&& option_str_eq(a.android.label, b.android.label)
}

/// Manifest generation is deterministic: manifests derived from
/// identical metadata values and the same application name serialize to
/// byte-identical XML documents.
pub proof fn lemma_manifest_generation_deterministic(
    a: AndroidManifest,
    b: AndroidManifest,
    pa: PackageMeta,
    pb: PackageMeta,
    app_name: Seq<char>,
)
    requires
        manifest_matches(a, pa, app_name),
        manifest_matches(b, pb, app_name),
        manifest_inputs_eq(pa, pb),
    ensures
        manifest_xml(a) == manifest_xml(b),
{
}

/// Manifest serialization is deterministic: two manifests whose fields
/// hold the same values serialize to the same XML document.
pub proof fn lemma_manifest_xml_deterministic(a: AndroidManifest, b: AndroidManifest)
    requires
        a.package@ == b.package@,
        a.version_code == b.version_code,
        a.version_name@ == b.version_name@,
        a.min_sdk_version == b.min_sdk_version,
        a.target_sdk_version == b.target_sdk_version,
        a.app_label@ == b.app_label@,
        a.app_name@ == b.app_name@,
        a.icon@ == b.icon@,
    ensures
        manifest_xml(a) == manifest_xml(b),
{
}

} // verus!
