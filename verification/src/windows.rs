//! The Windows build pipeline: output-directory scaffolding, the
//! resource-script file, the optional icon embedding, and the paths the
//! finished binary moves along.

use vstd::prelude::*;
use vstd::pervasive::unreached;
use vstd::string::StringExecFns;
use crate::android::release_dir;
use crate::android::release_dir_name;
use crate::android::release_flag;
use crate::error::PistonError;
use crate::helper::Helper;
use crate::metadata::ProjectMetadata;
use crate::scaffold::IconJob;
use crate::scaffold::ScaffoldPlan;
use crate::scaffold::under_any;

verus! {

/// The output directory of a Windows build, relative to the working
/// directory.
pub open spec fn windows_rel_output(release: bool) -> Seq<char> {
    if release {
        "target/release/windows"@
    } else {
        "target/debug/windows"@
    }
}

/// The icon file referenced from the resource script, relative to the
/// working directory.
pub open spec fn windows_rc_icon(release: bool) -> Seq<char> {
    windows_rel_output(release) + "/"@ + "windows_icon.ico"@
}

/// The content of the generated resource script: it names the icon file.
pub open spec fn rc_content_spec(release: bool) -> Seq<char> {
    "IDI_ICON1 ICON \""@ + windows_rc_icon(release) + "\""@
}

/// The generated build script that embeds the resource script, named by
/// its path and the icon file it tests for. Its fixed template is
/// supplied by the front end that writes it.
pub struct WindowsBuildScript {
    pub path: String,
    pub icon_output: String,
}

/// Everything the Windows pre-build step performs: the output-directory
/// scaffolding (with the resource script and, when an icon is embedded,
/// the resized icon), and the build script to generate in the working
/// directory.
pub struct WindowsPrebuild {
    pub plan: ScaffoldPlan,
    pub build_script: Option<WindowsBuildScript>,
}

/// Builds a Windows application bundle: scaffolds the output directory,
/// writes the resource script, optionally embeds an icon, builds with
/// cargo and copies the binary into the bundle. The file-system and
/// process work is carried out by a front end following the paths and
/// commands computed here.
pub struct WindowsBuilder {
    pub release: bool,
    pub target: String,
    pub cwd: String,
    pub output_path: Option<String>,
    pub icon_path: Option<String>,
    pub embed_resources_ok: bool,
    pub cargo_path: String,
    pub app_name: Option<String>,
}

impl WindowsBuilder {
    /// Gathers what a Windows build needs from the project metadata:
    /// the package name, the icon path, and whether the resource
    /// embedder is declared as a build dependency. Fails exactly when
    /// the metadata has no root package.
    pub fn new(
        release: bool,
        target: String,
        cwd: String,
        cargo_path: String,
        metadata: &ProjectMetadata,
    ) -> (r: Result<WindowsBuilder, PistonError>)
        ensures
            r is Ok <==> metadata.root is Some,
            r matches Ok(b) ==> {
                let pkg = metadata.root->0;
                &&& b.release == release
                &&& b.target@ == target@
                &&& b.cwd@ == cwd@
                &&& b.output_path is None
                &&& (match pkg.icon_path {
                    Some(p) => b.icon_path matches Some(q) && q@ == p@,
                    None => b.icon_path is None,
                })
                &&& b.embed_resources_ok == pkg.embed_resources_ok
                &&& b.cargo_path@ == cargo_path@
                &&& b.app_name matches Some(n) && n@ == pkg.name@
            },
            r matches Err(e) ==> e matches PistonError::CargoParseError(_),
    {
        let embed_resources_ok = match &metadata.root {
            Some(pkg) => pkg.embed_resources_ok,
            None => false,
        };
        let icon_path = Helper::get_icon_path(metadata);
        let app_name = match Helper::get_app_name(metadata) {
            Ok(n) => n,
            Err(e) => {
                return Err(e);
            },
        };
        Ok(
            WindowsBuilder {
                release,
                target,
                cwd,
                output_path: None,
                icon_path,
                embed_resources_ok,
                cargo_path,
                app_name: Some(app_name),
            },
        )
    }

    /// The Windows pre-build step: the output directory is cleared and
    /// recreated, the resource script is written into it, and when an
    /// icon path is configured and the resource embedder is available,
    /// the icon is resized into the output directory and a build script
    /// is generated in the working directory. Also records the output
    /// path on the builder.
    pub fn pre_build(&mut self) -> (r: WindowsPrebuild)
        ensures
            final(self).output_path matches Some(p) && p@ == old(self).cwd@ + "/"@
                + windows_rel_output(old(self).release),
            final(self).release == old(self).release,
            final(self).target == old(self).target,
            final(self).cwd == old(self).cwd,
            final(self).icon_path == old(self).icon_path,
            final(self).embed_resources_ok == old(self).embed_resources_ok,
            final(self).cargo_path == old(self).cargo_path,
            final(self).app_name == old(self).app_name,
            r.plan.wf(),
            r.plan.clears.deep_view() == seq![
                old(self).cwd@ + "/"@ + windows_rel_output(old(self).release),
            ],
            r.plan.dirs.deep_view() == seq![
                old(self).cwd@ + "/"@ + windows_rel_output(old(self).release),
            ],
            r.plan.files@.len() == 1,
            r.plan.files@[0].0@ == old(self).cwd@ + "/"@ + windows_rel_output(old(self).release)
                + "/"@ + "app.rc"@,
            r.plan.files@[0].1@ == rc_content_spec(old(self).release),
            (old(self).icon_path is Some && old(self).embed_resources_ok) ==> {
                &&& r.plan.icons@.len() == 1
                &&& r.plan.icons@[0].source@ == old(self).icon_path->0@
                &&& r.plan.icons@[0].dest@ == old(self).cwd@ + "/"@ + windows_rc_icon(
                    old(self).release,
                )
                &&& r.plan.icons@[0].width == 64u32
                &&& r.plan.icons@[0].height == 64u32
                &&& r.build_script matches Some(bs) && bs.path@ == old(self).cwd@ + "/"@
                    + "build.rs"@ && bs.icon_output@ == old(self).cwd@ + "/"@ + windows_rc_icon(
                    old(self).release,
                )
            },
            !(old(self).icon_path is Some && old(self).embed_resources_ok) ==> {
                &&& r.plan.icons@.len() == 0
                &&& r.build_script is None
            },
    {
        let rel: &'static str = if self.release {
            "target/release/windows"
        } else {
            "target/debug/windows"
        };
        let mut output = String::from_str(self.cwd.as_str());
        output.append("/");
        output.append(rel);
        let mut rc_path = String::from_str(output.as_str());
        rc_path.append("/");
        rc_path.append("app.rc");
        let mut rc_icon = String::from_str(rel);
        rc_icon.append("/");
        rc_icon.append("windows_icon.ico");
        let mut rc_content = String::from_str("IDI_ICON1 ICON \"");
        rc_content.append(rc_icon.as_str());
        rc_content.append("\"");
        let mut clears: Vec<String> = Vec::new();
        clears.push(output.clone());
        let mut dirs: Vec<String> = Vec::new();
        dirs.push(output.clone());
        let mut files: Vec<(String, String)> = Vec::new();
        files.push((rc_path, rc_content));
        let mut icons: Vec<IconJob> = Vec::new();
        let mut build_script: Option<WindowsBuildScript> = None;
        let embed = match &self.icon_path {
            Some(icon) => {
                if self.embed_resources_ok {
                    Some(icon.clone())
                } else {
                    None
                }
            },
            None => None,
        };
        match embed {
            Some(icon) => {
                let mut icon_output = String::from_str(self.cwd.as_str());
                icon_output.append("/");
                icon_output.append(rc_icon.as_str());
                icons.push(
                    IconJob { source: icon, dest: icon_output.clone(), width: 64, height: 64 },
                );
                let mut script_path = String::from_str(self.cwd.as_str());
                script_path.append("/");
                script_path.append("build.rs");
                build_script = Some(
                    WindowsBuildScript { path: script_path, icon_output },
                );
            },
            None => (),
        }
        let plan = ScaffoldPlan { clears, dirs, files, icons };
        proof {
            let outp = self.cwd@ + "/"@ + windows_rel_output(self.release);
            assert(plan.clears.deep_view() =~= seq![outp]);
            assert(plan.dirs.deep_view() =~= seq![outp]);
            assert(plan.files@[0].0@ =~= outp + "/"@ + "app.rc"@);
            if self.icon_path is Some && self.embed_resources_ok {
                assert(plan.icons@[0].dest@ =~= self.cwd@ + "/"@ + windows_rc_icon(self.release));
                assert(plan.icons@[0].dest@ =~= outp + "/"@ + "windows_icon.ico"@);
            }
            lemma_windows_plan_wf(plan, outp);
        }
        self.output_path = Some(output);
        WindowsPrebuild { plan, build_script }
    }

    /// The cargo command that builds the binary for this build's target.
    pub fn build_command(&self) -> (r: String)
        ensures
            r@ == self.cargo_path@ + " "@ + "build --target "@ + self.target@ + " "@ + release_flag(
                self.release,
            ),
    {
        let mut out = String::from_str(self.cargo_path.as_str());
        out.append(" ");
        out.append("build --target ");
        out.append(self.target.as_str());
        out.append(" ");
        if self.release {
            out.append("--release");
        }
        proof {
            assert(out@ =~= self.cargo_path@ + " "@ + "build --target "@ + self.target@ + " "@
                + release_flag(self.release));
        }
        out
    }

    /// Where cargo leaves the binary and where the bundle wants it: the
    /// post-build step copies the first to the second.
    pub fn post_build_paths(&self) -> (r: (String, String))
        requires
            self.output_path is Some,
            self.app_name is Some,
        ensures
            r.0@ == self.cwd@ + "/"@ + "target"@ + "/"@ + self.target@ + "/"@ + release_dir(
                self.release,
            ) + "/"@ + self.app_name->0@ + ".exe"@,
            r.1@ == self.output_path->0@ + "/"@ + self.app_name->0@ + ".exe"@,
    {
        let name: &String = match &self.app_name {
            Some(n) => n,
            None => {
                unreached()
            },
        };
        let mut binary = String::from_str(self.cwd.as_str());
        binary.append("/");
        binary.append("target");
        binary.append("/");
        binary.append(self.target.as_str());
        binary.append("/");
        binary.append(release_dir_name(self.release));
        binary.append("/");
        binary.append(name.as_str());
        binary.append(".exe");
        let outp: &String = match &self.output_path {
            Some(p) => p,
            None => {
                unreached()
            },
        };
        let mut bundle = String::from_str(outp.as_str());
        bundle.append("/");
        bundle.append(name.as_str());
        bundle.append(".exe");
        (binary, bundle)
    }
}

proof fn lemma_windows_plan_wf(plan: ScaffoldPlan, outp: Seq<char>)
    requires
        plan.clears.deep_view() == seq![outp],
        plan.dirs.deep_view() == seq![outp],
        plan.files@.len() == 1,
        plan.files@[0].0@ == outp + "/"@ + "app.rc"@,
        plan.icons@.len() <= 1,
        plan.icons@.len() == 1 ==> plan.icons@[0].dest@ == outp + "/"@ + "windows_icon.ico"@,
    ensures
        plan.wf(),
{
    let paths = plan.planned_paths();
    assert(plan.clears.deep_view().len() == 1);
    assert(plan.clears@.len() == 1);
    assert(plan.clears@[0]@ == plan.clears.deep_view()[0]);
    assert(plan.dirs.deep_view().len() == 1);
    assert(plan.dirs@.len() == 1);
    assert(plan.dirs@[0]@ == plan.dirs.deep_view()[0]);
    assert(outp.is_prefix_of(outp)) by {
        assert(outp =~= outp.subrange(0, outp.len() as int));
    }
    assert(outp.is_prefix_of(outp + ("/"@ + "app.rc"@))) by {
        assert(outp =~= (outp + ("/"@ + "app.rc"@)).subrange(0, outp.len() as int));
    }
    assert(outp.is_prefix_of(outp + ("/"@ + "windows_icon.ico"@))) by {
        assert(outp =~= (outp + ("/"@ + "windows_icon.ico"@)).subrange(0, outp.len() as int));
    }
    assert forall|i: int| 0 <= i < paths.len() implies under_any(
        plan.clears@,
        #[trigger] paths[i]@,
    ) by {
        if i == 0 {
            assert(paths[i] == plan.dirs@[0]);
        } else if i == 1 {
            assert(paths[i] == plan.files@.map_values(|f: (String, String)| f.0)[0]);
            assert(paths[i] == plan.files@[0].0);
            assert(outp + "/"@ + "app.rc"@ =~= outp + ("/"@ + "app.rc"@));
        } else {
            assert(paths[i] == plan.icons@.map_values(|j2: IconJob| j2.dest)[i - 2]);
            assert(paths[i] == plan.icons@[0].dest);
            assert(outp + "/"@ + "windows_icon.ico"@ =~= outp + ("/"@ + "windows_icon.ico"@));
        }
        assert(outp.is_prefix_of(paths[i]@));
    }
}

} // verus!
