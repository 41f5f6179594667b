//! The Linux build pipeline: output-directory scaffolding and the cargo
//! (or cross-linker) invocation that builds the binary.

use vstd::prelude::*;
use vstd::string::StringExecFns;
use crate::android::release_flag;
use crate::error::PistonError;
use crate::helper::Helper;
use crate::metadata::ProjectMetadata;
use crate::scaffold::ScaffoldPlan;
use crate::scaffold::under_any;
use crate::strutil::str_eq;

verus! {

/// The output directory of a Linux build, relative to the working
/// directory.
pub open spec fn linux_rel_output(release: bool) -> Seq<char> {
    if release {
        "target/release/linux"@
    } else {
        "target/debug/linux"@
    }
}

/// Builds a Linux binary: scaffolds the output directory and invokes
/// cargo, through the cross-linker when the host is macOS. The
/// file-system and process work is carried out by a front end following
/// the paths and commands computed here.
pub struct LinuxBuilder {
    pub release: bool,
    pub target: String,
    pub cwd: String,
    pub output_path: Option<String>,
    pub icon_path: Option<String>,
    pub cargo_path: String,
    pub zigbuild_path: Option<String>,
    pub app_name: Option<String>,
}

impl LinuxBuilder {
    /// Gathers what a Linux build needs: the package facts from the
    /// project metadata, and on a macOS host the cross-linker path,
    /// whose absence is the one failure.
    pub fn new(
        release: bool,
        target: String,
        cwd: String,
        cargo_path: String,
        metadata: &ProjectMetadata,
        host_os: &str,
        zigbuild_path: Option<String>,
    ) -> (r: Result<LinuxBuilder, PistonError>)
        ensures
            r is Ok <==> !(host_os@ == "macos"@ && zigbuild_path is None),
            r matches Ok(b) ==> {
                &&& b.release == release
                &&& b.target@ == target@
                &&& b.cwd@ == cwd@
                &&& b.output_path is None
                &&& (match metadata.root {
                    Some(pkg) => (match pkg.icon_path {
                        Some(p) => b.icon_path matches Some(q) && q@ == p@,
                        None => b.icon_path is None,
                    }) && (b.app_name matches Some(n) && n@ == pkg.name@),
                    None => b.icon_path is None && b.app_name is None,
                })
                &&& b.cargo_path@ == cargo_path@
                &&& (if host_os@ == "macos"@ {
                    b.zigbuild_path == zigbuild_path
                } else {
                    b.zigbuild_path is None
                })
            },
            r matches Err(e) ==> e matches PistonError::ZigbuildMissingError(m) && m@
                == "zigbuild_path not set in the environment"@,
    {
        let icon_path = Helper::get_icon_path(metadata);
        let app_name = match Helper::get_app_name(metadata) {
            Ok(n) => Some(n),
            Err(_) => None,
        };
        let zig: Option<String>;
        if str_eq(host_os, "macos") {
            match zigbuild_path {
                Some(z) => {
                    zig = Some(z);
                },
                None => {
                    return Err(
                        PistonError::ZigbuildMissingError(
                            String::from_str("zigbuild_path not set in the environment"),
                        ),
                    );
                },
            }
        } else {
            zig = None;
        }
        Ok(
            LinuxBuilder {
                release,
                target,
                cwd,
                output_path: None,
                icon_path,
                cargo_path,
                zigbuild_path: zig,
                app_name,
            },
        )
    }

    /// The directory scaffolding of the Linux pre-build step: the output
    /// directory is cleared and recreated. Also records the output path
    /// on the builder.
    pub fn pre_build(&mut self) -> (r: ScaffoldPlan)
        ensures
            final(self).output_path matches Some(p) && p@ == old(self).cwd@ + "/"@
                + linux_rel_output(old(self).release),
            final(self).release == old(self).release,
            final(self).target == old(self).target,
            final(self).cwd == old(self).cwd,
            final(self).icon_path == old(self).icon_path,
            final(self).cargo_path == old(self).cargo_path,
            final(self).zigbuild_path == old(self).zigbuild_path,
            final(self).app_name == old(self).app_name,
            r.wf(),
            r.clears.deep_view() == seq![
                old(self).cwd@ + "/"@ + linux_rel_output(old(self).release),
            ],
            r.dirs.deep_view() == seq![old(self).cwd@ + "/"@ + linux_rel_output(old(self).release)],
            r.files@ == Seq::<(String, String)>::empty(),
            r.icons@.len() == 0,
    {
        let mut output = String::from_str(self.cwd.as_str());
        output.append("/");
        if self.release {
            output.append("target/release/linux");
        } else {
            output.append("target/debug/linux");
        }
        let mut clears: Vec<String> = Vec::new();
        clears.push(output.clone());
        let mut dirs: Vec<String> = Vec::new();
        dirs.push(output.clone());
        let plan = ScaffoldPlan { clears, dirs, files: Vec::new(), icons: Vec::new() };
        proof {
            let outp = self.cwd@ + "/"@ + linux_rel_output(self.release);
            assert(plan.clears.deep_view() =~= seq![outp]);
            assert(plan.dirs.deep_view() =~= seq![outp]);
            assert(outp.is_prefix_of(outp)) by {
                assert(outp =~= outp.subrange(0, outp.len() as int));
            }
            assert(plan.clears@[0]@ == outp);
            assert forall|i: int| 0 <= i < plan.planned_paths().len() implies under_any(
                plan.clears@,
                #[trigger] plan.planned_paths()[i]@,
            ) by {
                assert(plan.planned_paths().len() == 1);
                assert(plan.planned_paths()[0] == plan.dirs@[0]);
            }
        }
        self.output_path = Some(output);
        plan
    }

    /// The cargo arguments and full command that build the binary for
    /// this build's target; on a macOS host the command runs through the
    /// cross-linker.
    pub fn build_command(&self, macos_host: bool) -> (r: String)
        requires
            macos_host ==> self.zigbuild_path is Some,
        ensures
            ({
                let cargo_cmd = self.cargo_path@ + " "@ + "build --target "@ + self.target@ + " "@
                    + release_flag(self.release);
                if macos_host {
                    r@ == self.zigbuild_path->0@ + " "@ + cargo_cmd
                } else {
                    r@ == cargo_cmd
                }
            }),
    {
        let mut args = String::from_str("build --target ");
        args.append(self.target.as_str());
        args.append(" ");
        if self.release {
            args.append("--release");
        }
        let mut cmd = String::from_str(self.cargo_path.as_str());
        cmd.append(" ");
        cmd.append(args.as_str());
        proof {
            assert(cmd@ =~= self.cargo_path@ + " "@ + "build --target "@ + self.target@ + " "@
                + release_flag(self.release));
        }
        if macos_host {
            let mut full = match &self.zigbuild_path {
                Some(z) => z.clone(),
                None => String::new(),
            };
            full.append(" ");
            full.append(cmd.as_str());
            full
        } else {
            cmd
        }
    }
}

} // verus!
