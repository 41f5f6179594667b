//! The macOS build pipeline: it can only run on a macOS host, and its
//! remaining phases are placeholders.

use vstd::prelude::*;
use vstd::string::StringExecFns;
use crate::error::PistonError;
use crate::helper::EnvMap;
use crate::helper::Helper;
use crate::metadata::ProjectMetadata;
use crate::strutil::str_eq;

verus! {

/// Builds a macOS application bundle. The build phases are placeholders
/// so far; the builder gathers the package facts and the cargo path.
pub struct MacOSBuilder {
    pub release: bool,
    pub target: String,
    pub cwd: String,
    pub output_path: Option<String>,
    pub icon_path: Option<String>,
    pub cargo_path: String,
    pub app_name: Option<String>,
}

impl MacOSBuilder {
    /// A macOS bundle can only be built on a macOS host: any other host
    /// operating system is the unsupported-OS error.
    pub fn check_host(host_os: &str, target: &str) -> (r: Result<(), PistonError>)
        ensures
            r is Ok <==> host_os@ == "macos"@,
            r matches Err(e) ==> e matches PistonError::UnsupportedOSError { os, target: t } && os@
                == host_os@ && t@ == target@,
    {
        if str_eq(host_os, "macos") {
            Ok(())
        } else {
            Err(
                PistonError::UnsupportedOSError {
                    os: String::from_str(host_os),
                    target: String::from_str(target),
                },
            )
        }
    }

    /// Gathers what a macOS build needs: the cargo path from the
    /// environment map (with its default) and the package facts from the
    /// project metadata.
    pub fn new(
        release: bool,
        target: String,
        cwd: String,
        env_vars: &EnvMap,
        metadata: &ProjectMetadata,
    ) -> (r: MacOSBuilder)
        ensures
            r.release == release,
            r.target@ == target@,
            r.cwd@ == cwd@,
            r.output_path is None,
            r.cargo_path@ == (if env_vars@.contains_key("cargo_path"@) {
                env_vars@["cargo_path"@]
            } else {
                "cargo"@
            }),
            (match metadata.root {
                Some(pkg) => (match pkg.icon_path {
                    Some(p) => r.icon_path matches Some(q) && q@ == p@,
                    None => r.icon_path is None,
                }) && (r.app_name matches Some(n) && n@ == pkg.name@),
                None => r.icon_path is None && r.app_name is None,
            }),
    {
        let cargo_path: String = match env_vars.get("cargo_path") {
            Some(v) => v.clone(),
            None => String::from_str("cargo"),
        };
        let icon_path = Helper::get_icon_path(metadata);
        let app_name = match Helper::get_app_name(metadata) {
            Ok(n) => Some(n),
            Err(_) => None,
        };
        MacOSBuilder {
            release,
            target,
            cwd,
            output_path: None,
            icon_path,
            cargo_path,
            app_name,
        }
    }
}

} // verus!
