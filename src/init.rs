//! The decisions of `init`: binding the settings to a project directory,
//! laying out its build and install directories, and the entrypoint script.

use vstd::prelude::*;
use crate::errors::RuntimeErrors;
use crate::settings::Settings;
use crate::text::{is_windows, join_path, joined, same_text, windows_os};

verus! {

/// The name of the build directory on a platform.
pub open spec fn build_dir_name(windows: bool) -> Seq<char> {
    if windows {
        "Build"@
    } else {
        "build"@
    }
}

/// The name of the install directory on a platform.
pub open spec fn install_dir_name(windows: bool) -> Seq<char> {
    if windows {
        "Install"@
    } else {
        "install"@
    }
}

/// The install descriptor's place in a project: `<working_dir>/cpm_install.json`.
pub open spec fn descriptor_path_of(s: Settings) -> Seq<char> {
    joined(s.working_dir@, "cpm_install.json"@, is_windows(s.os@))
}

/// The entrypoint script of a platform: its path and its text, which runs
/// the executable with `--no-init` and the script's arguments.
pub open spec fn entrypoint_of(s: Settings) -> Option<(Seq<char>, Seq<char>)> {
    if s.os@ == "linux"@ {
        Some(
            (
                joined(s.working_dir@, "cpm.sh"@, false),
                "#!/bin/bash\n"@ + s.exe_path@ + " --no-init $@"@,
            ),
        )
    } else if s.os@ == "windows"@ {
        Some(
            (
                joined(s.working_dir@, "cpm.bat"@, true),
                "@echo off\n"@ + s.exe_path@ + " --no-init %*"@,
            ),
        )
    } else {
        None
    }
}

/// Whether the settings are bound to a project: its directories are known
/// and none of them is the executable's own directory.
pub open spec fn project_bound(s: Settings) -> bool {
    &&& !missing_dir(s)
    &&& s.working_dir@ != s.exe_dir@
    &&& s.build_dir@ != s.exe_dir@
    &&& s.install_dir@ != s.exe_dir@
}

/// Whether one of the project's directories is not known.
pub open spec fn missing_dir(s: Settings) -> bool {
    s.working_dir@.len() == 0 || s.build_dir@.len() == 0 || s.install_dir@.len() == 0
}

impl Settings {
    /// Binds the settings to a working directory, which must not be the
    /// executable's own directory.
    pub fn set_working_dir(&mut self, working_dir: String) -> (r: Result<(), RuntimeErrors>)
        ensures
            working_dir@ == old(self).exe_dir@ ==> (r matches Err(
                RuntimeErrors::WorkingDirSameAsExePath(w, x),
            ) && w@ == working_dir@ && x@ == old(self).exe_dir@) && *final(self) == *old(self),
            working_dir@ != old(self).exe_dir@ ==> (r is Ok) && *final(self) == (Settings {
                working_dir,
                ..*old(self)
            }),
    {
        if same_text(working_dir.as_str(), self.exe_dir.as_str()) {
            Err(RuntimeErrors::WorkingDirSameAsExePath(working_dir, self.exe_dir.clone()))
        } else {
            self.working_dir = working_dir;
            Ok(())
        }
    }

    /// Places the build directory in the working directory.
    pub fn set_build_dir(&mut self)
        ensures
            *final(self) == (Settings { build_dir: final(self).build_dir, ..*old(self) }),
            final(self).build_dir@ == joined(
                old(self).working_dir@,
                build_dir_name(is_windows(old(self).os@)),
                is_windows(old(self).os@),
            ),
    {
        let w = windows_os(self.os.as_str());
        let name = if w {
            "Build"
        } else {
            "build"
        };
        self.build_dir = join_path(self.working_dir.as_str(), name, w);
    }

    /// Places the install directory in the working directory.
    pub fn set_install_dir(&mut self)
        ensures
            *final(self) == (Settings { install_dir: final(self).install_dir, ..*old(self) }),
            final(self).install_dir@ == joined(
                old(self).working_dir@,
                install_dir_name(is_windows(old(self).os@)),
                is_windows(old(self).os@),
            ),
    {
        let w = windows_os(self.os.as_str());
        let name = if w {
            "Install"
        } else {
            "install"
        };
        self.install_dir = join_path(self.working_dir.as_str(), name, w);
    }

    /// Where the project's install descriptor is looked for.
    pub fn descriptor_path(&self) -> (r: String)
        ensures
            r@ == descriptor_path_of(*self),
    {
        let w = windows_os(self.os.as_str());
        join_path(self.working_dir.as_str(), "cpm_install.json", w)
    }

    /// The entrypoint script to write into the project, on a platform that
    /// has one.
    pub fn entrypoint(&self) -> (r: Result<(String, String), RuntimeErrors>)
        ensures
            match entrypoint_of(*self) {
                Some(e) => (r matches Ok((p, t)) && p@ == e.0 && t@ == e.1),
                None => (r matches Err(RuntimeErrors::NotSupportedOS(Some(m))) && m@ == self.os@),
            },
    {
        if same_text(self.os.as_str(), "linux") {
            let path = join_path(self.working_dir.as_str(), "cpm.sh", false);
            let mut t = String::from_str("#!/bin/bash\n");
            t.append(self.exe_path.as_str());
            t.append(" --no-init $@");
            Ok((path, t))
        } else if same_text(self.os.as_str(), "windows") {
            let path = join_path(self.working_dir.as_str(), "cpm.bat", true);
            let mut t = String::from_str("@echo off\n");
            t.append(self.exe_path.as_str());
            t.append(" --no-init %*");
            Ok((path, t))
        } else {
            Err(RuntimeErrors::NotSupportedOS(Some(self.os.clone())))
        }
    }

    /// Records that `init` has completed, which it has only when the
    /// settings are bound to a project. Otherwise nothing changes: a missing
    /// directory means the project is not initialized, and a directory that
    /// is the executable's own is refused with that directory.
    pub fn mark_initialized(&mut self) -> (r: Result<(), RuntimeErrors>)
        ensures
            r is Ok <==> project_bound(*old(self)),
            r is Ok ==> *final(self) == (Settings { initialized: true, ..*old(self) }),
            r is Ok ==> final(self).initialized && project_bound(*final(self)),
            r is Err ==> *final(self) == *old(self),
            r matches Err(e) ==> if missing_dir(*old(self)) {
                e matches RuntimeErrors::ProjectNotInitialized
            } else {
                e matches RuntimeErrors::WorkingDirSameAsExePath(d, x) && d@ == old(self).exe_dir@
                    && x@ == old(self).exe_dir@
            },
    {
        if self.working_dir.as_str().unicode_len() == 0 || self.build_dir.as_str().unicode_len()
            == 0 || self.install_dir.as_str().unicode_len() == 0 {
            return Err(RuntimeErrors::ProjectNotInitialized);
        }
        let exe = self.exe_dir.as_str();
        if same_text(self.working_dir.as_str(), exe) {
            return Err(
                RuntimeErrors::WorkingDirSameAsExePath(self.working_dir.clone(), self.exe_dir.clone()),
            );
        }
        if same_text(self.build_dir.as_str(), exe) {
            return Err(
                RuntimeErrors::WorkingDirSameAsExePath(self.build_dir.clone(), self.exe_dir.clone()),
            );
        }
        if same_text(self.install_dir.as_str(), exe) {
            return Err(
                RuntimeErrors::WorkingDirSameAsExePath(
                    self.install_dir.clone(),
                    self.exe_dir.clone(),
                ),
            );
        }
        self.initialized = true;
        Ok(())
    }
}

} // verus!
