//! The toolchain resolver and the decisions of a setup: which platform is
//! set up, how a toolchain root is found, and which CMake toolchain file it
//! provides.

use vstd::prelude::*;
use crate::errors::RuntimeErrors;
use crate::install::Config;
use crate::settings::Settings;
use crate::text::{
    file_name, file_name_of, is_windows, normalize_path_separator, normalized, same_text, sep_of,
    strip_suffix_all, stripped_suffix, trim_trailing_separators, trimmed_seps, windows_os,
};

verus! {

/// The options of a `setup` invocation.
#[derive(Debug, Clone)]
pub struct SetupArgs {
    pub toolchain: Option<String>,
    pub auto_toolchain_path: bool,
    pub no_toolchain_path: bool,
    pub use_toolchain_path: Option<String>,
    pub skip_package_configurations: bool,
    pub no_deps_check: bool,
    pub force_package_install: bool,
    pub platform: Option<String>,
}

/// The platform that a setup runs for: the one asked for, else the one the
/// tool runs on. Only Windows can be set up.
pub fn select_os(args: &SetupArgs, settings: &Settings) -> (r: Result<String, RuntimeErrors>)
    ensures
        ({
            let chosen = match args.platform {
                Some(p) => p@,
                None => settings.os@,
            };
            &&& chosen == "windows"@ ==> (r matches Ok(os) && os@ == chosen)
            &&& chosen != "windows"@ ==> (r matches Err(RuntimeErrors::NotSupportedOS(Some(m)))
                && m@ == chosen)
        }),
{
    let chosen = match &args.platform {
        Some(p) => p.clone(),
        None => settings.os.clone(),
    };
    if same_text(chosen.as_str(), "windows") {
        Ok(chosen)
    } else {
        Err(RuntimeErrors::NotSupportedOS(Some(chosen)))
    }
}

/// What a setup does after its platform is chosen.
#[derive(Debug)]
pub enum SetupAction {
    /// Cache this toolchain root and verify its toolchain file.
    UseToolchain(String),
    /// Detect the toolchain, then check and install the dependencies.
    AutoDetect,
    /// Nothing more.
    Done,
}

/// The first of the setup options that applies: an explicit toolchain root
/// (without trailing separators), then auto-detection.
pub fn setup_action(args: &SetupArgs) -> (r: SetupAction)
    ensures
        args.toolchain matches Some(t) ==> (r matches SetupAction::UseToolchain(p) && p@
            == trimmed_seps(t@)),
        args.toolchain is None && args.auto_toolchain_path ==> r matches SetupAction::AutoDetect,
        args.toolchain is None && !args.auto_toolchain_path ==> r matches SetupAction::Done,
{
    match &args.toolchain {
        Some(t) => SetupAction::UseToolchain(trim_trailing_separators(t.as_str())),
        None => if args.auto_toolchain_path {
            SetupAction::AutoDetect
        } else {
            SetupAction::Done
        },
    }
}

/// The CMake toolchain file of a vcpkg root:
/// `<root>/scripts/buildsystems/vcpkg.cmake`.
pub open spec fn toolchain_file_of(root: Seq<char>, windows: bool) -> Seq<char> {
    root + sep_of(windows) + "scripts"@ + sep_of(windows) + "buildsystems"@ + sep_of(windows)
        + "vcpkg.cmake"@
}

/// The toolchain file that the cached toolchain root should provide, or
/// `None` when no root is cached. The root's last component names the
/// toolchain family; only `vcpkg` is known.
pub fn check_toolchain(settings: &Settings) -> (r: Result<Option<String>, RuntimeErrors>)
    ensures
        ({
            let w = is_windows(settings.os@);
            let root = normalized(settings.toolchain_path@, w);
            let family = file_name_of(root, w);
            &&& settings.toolchain_path@.len() == 0 ==> (r matches Ok(None))
            &&& settings.toolchain_path@.len() > 0 && family == "vcpkg"@ ==> (r matches Ok(Some(f))
                && f@ == toolchain_file_of(root, w))
            &&& settings.toolchain_path@.len() > 0 && family != "vcpkg"@ ==> (r matches Err(
                RuntimeErrors::ToolchainNotFound(n),
            ) && n@ == family)
        }),
{
    if settings.toolchain_path.as_str().unicode_len() == 0 {
        return Ok(None);
    }
    let w = windows_os(settings.os.as_str());
    let root = normalize_path_separator(settings.toolchain_path.as_str(), w);
    let family = file_name(root.as_str(), w);
    if same_text(family.as_str(), "vcpkg") {
        let mut f = root;
        let sep = if w {
            "\\"
        } else {
            "/"
        };
        assert(sep@ == sep_of(w));
        f.append(sep);
        f.append("scripts");
        f.append(sep);
        f.append("buildsystems");
        f.append(sep);
        f.append("vcpkg.cmake");
        Ok(Some(f))
    } else {
        Err(RuntimeErrors::ToolchainNotFound(family))
    }
}

/// The outcome of the first step of toolchain detection.
#[derive(Debug)]
pub enum Detection {
    /// A toolchain root was already cached; it is used as it is.
    Cached,
    /// The descriptor names no toolchain; none is used.
    Disabled,
    /// Run this command to locate the toolchain's executable.
    Locate(Vec<String>),
}

impl Settings {
    /// Caches a toolchain root given by hand.
    pub fn set_toolchain_path(&mut self, root: String)
        ensures
            *final(self) == (Settings { toolchain_path: root, ..*old(self) }),
    {
        self.toolchain_path = root;
    }

    /// Caches the toolchain file if it exists; a missing file means that the
    /// vcpkg toolchain is not where it was looked for.
    pub fn accept_toolchain_file(&mut self, file: String, exists: bool) -> (r: Result<
        (),
        RuntimeErrors,
    >)
        ensures
            exists ==> (r is Ok) && *final(self) == (Settings { vcpkg_path: file, ..*old(self) }),
            !exists ==> (r matches Err(RuntimeErrors::ToolchainNotFound(n)) && n@ == "VCPKG"@)
                && *final(self) == *old(self),
    {
        if exists {
            self.vcpkg_path = file;
            Ok(())
        } else {
            Err(RuntimeErrors::ToolchainNotFound(String::from_str("VCPKG")))
        }
    }

    /// The first step of toolchain detection. A cached root is used as it
    /// is. Otherwise, on Windows, the descriptor's Windows section names the
    /// toolchain: none disables toolchain use, else its executable is to be
    /// located.
    pub fn begin_toolchain_detection(&mut self, config: &Config) -> (r: Result<
        Detection,
        RuntimeErrors,
    >)
        ensures
            old(self).toolchain_path@.len() > 0 ==> (r matches Ok(Detection::Cached))
                && *final(self) == (Settings { using_toolchain: true, ..*old(self) }),
            old(self).toolchain_path@.len() == 0 && !is_windows(old(self).os@) ==> (r matches Err(
                RuntimeErrors::NotSupportedOS(Some(m)),
            ) && m@ == old(self).os@) && *final(self) == *old(self),
            old(self).toolchain_path@.len() == 0 && is_windows(old(self).os@) ==> match config.config.windows {
                None => (r matches Err(RuntimeErrors::ConfigParseError(Some(m))) && m@ == "Windows"@)
                    && *final(self) == *old(self),
                Some(wc) => if wc.toolchain@.len() == 0 {
                    (r matches Ok(Detection::Disabled)) && *final(self) == (Settings {
                        using_toolchain: false,
                        ..*old(self)
                    })
                } else {
                    (r matches Ok(Detection::Locate(c)) && c@.len() == 2 && c@[0]@ == "where"@
                        && c@[1]@ == wc.toolchain@) && *final(self) == *old(self)
                },
            },
    {
        if self.toolchain_path.as_str().unicode_len() > 0 {
            self.using_toolchain = true;
            return Ok(Detection::Cached);
        }
        if !windows_os(self.os.as_str()) {
            return Err(RuntimeErrors::NotSupportedOS(Some(self.os.clone())));
        }
        match &config.config.windows {
            None => Err(RuntimeErrors::ConfigParseError(Some(String::from_str("Windows")))),
            Some(wc) => {
                if wc.toolchain.as_str().unicode_len() == 0 {
                    self.using_toolchain = false;
                    Ok(Detection::Disabled)
                } else {
                    Ok(
                        Detection::Locate(
                            vec![String::from_str("where"), wc.toolchain.clone()],
                        ),
                    )
                }
            },
        }
    }

    /// The second step of toolchain detection, from the output of the
    /// locating command. No output disables toolchain use. Otherwise the
    /// root is the executable's path without its file name; it is cached and
    /// used, and `true` says that its toolchain file is to be checked next.
    pub fn accept_located_toolchain(&mut self, output: &str) -> (r: bool)
        ensures
            r <==> output@.len() > 0,
            !r ==> *final(self) == (Settings { using_toolchain: false, ..*old(self) }),
            r ==> *final(self) == (Settings {
                using_toolchain: true,
                toolchain_path: final(self).toolchain_path,
                ..*old(self)
            }) && final(self).toolchain_path@ == stripped_suffix(
                normalized(output@, is_windows(old(self).os@)),
                "\\vcpkg.exe"@,
            ),
    {
        if output.unicode_len() == 0 {
            self.using_toolchain = false;
            return false;
        }
        let w = windows_os(self.os.as_str());
        let path = normalize_path_separator(output, w);
        self.toolchain_path = strip_suffix_all(path.as_str(), "\\vcpkg.exe");
        self.using_toolchain = true;
        true
    }
}

} // verus!
