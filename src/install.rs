//! The install descriptor and the decisions of the dependency checker:
//! how each prerequisite is probed, when a package counts as installed,
//! how it is installed, and which post-install actions are known.

use vstd::prelude::*;
use crate::cmd::{first_line, first_line_of, line_end_at};
use crate::errors::RuntimeErrors;
use crate::project::texts;
use crate::settings::Settings;
use crate::text::{contains_text, has_infix, same_text};

verus! {

/// The install descriptor of a project: the operating system it targets and
/// the instructions for each operating system.
#[derive(Debug, Clone)]
pub struct Config {
    pub os_target: String,
    pub config: MultiOSConfig,
}

/// The instructions for each operating system, where given.
#[derive(Debug, Clone)]
pub struct MultiOSConfig {
    pub windows: Option<WindowsConfig>,
    pub linux: Option<LinuxConfig>,
    pub macos: Option<MacOSConfig>,
}

/// What a Windows setup checks, installs and runs afterwards.
#[derive(Debug, Clone)]
pub struct WindowsConfig {
    pub prerequisites: Vec<String>,
    pub toolchain: String,
    pub packages: Vec<Package>,
    pub post_install: Vec<String>,
}

/// What a Linux setup checks and runs afterwards.
#[derive(Debug, Clone)]
pub struct LinuxConfig {
    pub dependencies: Vec<String>,
    pub toolchain: String,
    pub instructions: Vec<String>,
}

/// What a macOS setup checks and runs afterwards.
#[derive(Debug, Clone)]
pub struct MacOSConfig {
    pub tools: Vec<String>,
    pub toolchain: String,
    pub setup_steps: Vec<String>,
}

/// A library to install, with the target triplet it is built for.
#[derive(Debug, Clone)]
pub struct Package {
    pub library: String,
    pub triplet: String,
}

/// The descriptor written into a project that has none and for which no
/// bundled template is found: CMake and Git are required everywhere; on
/// Windows vcpkg is the toolchain and is integrated after install.
pub fn default_config() -> (r: Config)
    ensures
        r.os_target@ == "windows"@,
        r.config.windows matches Some(w) && texts(w.prerequisites@) == seq!["cmake"@, "git"@]
            && w.toolchain@ == "vcpkg"@ && w.packages@.len() == 0 && texts(w.post_install@)
            == seq!["vcpkg_integrate_install"@],
        r.config.linux matches Some(l) && texts(l.dependencies@) == seq!["cmake"@, "git"@]
            && l.toolchain@.len() == 0 && l.instructions@.len() == 0,
        r.config.macos matches Some(m) && texts(m.tools@) == seq!["cmake"@, "git"@]
            && m.toolchain@.len() == 0 && m.setup_steps@.len() == 0,
{
    let wp = vec![text("cmake"), text("git")];
    let wi = vec![text("vcpkg_integrate_install")];
    let lp = vec![text("cmake"), text("git")];
    let mp = vec![text("cmake"), text("git")];
    assert(texts(wp@) =~= seq!["cmake"@, "git"@]);
    assert(texts(wi@) =~= seq!["vcpkg_integrate_install"@]);
    assert(texts(lp@) =~= seq!["cmake"@, "git"@]);
    assert(texts(mp@) =~= seq!["cmake"@, "git"@]);
    Config {
        os_target: text("windows"),
        config: MultiOSConfig {
            windows: Some(
                WindowsConfig {
                    prerequisites: wp,
                    toolchain: text("vcpkg"),
                    packages: Vec::new(),
                    post_install: wi,
                },
            ),
            linux: Some(
                LinuxConfig { dependencies: lp, toolchain: String::new(), instructions: Vec::new() },
            ),
            macos: Some(
                MacOSConfig { tools: mp, toolchain: String::new(), setup_steps: Vec::new() },
            ),
        },
    }
}

/// The tools whose presence is shown by their version string.
pub open spec fn is_version_tool(name: Seq<char>) -> bool {
    name == "cmake"@ || name == "git"@ || name == "vcpkg"@ || name == "rustc"@ || name
        == "cargo"@
}

/// The command that shows whether a prerequisite is present: the version
/// of a known tool, else where the executable lies on the `PATH`.
pub open spec fn probe_of(name: Seq<char>) -> Seq<Seq<char>> {
    if is_version_tool(name) {
        seq![name, "--version"@]
    } else {
        seq!["where"@, name]
    }
}

fn text(s: &str) -> (r: String)
    ensures
        r@ == s@,
{
    String::from_str(s)
}

fn version_tool(name: &str) -> (r: bool)
    ensures
        r == is_version_tool(name@),
{
    same_text(name, "cmake") || same_text(name, "git") || same_text(name, "vcpkg") || same_text(
        name,
        "rustc",
    ) || same_text(name, "cargo")
}

/// The command that probes a prerequisite.
pub fn prerequisite_probe(name: &str) -> (r: Vec<String>)
    ensures
        texts(r@) == probe_of(name@),
{
    let r = if version_tool(name) {
        vec![text(name), text("--version")]
    } else {
        vec![text("where"), text(name)]
    };
    assert(texts(r@) =~= probe_of(name@));
    r
}

/// Judges a prerequisite by the output of its probe: no output means it is
/// missing. What is reported of a present one is the first line of a
/// version string, or the whole output of the lookup.
pub fn check_prerequisite(name: &str, output: &str) -> (r: Result<String, RuntimeErrors>)
    ensures
        output@.len() == 0 ==> (r matches Err(RuntimeErrors::PrerequisiteNotFound(Some(n))) && n@
            == name@),
        output@.len() > 0 && is_version_tool(name@) ==> (r matches Ok(line) && exists|k: int|
            line_end_at(output@, k) && line@ == first_line_of(output@, k)),
        output@.len() > 0 && !is_version_tool(name@) ==> (r matches Ok(found) && found@
            == output@),
{
    if output.unicode_len() == 0 {
        Err(RuntimeErrors::PrerequisiteNotFound(Some(text(name))))
    } else if version_tool(name) {
        Ok(first_line(output))
    } else {
        Ok(text(output))
    }
}

/// The toolchain's executable: `<toolchain_path>\vcpkg.exe`.
pub open spec fn vcpkg_exe_of(s: Settings) -> Seq<char> {
    s.toolchain_path@ + "\\vcpkg.exe"@
}

/// The toolchain's executable.
pub fn vcpkg_exe(settings: &Settings) -> (r: String)
    ensures
        r@ == vcpkg_exe_of(*settings),
{
    let mut r = settings.toolchain_path.clone();
    r.append("\\vcpkg.exe");
    r
}

/// The command that lists the installed packages.
pub fn package_list_command(settings: &Settings) -> (r: Vec<String>)
    ensures
        texts(r@) == seq![vcpkg_exe_of(*settings), "list"@],
{
    let r = vec![vcpkg_exe(settings), text("list")];
    assert(texts(r@) =~= seq![vcpkg_exe_of(*settings), "list"@]);
    r
}

/// Whether a package is installed: its library name occurs in the listing.
pub fn package_installed(listing: &str, package: &Package) -> (r: bool)
    ensures
        r == has_infix(listing@, package.library@),
{
    contains_text(listing, package.library.as_str())
}

/// The command that installs a package for its triplet.
pub fn package_install_command(settings: &Settings, package: &Package) -> (r: Vec<String>)
    ensures
        texts(r@) == seq![
            vcpkg_exe_of(*settings),
            "install"@,
            package.library@,
            "--triplet="@ + package.triplet@,
        ],
{
    let mut triplet = text("--triplet=");
    triplet.append(package.triplet.as_str());
    let r = vec![vcpkg_exe(settings), text("install"), package.library.clone(), triplet];
    assert(texts(r@) =~= seq![
        vcpkg_exe_of(*settings),
        "install"@,
        package.library@,
        "--triplet="@ + package.triplet@,
    ]);
    r
}

/// Judges an install by its output: no output means it failed.
pub fn check_package_install(package: &Package, output: &str) -> (r: Result<(), RuntimeErrors>)
    ensures
        r is Ok <==> output@.len() > 0,
        r matches Err(e) ==> (e matches RuntimeErrors::PackageInstallFailed(Some(l)) && l@
            == package.library@),
{
    if output.unicode_len() == 0 {
        Err(RuntimeErrors::PackageInstallFailed(Some(package.library.clone())))
    } else {
        Ok(())
    }
}

/// A post-install action: a command to run, or an identifier without a
/// definition, which is reported and skipped.
#[derive(Debug)]
pub enum PostInstall {
    Run(Vec<String>),
    Undefined(RuntimeErrors),
}

/// What a post-install identifier stands for; only
/// `vcpkg_integrate_install` is known.
pub fn post_install_step(settings: &Settings, id: &str) -> (r: PostInstall)
    ensures
        id@ == "vcpkg_integrate_install"@ ==> (r matches PostInstall::Run(c) && texts(c@)
            == seq![vcpkg_exe_of(*settings), "integrate"@, "install"@]),
        id@ != "vcpkg_integrate_install"@ ==> (r matches PostInstall::Undefined(
            RuntimeErrors::PostInstallNoDefinition(Some(m)),
        ) && m@ == id@),
{
    if same_text(id, "vcpkg_integrate_install") {
        let c = vec![vcpkg_exe(settings), text("integrate"), text("install")];
        assert(texts(c@) =~= seq![vcpkg_exe_of(*settings), "integrate"@, "install"@]);
        PostInstall::Run(c)
    } else {
        PostInstall::Undefined(RuntimeErrors::PostInstallNoDefinition(Some(text(id))))
    }
}

/// Judges a post-install command by its output: no output means it failed.
pub fn check_post_install(id: &str, output: &str) -> (r: Result<(), RuntimeErrors>)
    ensures
        r is Ok <==> output@.len() > 0,
        r matches Err(e) ==> (e matches RuntimeErrors::PostInstallFailed(Some(m)) && m@ == id@),
{
    if output.unicode_len() == 0 {
        Err(RuntimeErrors::PostInstallFailed(Some(text(id))))
    } else {
        Ok(())
    }
}

} // verus!
