//! The CMake invocations of a project: the configure preset of each system
//! type, the build and install commands, the build type and the clean codes.

use vstd::prelude::*;
use crate::errors::RuntimeErrors;
use crate::settings::Settings;
use crate::text::{is_windows, join_path, joined, same_text, windows_os};

verus! {

/// The texts of a vector of strings.
pub open spec fn texts(v: Seq<String>) -> Seq<Seq<char>> {
    v.map_values(|s: String| s@)
}

/// The configure command for a generator and a pair of compiler defines.
pub open spec fn configure_with(
    source_dir: Seq<char>,
    build_dir: Seq<char>,
    generator: Seq<char>,
    c_define: Seq<char>,
    cxx_define: Seq<char>,
) -> Seq<Seq<char>> {
    seq!["cmake"@, "-S"@, source_dir, "-B"@, build_dir, "-G"@, generator, c_define, cxx_define]
}

/// The configure command for a system type, or `None` for an unknown one.
pub open spec fn preset_of(
    system_type: Seq<char>,
    source_dir: Seq<char>,
    build_dir: Seq<char>,
    toolchain_path: Seq<char>,
) -> Option<Seq<Seq<char>>> {
    if system_type == "nt/msvc"@ {
        Some(
            seq![
                "cmake"@,
                "-S"@,
                source_dir,
                "-B"@,
                build_dir,
                "-G"@,
                "Visual Studio 17 2022"@,
                "-DCMAKE_TOOLCHAIN_FILE="@ + toolchain_path,
            ],
        )
    } else if system_type == "unix/clang"@ {
        Some(
            configure_with(
                source_dir,
                build_dir,
                "Ninja"@,
                "-DCMAKE_C_COMPILER=clang"@,
                "-DCMAKE_CXX_COMPILER=clang++"@,
            ),
        )
    } else if system_type == "unix/gcc"@ {
        Some(
            configure_with(
                source_dir,
                build_dir,
                "Ninja"@,
                "-DCMAKE_C_COMPILER=gcc"@,
                "-DCMAKE_CXX_COMPILER=g++"@,
            ),
        )
    } else if system_type == "make/clang"@ {
        Some(
            configure_with(
                source_dir,
                build_dir,
                "Unix Makefiles"@,
                "-DCMAKE_C_COMPILER=clang"@,
                "-DCMAKE_CXX_COMPILER=clang++"@,
            ),
        )
    } else if system_type == "make/gcc"@ {
        Some(
            configure_with(
                source_dir,
                build_dir,
                "Unix Makefiles"@,
                "-DCMAKE_C_COMPILER=gcc"@,
                "-DCMAKE_CXX_COMPILER=g++"@,
            ),
        )
    } else {
        None
    }
}

fn text(s: &str) -> (r: String)
    ensures
        r@ == s@,
{
    String::from_str(s)
}

fn configure_command(
    source_dir: &str,
    build_dir: &str,
    generator: &str,
    c_define: &str,
    cxx_define: &str,
) -> (r: Vec<String>)
    ensures
        texts(r@) == configure_with(source_dir@, build_dir@, generator@, c_define@, cxx_define@),
{
    let r = vec![
        text("cmake"),
        text("-S"),
        text(source_dir),
        text("-B"),
        text(build_dir),
        text("-G"),
        text(generator),
        text(c_define),
        text(cxx_define),
    ];
    assert(texts(r@) =~= configure_with(
        source_dir@,
        build_dir@,
        generator@,
        c_define@,
        cxx_define@,
    ));
    r
}

/// The configure command of a system type. `nt/msvc` needs a toolchain
/// file; an unknown system type is refused.
pub fn generate_preset(
    system_type: &str,
    source_dir: &str,
    build_dir: &str,
    toolchain_path: &str,
) -> (r: Result<Vec<String>, RuntimeErrors>)
    ensures
        system_type@ == "nt/msvc"@ && toolchain_path@.len() == 0 ==> r matches Err(
            RuntimeErrors::GenerateProjectNtMsvcNoToolchain,
        ),
        preset_of(system_type@, source_dir@, build_dir@, toolchain_path@) is None ==> (r matches Err(
            RuntimeErrors::GenerateProjectInvalidSystemType(Some(s)),
        ) && s@ == system_type@),
        r matches Ok(v) ==> preset_of(system_type@, source_dir@, build_dir@, toolchain_path@)
            == Some(texts(v@)),
        r is Ok <==> preset_of(system_type@, source_dir@, build_dir@, toolchain_path@) is Some
            && !(system_type@ == "nt/msvc"@ && toolchain_path@.len() == 0),
{
    if same_text(system_type, "nt/msvc") {
        if toolchain_path.unicode_len() == 0 {
            return Err(RuntimeErrors::GenerateProjectNtMsvcNoToolchain);
        }
        let mut define = text("-DCMAKE_TOOLCHAIN_FILE=");
        define.append(toolchain_path);
        let r = vec![
            text("cmake"),
            text("-S"),
            text(source_dir),
            text("-B"),
            text(build_dir),
            text("-G"),
            text("Visual Studio 17 2022"),
            define,
        ];
        assert(texts(r@) =~= preset_of(
            system_type@,
            source_dir@,
            build_dir@,
            toolchain_path@,
        ).unwrap());
        Ok(r)
    } else if same_text(system_type, "unix/clang") {
        Ok(
            configure_command(
                source_dir,
                build_dir,
                "Ninja",
                "-DCMAKE_C_COMPILER=clang",
                "-DCMAKE_CXX_COMPILER=clang++",
            ),
        )
    } else if same_text(system_type, "unix/gcc") {
        Ok(
            configure_command(
                source_dir,
                build_dir,
                "Ninja",
                "-DCMAKE_C_COMPILER=gcc",
                "-DCMAKE_CXX_COMPILER=g++",
            ),
        )
    } else if same_text(system_type, "make/clang") {
        Ok(
            configure_command(
                source_dir,
                build_dir,
                "Unix Makefiles",
                "-DCMAKE_C_COMPILER=clang",
                "-DCMAKE_CXX_COMPILER=clang++",
            ),
        )
    } else if same_text(system_type, "make/gcc") {
        Ok(
            configure_command(
                source_dir,
                build_dir,
                "Unix Makefiles",
                "-DCMAKE_C_COMPILER=gcc",
                "-DCMAKE_CXX_COMPILER=g++",
            ),
        )
    } else {
        Err(RuntimeErrors::GenerateProjectInvalidSystemType(Some(text(system_type))))
    }
}

/// The build command: `cmake --build <build_dir> --config <build_type>`.
pub fn build_command(build_dir: &str, build_type: &str) -> (r: Vec<String>)
    ensures
        texts(r@) == seq!["cmake"@, "--build"@, build_dir@, "--config"@, build_type@],
{
    let r = vec![text("cmake"), text("--build"), text(build_dir), text("--config"), text(build_type)];
    assert(texts(r@) =~= seq!["cmake"@, "--build"@, build_dir@, "--config"@, build_type@]);
    r
}

/// The prefix that a build type installs into:
/// `<install_dir>/<os_release>/<build_type>`.
pub open spec fn install_prefix(s: Settings, build_type: Seq<char>) -> Seq<char> {
    let w = is_windows(s.os@);
    joined(joined(s.install_dir@, s.os_release@, w), build_type, w)
}

/// The install command:
/// `cmake --install <build_dir> --prefix <prefix> --config <build_type> -v`.
pub fn install_command(settings: &Settings, build_type: &str) -> (r: Vec<String>)
    ensures
        texts(r@) == seq![
            "cmake"@,
            "--install"@,
            settings.build_dir@,
            "--prefix"@,
            install_prefix(*settings, build_type@),
            "--config"@,
            build_type@,
            "-v"@,
        ],
{
    let w = windows_os(settings.os.as_str());
    let release = join_path(settings.install_dir.as_str(), settings.os_release.as_str(), w);
    let prefix = join_path(release.as_str(), build_type, w);
    let r = vec![
        text("cmake"),
        text("--install"),
        settings.build_dir.clone(),
        text("--prefix"),
        prefix,
        text("--config"),
        text(build_type),
        text("-v"),
    ];
    assert(texts(r@) =~= seq![
        "cmake"@,
        "--install"@,
        settings.build_dir@,
        "--prefix"@,
        install_prefix(*settings, build_type@),
        "--config"@,
        build_type@,
        "-v"@,
    ]);
    r
}

/// The build options of a `build` invocation.
#[derive(Debug, Clone)]
pub struct BuildArgs {
    pub debug_build_type: bool,
    pub release_build_type: bool,
    /// `Some(None)` or a blank system type reuses the last configure command.
    pub generate_project: Option<Option<String>>,
    pub build_project: bool,
    pub install_project: bool,
    /// `Some(None)` or a blank code cleans both directories.
    pub clean_project: Option<Option<String>>,
    pub source_targets: bool,
}

/// The build type that exactly one of the two flags selects.
pub fn check_build_type(args: &BuildArgs) -> (r: Result<String, RuntimeErrors>)
    ensures
        !args.debug_build_type && !args.release_build_type ==> r matches Err(
            RuntimeErrors::BuildTypeNotSet,
        ),
        args.debug_build_type && args.release_build_type ==> r matches Err(
            RuntimeErrors::BuildTypeBothSet,
        ),
        args.debug_build_type && !args.release_build_type ==> (r matches Ok(t) && t@ == "Debug"@),
        !args.debug_build_type && args.release_build_type ==> (r matches Ok(t) && t@
            == "Release"@),
{
    if !(args.debug_build_type || args.release_build_type) {
        Err(RuntimeErrors::BuildTypeNotSet)
    } else if args.debug_build_type && args.release_build_type {
        Err(RuntimeErrors::BuildTypeBothSet)
    } else if args.debug_build_type {
        Ok(text("Debug"))
    } else {
        Ok(text("Release"))
    }
}

/// The characters with the Unicode `White_Space` property.
pub open spec fn is_blank_char(c: char) -> bool {
    ('\u{9}' <= c && c <= '\u{d}') || c == ' ' || c == '\u{85}' || c == '\u{a0}' || c
        == '\u{1680}' || ('\u{2000}' <= c && c <= '\u{200a}') || c == '\u{2028}' || c
        == '\u{2029}' || c == '\u{202f}' || c == '\u{205f}' || c == '\u{3000}'
}

/// Whether a text is empty once surrounding white space is trimmed.
pub open spec fn is_blank(s: Seq<char>) -> bool {
    forall|i: int| 0 <= i < s.len() ==> is_blank_char(#[trigger] s[i])
}

fn blank_char(c: char) -> (r: bool)
    ensures
        r == is_blank_char(c),
{
    ('\u{9}' <= c && c <= '\u{d}') || c == ' ' || c == '\u{85}' || c == '\u{a0}' || c
        == '\u{1680}' || ('\u{2000}' <= c && c <= '\u{200a}') || c == '\u{2028}' || c
        == '\u{2029}' || c == '\u{202f}' || c == '\u{205f}' || c == '\u{3000}'
}

/// Whether `s` holds nothing but white space.
pub fn blank(s: &str) -> (r: bool)
    ensures
        r == is_blank(s@),
{
    let n = s.unicode_len();
    let mut i: usize = 0;
    while i < n
        invariant
            n == s@.len(),
            i <= n,
            forall|j: int| 0 <= j < i ==> is_blank_char(#[trigger] s@[j]),
        decreases n - i,
    {
        if !blank_char(s.get_char(i)) {
            return false;
        }
        i += 1;
    }
    true
}

/// The clean code that a `--clean-project` option asks for: none without
/// the option, the given code when it is not blank, else both directories.
pub open spec fn clean_code_of(arg: Option<Option<String>>) -> Option<Seq<char>> {
    match arg {
        None => None,
        Some(Some(code)) => if is_blank(code@) {
            Some("bi"@)
        } else {
            Some(code@)
        },
        Some(None) => Some("bi"@),
    }
}

/// The clean code that a `--clean-project` option asks for.
pub fn clean_code(arg: &Option<Option<String>>) -> (r: Option<String>)
    ensures
        r matches Some(c) ==> clean_code_of(*arg) == Some(c@),
        r is None <==> clean_code_of(*arg) is None,
{
    match arg {
        None => None,
        Some(Some(code)) => if blank(code.as_str()) {
            Some(text("bi"))
        } else {
            Some(code.clone())
        },
        Some(None) => Some(text("bi")),
    }
}

/// The directories that a clean removes.
#[derive(Debug, Clone, Copy, PartialEq, Eq)]
pub struct CleanTargets {
    pub build: bool,
    pub install: bool,
}

/// A character of a clean code: `b` for the build directory, `i` for the
/// install directory.
pub open spec fn is_clean_char(c: char) -> bool {
    c == 'b' || c == 'i'
}

/// Whether `k` is the position of the first character of `s` that is not a
/// clean character.
pub open spec fn first_invalid_at(s: Seq<char>, k: int) -> bool {
    0 <= k < s.len() && !is_clean_char(s[k]) && forall|j: int|
        0 <= j < k ==> is_clean_char(#[trigger] s[j])
}

/// Reads a clean code. Every character selects a directory; the first
/// character that selects none is refused.
pub fn parse_clean_code(code: &str) -> (r: Result<CleanTargets, RuntimeErrors>)
    ensures
        r is Ok <==> forall|i: int| 0 <= i < code@.len() ==> is_clean_char(#[trigger] code@[i]),
        r matches Ok(t) ==> (t.build <==> code@.contains('b')) && (t.install
            <==> code@.contains('i')),
        r matches Err(e) ==> exists|k: int|
            first_invalid_at(code@, k) && e == RuntimeErrors::InvalidCleanCommand(code@[k]),
{
    let n = code.unicode_len();
    let mut build = false;
    let mut install = false;
    let mut i: usize = 0;
    while i < n
        invariant
            n == code@.len(),
            i <= n,
            forall|j: int| 0 <= j < i ==> is_clean_char(#[trigger] code@[j]),
            build <==> exists|j: int| 0 <= j < i && code@[j] == 'b',
            install <==> exists|j: int| 0 <= j < i && code@[j] == 'i',
        decreases n - i,
    {
        let c = code.get_char(i);
        if c == 'b' {
            build = true;
        } else if c == 'i' {
            install = true;
        } else {
            assert(first_invalid_at(code@, i as int));
            return Err(RuntimeErrors::InvalidCleanCommand(c));
        }
        i += 1;
    }
    Ok(CleanTargets { build, install })
}

/// What became of a directory that a clean removes.
#[derive(Debug, Clone, Copy, PartialEq, Eq)]
pub enum Removal {
    /// It was there and is gone.
    Removed,
    /// It was not there: the clean skips it with a warning.
    Missing,
    /// Removing it failed otherwise: the clean reports it and goes on.
    Failed,
}

/// The outcome of one removal, from whether it succeeded and whether it
/// failed because nothing was there.
pub open spec fn removal_of(removed: bool, not_found: bool) -> Removal {
    if removed {
        Removal::Removed
    } else if not_found {
        Removal::Missing
    } else {
        Removal::Failed
    }
}

/// Classifies one removal.
pub fn removal_outcome(removed: bool, not_found: bool) -> (r: Removal)
    ensures
        r == removal_of(removed, not_found),
{
    if removed {
        Removal::Removed
    } else if not_found {
        Removal::Missing
    } else {
        Removal::Failed
    }
}

/// Which of the build and install directories exist after a clean that
/// removes `t`, when removal succeeds on every directory that exists.
pub open spec fn present_after(t: CleanTargets, present: (bool, bool)) -> (bool, bool) {
    (present.0 && !t.build, present.1 && !t.install)
}

/// The outcome of removing a directory, from whether it exists.
pub open spec fn removal_when(present: bool) -> Removal {
    removal_of(present, !present)
}

/// Cleaning is idempotent: for a valid clean code, a second clean changes
/// nothing that the first left, and every directory it selects is missing,
/// which is skipped without an error.
pub proof fn lemma_clean_idempotent(code: Seq<char>, t: CleanTargets, present: (bool, bool))
    requires
        forall|i: int| 0 <= i < code.len() ==> is_clean_char(#[trigger] code[i]),
        t.build <==> code.contains('b'),
        t.install <==> code.contains('i'),
    ensures
        present_after(t, present_after(t, present)) == present_after(t, present),
        t.build ==> removal_when(present_after(t, present).0) == Removal::Missing,
        t.install ==> removal_when(present_after(t, present).1) == Removal::Missing,
        removal_when(false) != Removal::Failed,
{
}

/// The system type that a `--generate-project` value names: a blank or
/// missing one names none, and the last configure command is reused.
pub fn system_type_choice(arg: &Option<String>) -> (r: Option<String>)
    ensures
        match *arg {
            Some(t) => if is_blank(t@) {
                r is None
            } else {
                r matches Some(c) && c@ == t@
            },
            None => r is None,
        },
{
    match arg {
        Some(t) => if blank(t.as_str()) {
            None
        } else {
            Some(t.clone())
        },
        None => None,
    }
}

impl Settings {
    /// Caches the build type.
    pub fn cache_build_type(&mut self, build_type: &str)
        ensures
            *final(self) == (Settings { cmake_build_type: final(self).cmake_build_type, ..*old(self) }),
            final(self).cmake_build_type@ == build_type@,
    {
        self.cmake_build_type = text(build_type);
    }

    /// Prepares the configure command of a system type for the bound
    /// project, whose toolchain file is the cached one. On success the
    /// system type, build type and command are cached and the command is
    /// returned to be run; on failure nothing changes.
    pub fn generate_cmake_project(&mut self, system_type: &str, build_type: &str) -> (r: Result<
        Vec<String>,
        RuntimeErrors,
    >)
        ensures
            ({
                let p = preset_of(
                    system_type@,
                    old(self).working_dir@,
                    old(self).build_dir@,
                    old(self).vcpkg_path@,
                );
                let no_toolchain = system_type@ == "nt/msvc"@ && old(self).vcpkg_path@.len() == 0;
                &&& no_toolchain ==> (r matches Err(
                    RuntimeErrors::GenerateProjectNtMsvcNoToolchain,
                ))
                &&& p is None ==> (r matches Err(
                    RuntimeErrors::GenerateProjectInvalidSystemType(Some(t)),
                ) && t@ == system_type@)
                &&& r is Err ==> *final(self) == *old(self)
                &&& r is Ok <==> p is Some && !no_toolchain
                &&& r matches Ok(v) ==> p == Some(texts(v@)) && *final(self) == (Settings {
                    cmake_system_type: final(self).cmake_system_type,
                    cmake_build_type: final(self).cmake_build_type,
                    last_cmake_configuration_command: final(self).last_cmake_configuration_command,
                    ..*old(self)
                }) && final(self).cmake_system_type@ == system_type@
                    && final(self).cmake_build_type@ == build_type@ && texts(
                    final(self).last_cmake_configuration_command@,
                ) == texts(v@)
            }),
    {
        let preset = generate_preset(
            system_type,
            self.working_dir.as_str(),
            self.build_dir.as_str(),
            self.vcpkg_path.as_str(),
        );
        match preset {
            Ok(v) => {
                self.cmake_system_type = text(system_type);
                self.cmake_build_type = text(build_type);
                let cached = v.clone();
                assert(texts(cached@) =~= texts(v@));
                self.last_cmake_configuration_command = cached;
                Ok(v)
            },
            Err(e) => Err(e),
        }
    }

    /// The cached configure command, to be run again when no system type is
    /// named; `None` when there is none.
    pub fn last_configure_command(&self) -> (r: Option<Vec<String>>)
        ensures
            self.last_cmake_configuration_command@.len() == 0 ==> r is None,
            self.last_cmake_configuration_command@.len() > 0 ==> (r matches Some(v) && texts(v@)
                == texts(self.last_cmake_configuration_command@)),
    {
        if self.last_cmake_configuration_command.len() == 0 {
            None
        } else {
            let v = self.last_cmake_configuration_command.clone();
            assert(texts(v@) =~= texts(self.last_cmake_configuration_command@));
            Some(v)
        }
    }
}

} // verus!
