//! The closed set of classified failures, each with its numeric exit code
//! and its rendered message.

use vstd::prelude::*;
use crate::text::{decimal, decimal_text};

verus! {

/// A classified failure. Codes are grouped by concern: operating system
/// (1-9), descriptor files (10-20), lifecycle (21-30), setup (31-40),
/// build (41-50) and unimplemented features (1000).
#[derive(Debug, Clone)]
pub enum RuntimeErrors {
    NotSupportedOS(Option<String>),
    WorkingDirSameAsExePath(String, String),
    CmdCaughtStdErr(Option<String>),
    JSONFileNotFound(Option<String>),
    ConfigParseError(Option<String>),
    NoInitFlagSet,
    NotInitialized,
    NoCommandsProvided,
    PrerequisiteNotFound(Option<String>),
    PackageInstallFailed(Option<String>),
    PostInstallFailed(Option<String>),
    PostInstallNoDefinition(Option<String>),
    GenerateProjectInvalidSystemType(Option<String>),
    GenerateProjectNtMsvcNoToolchain,
    ToolchainNotFound(String),
    BuildTypeNotSet,
    BuildTypeBothSet,
    InvalidCleanCommand(char),
    ProjectNotInitialized,
    CMakeProjectNotGenerated,
    NotImplemented,
}

/// The exit code of each error.
pub open spec fn code_of(e: RuntimeErrors) -> int {
    match e {
        RuntimeErrors::NotSupportedOS(_) => 1,
        RuntimeErrors::WorkingDirSameAsExePath(_, _) => 2,
        RuntimeErrors::CmdCaughtStdErr(_) => 3,
        RuntimeErrors::JSONFileNotFound(_) => 10,
        RuntimeErrors::ConfigParseError(_) => 11,
        RuntimeErrors::NoInitFlagSet => 21,
        RuntimeErrors::NotInitialized => 22,
        RuntimeErrors::NoCommandsProvided => 23,
        RuntimeErrors::PrerequisiteNotFound(_) => 31,
        RuntimeErrors::PackageInstallFailed(_) => 32,
        RuntimeErrors::PostInstallFailed(_) => 33,
        RuntimeErrors::PostInstallNoDefinition(_) => 34,
        RuntimeErrors::GenerateProjectInvalidSystemType(_) => 41,
        RuntimeErrors::GenerateProjectNtMsvcNoToolchain => 42,
        RuntimeErrors::ToolchainNotFound(_) => 43,
        RuntimeErrors::BuildTypeNotSet => 44,
        RuntimeErrors::BuildTypeBothSet => 45,
        RuntimeErrors::InvalidCleanCommand(_) => 46,
        RuntimeErrors::ProjectNotInitialized => 47,
        RuntimeErrors::CMakeProjectNotGenerated => 48,
        RuntimeErrors::NotImplemented => 1000,
    }
}

/// The prefix that every message starts with: `|Error <code>| `.
pub open spec fn header(code: int) -> Seq<char> {
    "|Error "@ + decimal(code as nat) + "| "@
}

/// A message with an optional detail: `<header><text>: <detail>` when the
/// detail is present, `<header><bare>` when it is not.
pub open spec fn detailed(code: int, text: Seq<char>, bare: Seq<char>, detail: Option<String>) -> Seq<char> {
    match detail {
        Some(d) => header(code) + text + d@,
        None => header(code) + bare,
    }
}

/// The rendered message of each error.
pub open spec fn message_of(e: RuntimeErrors) -> Seq<char> {
    let c = code_of(e);
    match e {
        RuntimeErrors::NotSupportedOS(m) => detailed(
            c,
            "The OS is not supported: "@,
            "The OS is not supported"@,
            m,
        ),
        RuntimeErrors::WorkingDirSameAsExePath(w, x) => header(c)
            + "The working directory is the same as the executable directory: "@ + w@ + " == "@
            + x@,
        RuntimeErrors::CmdCaughtStdErr(m) => detailed(
            c,
            "Command caught stderr: "@,
            "Command caught stderr"@,
            m,
        ),
        RuntimeErrors::JSONFileNotFound(m) => detailed(
            c,
            "The JSON file was not found: "@,
            "The JSON file was not found"@,
            m,
        ),
        RuntimeErrors::ConfigParseError(m) => detailed(
            c,
            "Error parsing the config file: "@,
            "Error parsing the config file"@,
            m,
        ),
        RuntimeErrors::NoInitFlagSet => header(c)
            + "The no-init flag was set. Do not run 'init' from entrypoint"@,
        RuntimeErrors::NotInitialized => header(c)
            + "Project not initialized, run 'init' command first"@,
        RuntimeErrors::NoCommandsProvided => header(c)
            + "No commands provided. Run 'cpm --help' for more information"@,
        RuntimeErrors::PrerequisiteNotFound(m) => match m {
            Some(p) => header(c) + "Prerequisite '"@ + p@ + "' not found"@,
            None => header(c) + "Prerequisite not found"@,
        },
        RuntimeErrors::PackageInstallFailed(m) => match m {
            Some(p) => header(c) + "Failed to install package '"@ + p@ + "'"@,
            None => header(c) + "Failed to install package"@,
        },
        RuntimeErrors::PostInstallFailed(m) => detailed(
            c,
            "Post install failed: "@,
            "Post install failed"@,
            m,
        ),
        RuntimeErrors::PostInstallNoDefinition(m) => match m {
            Some(p) => header(c) + "Post install '"@ + p@ + "' has no definition"@,
            None => header(c) + "Post install has no definition"@,
        },
        RuntimeErrors::GenerateProjectInvalidSystemType(m) => match m {
            Some(s) => header(c) + "The system type '"@ + s@ + "' is invalid"@,
            None => header(c) + "The system type is invalid"@,
        },
        RuntimeErrors::GenerateProjectNtMsvcNoToolchain => header(c)
            + "The system type 'nt/msvc' requires a toolchain path"@,
        RuntimeErrors::ToolchainNotFound(t) => header(c) + "Toolchain '"@ + t@ + "' not found"@,
        RuntimeErrors::BuildTypeNotSet => header(c) + "The build type was not set"@,
        RuntimeErrors::BuildTypeBothSet => header(c)
            + "Both debug and release build types set"@,
        RuntimeErrors::InvalidCleanCommand(ch) => header(c) + "Invalid clean command: "@ + seq![
            ch,
        ],
        RuntimeErrors::ProjectNotInitialized => header(c)
            + "Project not initialized, run 'init' command first"@,
        RuntimeErrors::CMakeProjectNotGenerated => header(c) + "CMake project not generated"@,
        RuntimeErrors::NotImplemented => header(c) + "This feature is not implemented"@,
    }
}

/// Relies on `From<char> for String`: a string holding the one character.
#[verifier::external_body]
fn char_text(c: char) -> (r: String)
    ensures
        r@ == seq![c],
{
    String::from(c)
}

/// `header(code)` followed by `text`.
fn headed(code: i32, text: &str) -> (r: String)
    requires
        0 <= code,
    ensures
        r@ == header(code as int) + text@,
{
    let mut r = String::from_str("|Error ");
    let digits = decimal_text(code as u32);
    r.append(digits.as_str());
    r.append("| ");
    r.append(text);
    r
}

/// `header(code)`, then `text` and the detail when there is one, else `bare`.
fn with_detail(code: i32, text: &str, bare: &str, detail: &Option<String>) -> (r: String)
    requires
        0 <= code,
    ensures
        r@ == detailed(code as int, text@, bare@, *detail),
{
    match detail {
        Some(d) => {
            let mut r = headed(code, text);
            r.append(d.as_str());
            r
        },
        None => headed(code, bare),
    }
}

/// `header(code)`, then `before`, `item` and `after`.
fn around(code: i32, before: &str, item: &String, after: &str) -> (r: String)
    requires
        0 <= code,
    ensures
        r@ == header(code as int) + before@ + item@ + after@,
{
    let mut r = headed(code, before);
    r.append(item.as_str());
    r.append(after);
    r
}

impl RuntimeErrors {
    /// The numeric exit code of this error.
    pub fn error_code(&self) -> (r: i32)
        ensures
            r == code_of(*self),
            r > 0,
    {
        match self {
            RuntimeErrors::NotSupportedOS(_) => 1,
            RuntimeErrors::WorkingDirSameAsExePath(_, _) => 2,
            RuntimeErrors::CmdCaughtStdErr(_) => 3,
            RuntimeErrors::JSONFileNotFound(_) => 10,
            RuntimeErrors::ConfigParseError(_) => 11,
            RuntimeErrors::NoInitFlagSet => 21,
            RuntimeErrors::NotInitialized => 22,
            RuntimeErrors::NoCommandsProvided => 23,
            RuntimeErrors::PrerequisiteNotFound(_) => 31,
            RuntimeErrors::PackageInstallFailed(_) => 32,
            RuntimeErrors::PostInstallFailed(_) => 33,
            RuntimeErrors::PostInstallNoDefinition(_) => 34,
            RuntimeErrors::GenerateProjectInvalidSystemType(_) => 41,
            RuntimeErrors::GenerateProjectNtMsvcNoToolchain => 42,
            RuntimeErrors::ToolchainNotFound(_) => 43,
            RuntimeErrors::BuildTypeNotSet => 44,
            RuntimeErrors::BuildTypeBothSet => 45,
            RuntimeErrors::InvalidCleanCommand(_) => 46,
            RuntimeErrors::ProjectNotInitialized => 47,
            RuntimeErrors::CMakeProjectNotGenerated => 48,
            RuntimeErrors::NotImplemented => 1000,
        }
    }

    /// The rendered message of this error, which carries its code.
    pub fn error_message(&self) -> (r: String)
        ensures
            r@ == message_of(*self),
    {
        let c = self.error_code();
        match self {
            RuntimeErrors::NotSupportedOS(m) => with_detail(
                c,
                "The OS is not supported: ",
                "The OS is not supported",
                m,
            ),
            RuntimeErrors::WorkingDirSameAsExePath(w, x) => {
                let mut r = around(
                    c,
                    "The working directory is the same as the executable directory: ",
                    w,
                    " == ",
                );
                r.append(x.as_str());
                r
            },
            RuntimeErrors::CmdCaughtStdErr(m) => with_detail(
                c,
                "Command caught stderr: ",
                "Command caught stderr",
                m,
            ),
            RuntimeErrors::JSONFileNotFound(m) => with_detail(
                c,
                "The JSON file was not found: ",
                "The JSON file was not found",
                m,
            ),
            RuntimeErrors::ConfigParseError(m) => with_detail(
                c,
                "Error parsing the config file: ",
                "Error parsing the config file",
                m,
            ),
            RuntimeErrors::NoInitFlagSet => headed(
                c,
                "The no-init flag was set. Do not run 'init' from entrypoint",
            ),
            RuntimeErrors::NotInitialized => headed(
                c,
                "Project not initialized, run 'init' command first",
            ),
            RuntimeErrors::NoCommandsProvided => headed(
                c,
                "No commands provided. Run 'cpm --help' for more information",
            ),
            RuntimeErrors::PrerequisiteNotFound(m) => match m {
                Some(p) => around(c, "Prerequisite '", p, "' not found"),
                None => headed(c, "Prerequisite not found"),
            },
            RuntimeErrors::PackageInstallFailed(m) => match m {
                Some(p) => around(c, "Failed to install package '", p, "'"),
                None => headed(c, "Failed to install package"),
            },
            RuntimeErrors::PostInstallFailed(m) => with_detail(
                c,
                "Post install failed: ",
                "Post install failed",
                m,
            ),
            RuntimeErrors::PostInstallNoDefinition(m) => match m {
                Some(p) => around(c, "Post install '", p, "' has no definition"),
                None => headed(c, "Post install has no definition"),
            },
            RuntimeErrors::GenerateProjectInvalidSystemType(m) => match m {
                Some(s) => around(c, "The system type '", s, "' is invalid"),
                None => headed(c, "The system type is invalid"),
            },
            RuntimeErrors::GenerateProjectNtMsvcNoToolchain => headed(
                c,
                "The system type 'nt/msvc' requires a toolchain path",
            ),
            RuntimeErrors::ToolchainNotFound(t) => around(c, "Toolchain '", t, "' not found"),
            RuntimeErrors::BuildTypeNotSet => headed(c, "The build type was not set"),
            RuntimeErrors::BuildTypeBothSet => headed(c, "Both debug and release build types set"),
            RuntimeErrors::InvalidCleanCommand(ch) => {
                let mut r = headed(c, "Invalid clean command: ");
                let t = char_text(*ch);
                r.append(t.as_str());
                r
            },
            RuntimeErrors::ProjectNotInitialized => headed(
                c,
                "Project not initialized, run 'init' command first",
            ),
            RuntimeErrors::CMakeProjectNotGenerated => headed(c, "CMake project not generated"),
            RuntimeErrors::NotImplemented => headed(c, "This feature is not implemented"),
        }
    }
}

} // verus!
