//! The decisions around running an external command: which platforms are
//! supported, what is recorded before a run, what is actually spawned, and
//! how captured output is trimmed.

use vstd::prelude::*;
use crate::errors::RuntimeErrors;
use crate::project::texts;
use crate::settings::Settings;
use crate::text::same_text;

verus! {

/// How a command is run.
#[derive(Debug, Clone, Copy, PartialEq, Eq)]
pub enum ExecMode {
    /// Spawned directly, its output streamed line by line as it comes.
    Live,
    /// Run through the platform shell, its output logged at the info level.
    Display,
    /// Run through the platform shell, its output logged at the debug level.
    Quiet,
    /// Run through the platform shell, its trimmed output handed back.
    Capture,
}

/// Whether the tool runs on an operating system.
pub open spec fn is_supported_os(os: Seq<char>) -> bool {
    os == "linux"@ || os == "windows"@
}

/// The operating system of the settings, if the tool runs on it.
pub fn check_supported_os(settings: &Settings) -> (r: Result<String, RuntimeErrors>)
    ensures
        r is Ok <==> is_supported_os(settings.os@),
        r matches Ok(os) ==> os@ == settings.os@,
        r matches Err(e) ==> (e matches RuntimeErrors::NotSupportedOS(Some(m)) && m@
            == settings.os@),
{
    if same_text(settings.os.as_str(), "linux") || same_text(settings.os.as_str(), "windows") {
        Ok(settings.os.clone())
    } else {
        Err(RuntimeErrors::NotSupportedOS(Some(settings.os.clone())))
    }
}

/// The argument vector spawned for a command: on Windows the shell modes go
/// through `cmd /C`; live commands, and every command on Linux, are
/// spawned directly.
pub open spec fn spawned_of(os: Seq<char>, mode: ExecMode, cmd: Seq<Seq<char>>) -> Seq<Seq<char>> {
    if os == "windows"@ && mode != ExecMode::Live {
        seq!["cmd"@, "/C"@] + cmd
    } else {
        cmd
    }
}

/// Prepares a command for a run. An empty command is refused. Otherwise the
/// command is recorded as the last one, the platform is checked, and the
/// argument vector to spawn is returned.
pub fn prepare_command(settings: &mut Settings, cmd_array: Vec<String>, mode: ExecMode) -> (r:
    Result<Vec<String>, RuntimeErrors>)
    ensures
        cmd_array@.len() == 0 ==> (r matches Err(RuntimeErrors::NoCommandsProvided)
            && *final(settings) == *old(settings)),
        cmd_array@.len() > 0 ==> *final(settings) == (Settings {
            last_command: cmd_array,
            ..*old(settings)
        }),
        cmd_array@.len() > 0 && !is_supported_os(old(settings).os@) ==> (r matches Err(
            RuntimeErrors::NotSupportedOS(Some(m)),
        ) && m@ == old(settings).os@),
        cmd_array@.len() > 0 && is_supported_os(old(settings).os@) ==> (r matches Ok(s) && texts(
            s@,
        ) == spawned_of(old(settings).os@, mode, texts(cmd_array@))),
{
    if cmd_array.len() == 0 {
        return Err(RuntimeErrors::NoCommandsProvided);
    }
    let spawned = cmd_array.clone();
    settings.last_command = cmd_array;
    let os = match check_supported_os(settings) {
        Ok(os) => os,
        Err(e) => {
            return Err(e);
        },
    };
    assert(spawned@.len() > 0);
    if same_text(os.as_str(), "windows") {
        match mode {
            ExecMode::Live => Ok(spawned),
            _ => {
                let mut v = vec![String::from_str("cmd"), String::from_str("/C")];
                let mut i: usize = 0;
                while i < spawned.len()
                    invariant
                        i <= spawned@.len(),
                        texts(v@) == seq!["cmd"@, "/C"@] + texts(spawned@).take(i as int),
                    decreases spawned@.len() - i,
                {
                    let ghost prev = v@;
                    v.push(spawned[i].clone());
                    assert(texts(v@) =~= texts(prev).push(spawned@[i as int]@));
                    assert(texts(spawned@).take(i as int + 1) =~= texts(spawned@).take(
                        i as int,
                    ).push(spawned@[i as int]@));
                    i += 1;
                }
                assert(texts(spawned@).take(i as int) =~= texts(spawned@));
                Ok(v)
            },
        }
    } else {
        Ok(spawned)
    }
}

/// The command that opens the settings file in the platform's file viewer;
/// only Windows has one.
pub fn open_cache_command(settings: &Settings, cache_path: &str) -> (r: Result<
    Vec<String>,
    RuntimeErrors,
>)
    ensures
        settings.os@ == "windows"@ ==> (r matches Ok(c) && texts(c@) == seq![
            "explorer"@,
            cache_path@,
        ]),
        settings.os@ != "windows"@ ==> (r matches Err(RuntimeErrors::NotSupportedOS(Some(m)))
            && m@ == settings.os@),
{
    if same_text(settings.os.as_str(), "windows") {
        let c = vec![String::from_str("explorer"), String::from_str(cache_path)];
        assert(texts(c@) =~= seq!["explorer"@, cache_path@]);
        Ok(c)
    } else {
        Err(RuntimeErrors::NotSupportedOS(Some(settings.os.clone())))
    }
}

/// Whether a character ends a line.
pub open spec fn is_line_end(c: char) -> bool {
    c == '\r' || c == '\n'
}

/// A text without its trailing line-ending characters.
pub open spec fn trimmed_line_ends(s: Seq<char>) -> Seq<char>
    decreases s.len(),
{
    if s.len() > 0 && is_line_end(s.last()) {
        trimmed_line_ends(s.drop_last())
    } else {
        s
    }
}

/// Removes every trailing `\r` and `\n`.
pub fn trim_line_endings(s: &str) -> (r: String)
    ensures
        r@ == trimmed_line_ends(s@),
{
    let mut k = s.unicode_len();
    assert(s@.take(k as int) =~= s@);
    while k > 0 && is_line_end_char(s.get_char(k - 1))
        invariant
            k <= s@.len(),
            trimmed_line_ends(s@) == trimmed_line_ends(s@.take(k as int)),
        decreases k,
    {
        assert(s@.take(k as int).drop_last() =~= s@.take(k as int - 1));
        k -= 1;
    }
    if k > 0 {
        assert(!is_line_end(s@.take(k as int).last()));
    }
    let r = s.substring_char(0, k);
    assert(r@ =~= s@.take(k as int));
    String::from_str(r)
}

fn is_line_end_char(c: char) -> (r: bool)
    ensures
        r == is_line_end(c),
{
    c == '\r' || c == '\n'
}

/// What a captured run hands back: its trimmed output when it succeeded,
/// else a fixed notice.
pub open spec fn result_text(stdout: Seq<char>, success: bool) -> Seq<char> {
    if success {
        trimmed_line_ends(stdout)
    } else {
        "Command failed with error. Check logs for more information."@
    }
}

/// What a directly captured run hands back.
pub fn process_output(stdout: &str, success: bool) -> (r: String)
    ensures
        r@ == result_text(stdout@, success),
{
    if success {
        trim_line_endings(stdout)
    } else {
        String::from_str("Command failed with error. Check logs for more information.")
    }
}

/// The position of the first `\n` of a text, or its length.
pub open spec fn line_end_at(s: Seq<char>, k: int) -> bool {
    0 <= k <= s.len() && (k == s.len() || s[k] == '\n') && forall|j: int|
        0 <= j < k ==> #[trigger] s[j] != '\n'
}

/// The first line of a text: up to its first `\n`, without a `\r` that ends it.
pub open spec fn first_line_of(s: Seq<char>, k: int) -> Seq<char> {
    let line = s.take(k);
    if line.len() > 0 && line.last() == '\r' {
        line.drop_last()
    } else {
        line
    }
}

/// The first line of a text.
pub fn first_line(s: &str) -> (r: String)
    ensures
        exists|k: int| line_end_at(s@, k) && r@ == first_line_of(s@, k),
{
    let n = s.unicode_len();
    let mut k: usize = 0;
    while k < n && s.get_char(k) != '\n'
        invariant
            n == s@.len(),
            k <= n,
            forall|j: int| 0 <= j < k ==> #[trigger] s@[j] != '\n',
        decreases n - k,
    {
        k += 1;
    }
    assert(line_end_at(s@, k as int));
    let mut e = k;
    if k > 0 && s.get_char(k - 1) == '\r' {
        e = k - 1;
    }
    let r = s.substring_char(0, e);
    assert(r@ =~= first_line_of(s@, k as int));
    String::from_str(r)
}

} // verus!
