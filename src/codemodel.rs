//! The CMake file-API codemodel: where its query and reply live, which reply
//! file holds it, and which targets it lists for a build selection.

use vstd::prelude::*;
use crate::errors::RuntimeErrors;
use crate::project::texts;
use crate::settings::Settings;
use crate::text::{has_prefix, is_windows, join_path, joined, same_text, starts_with_text, windows_os};

verus! {

/// The codemodel reply: its configurations in order.
#[derive(Debug, Clone)]
pub struct CMakeAPIResponse {
    pub configurations: Vec<Configuration>,
}

/// One build configuration (a build type such as `Debug`) and its targets.
#[derive(Debug, Clone)]
pub struct Configuration {
    pub name: String,
    pub targets: Vec<Target>,
}

/// A build target, known by name.
#[derive(Debug, Clone)]
pub struct Target {
    pub name: String,
}

/// The target names of a configuration, in order.
pub open spec fn names_of(c: Configuration) -> Seq<Seq<char>> {
    c.targets@.map_values(|t: Target| t.name@)
}

/// The target names of the configurations, in order; with `filter`, only of
/// those named `build_type`.
pub open spec fn targets_in(cs: Seq<Configuration>, filter: bool, build_type: Seq<char>) -> Seq<
    Seq<char>,
>
    decreases cs.len(),
{
    if cs.len() == 0 {
        seq![]
    } else {
        targets_in(cs.drop_last(), filter, build_type) + if !filter || cs.last().name@
            == build_type {
            names_of(cs.last())
        } else {
            seq![]
        }
    }
}

/// Multi-configuration generators (`nt/msvc`, `make/clang`, `make/gcc`)
/// select targets by build type; single-configuration ones (`unix/clang`,
/// `unix/gcc`) bake it in at configure time and list every target. Any
/// other system type lists none.
pub open spec fn targets_of(r: CMakeAPIResponse, system_type: Seq<char>, build_type: Seq<char>) -> Seq<
    Seq<char>,
> {
    if system_type == "nt/msvc"@ {
        targets_in(r.configurations@, true, build_type)
    } else if system_type == "unix/clang"@ || system_type == "unix/gcc"@ {
        targets_in(r.configurations@, false, build_type)
    } else if system_type == "make/clang"@ || system_type == "make/gcc"@ {
        targets_in(r.configurations@, true, build_type)
    } else {
        seq![]
    }
}

fn collect_targets(cs: &Vec<Configuration>, filter: bool, build_type: &str) -> (r: Vec<String>)
    ensures
        texts(r@) == targets_in(cs@, filter, build_type@),
{
    let mut out: Vec<String> = Vec::new();
    let mut i: usize = 0;
    while i < cs.len()
        invariant
            i <= cs@.len(),
            texts(out@) == targets_in(cs@.take(i as int), filter, build_type@),
        decreases cs@.len() - i,
    {
        let c = &cs[i];
        let ghost before = out@;
        assert(cs@.take(i as int + 1).drop_last() =~= cs@.take(i as int));
        if !filter || same_text(c.name.as_str(), build_type) {
            let mut j: usize = 0;
            while j < c.targets.len()
                invariant
                    i < cs@.len(),
                    *c == cs@[i as int],
                    j <= c.targets@.len(),
                    texts(out@) == texts(before) + names_of(*c).take(j as int),
                decreases c.targets@.len() - j,
            {
                let ghost prev = out@;
                out.push(c.targets[j].name.clone());
                assert(texts(out@) =~= texts(prev).push(c.targets@[j as int].name@));
                assert(names_of(*c).take(j as int + 1) =~= names_of(*c).take(j as int).push(
                    c.targets@[j as int].name@,
                ));
                assert(texts(out@) =~= texts(before) + names_of(*c).take(j as int + 1));
                j += 1;
            }
            assert(names_of(*c).take(j as int) =~= names_of(*c));
        } else {
            assert(texts(out@) =~= texts(before) + seq![]);
        }
        i += 1;
    }
    assert(cs@.take(i as int) =~= cs@);
    out
}

/// The targets that a reply lists for a system type and build type.
pub fn select_targets(response: &CMakeAPIResponse, system_type: &str, build_type: &str) -> (r: Vec<
    String,
>)
    ensures
        texts(r@) == targets_of(*response, system_type@, build_type@),
{
    if same_text(system_type, "nt/msvc") {
        collect_targets(&response.configurations, true, build_type)
    } else if same_text(system_type, "unix/clang") || same_text(system_type, "unix/gcc") {
        collect_targets(&response.configurations, false, build_type)
    } else if same_text(system_type, "make/clang") || same_text(system_type, "make/gcc") {
        collect_targets(&response.configurations, true, build_type)
    } else {
        let r: Vec<String> = Vec::new();
        assert(texts(r@) =~= seq![]);
        r
    }
}

/// The query directory whose presence asks CMake for a codemodel reply.
pub open spec fn query_dir_of(build_dir: Seq<char>, windows: bool) -> Seq<char> {
    joined(build_dir, ".cmake/api/v1/query/codemodel-v2"@, windows)
}

/// The directory where CMake writes its replies.
pub open spec fn reply_dir_of(build_dir: Seq<char>, windows: bool) -> Seq<char> {
    joined(build_dir, ".cmake/api/v1/reply"@, windows)
}

/// The query directory of the settings' build directory.
pub fn codemodel_query_dir(settings: &Settings) -> (r: String)
    ensures
        r@ == query_dir_of(settings.build_dir@, is_windows(settings.os@)),
{
    let w = windows_os(settings.os.as_str());
    join_path(settings.build_dir.as_str(), ".cmake/api/v1/query/codemodel-v2", w)
}

/// The reply directory of the settings' build directory.
pub fn codemodel_reply_dir(settings: &Settings) -> (r: String)
    ensures
        r@ == reply_dir_of(settings.build_dir@, is_windows(settings.os@)),
{
    let w = windows_os(settings.os.as_str());
    join_path(settings.build_dir.as_str(), ".cmake/api/v1/reply", w)
}

/// The reply directory to read targets from. A project whose reply
/// directory does not exist has not been generated: nothing is to be read.
pub fn target_reply_dir(settings: &Settings, reply_exists: bool) -> (r: Result<String, RuntimeErrors>)
    ensures
        !reply_exists ==> r matches Err(RuntimeErrors::CMakeProjectNotGenerated),
        reply_exists ==> (r matches Ok(d) && d@ == reply_dir_of(
            settings.build_dir@,
            is_windows(settings.os@),
        )),
{
    if !reply_exists {
        return Err(RuntimeErrors::CMakeProjectNotGenerated);
    }
    Ok(codemodel_reply_dir(settings))
}

/// Whether a reply file name is that of a codemodel reply; the hash after
/// the prefix is the generator's and is not read.
pub open spec fn is_codemodel_name(name: Seq<char>) -> bool {
    has_prefix(name, "codemodel-v2-"@)
}

/// The position of the first codemodel reply among the entries of a reply
/// directory.
pub fn find_codemodel_file(names: &Vec<String>) -> (r: Option<usize>)
    ensures
        r matches Some(k) ==> k < names@.len() && is_codemodel_name(names@[k as int]@) && forall|
            j: int,
        | 0 <= j < k ==> !is_codemodel_name(#[trigger] names@[j]@),
        r is None ==> forall|j: int|
            0 <= j < names@.len() ==> !is_codemodel_name(#[trigger] names@[j]@),
{
    let mut i: usize = 0;
    while i < names.len()
        invariant
            i <= names@.len(),
            forall|j: int| 0 <= j < i ==> !is_codemodel_name(#[trigger] names@[j]@),
        decreases names@.len() - i,
    {
        if starts_with_text(names[i].as_str(), "codemodel-v2-") {
            return Some(i);
        }
        i += 1;
    }
    None
}

impl Settings {
    /// Caches the targets of a reply for the cached system and build type;
    /// a reply that could not be found, read or parsed leaves no targets.
    pub fn cache_targets(&mut self, response: Option<&CMakeAPIResponse>)
        ensures
            response matches Some(resp) ==> texts(final(self).cmake_targets@) == targets_of(
                *resp,
                old(self).cmake_system_type@,
                old(self).cmake_build_type@,
            ),
            response is None ==> final(self).cmake_targets@.len() == 0,
            *final(self) == (Settings { cmake_targets: final(self).cmake_targets, ..*old(self) }),
    {
        match response {
            Some(resp) => {
                self.cmake_targets = select_targets(
                    resp,
                    self.cmake_system_type.as_str(),
                    self.cmake_build_type.as_str(),
                );
            },
            None => {
                self.cmake_targets = Vec::new();
            },
        }
    }
}

} // verus!
