//! The persisted settings document and its access by key.

use vstd::prelude::*;
use crate::text::same_text;

verus! {

/// The state kept between invocations: where the tool runs, the project it
/// is bound to, the toolchain in use, and the cached build selection.
#[derive(Debug, Clone)]
pub struct Settings {
    pub os: String,
    pub os_release: String,
    pub os_version: String,
    pub exe_path: String,
    pub exe_dir: String,
    pub working_dir: String,
    pub initialized: bool,
    pub install_json_path: String,
    pub build_dir: String,
    pub install_dir: String,
    pub using_toolchain: bool,
    pub toolchain_path: String,
    /// The vcpkg CMake toolchain file, `<toolchain_path>/scripts/buildsystems/vcpkg.cmake`.
    pub vcpkg_path: String,
    pub cmake_system_type: String,
    pub cmake_build_type: String,
    pub last_cmake_configuration_command: Vec<String>,
    pub last_command: Vec<String>,
    pub cmake_targets: Vec<String>,
}

/// The text of a flag as the settings document shows it.
pub open spec fn bool_text(b: bool) -> Seq<char> {
    if b {
        "true"@
    } else {
        "false"@
    }
}

/// Whether `key` names a field of the document.
pub open spec fn is_key(key: Seq<char>) -> bool {
    is_value_key(key) || key == "last_cmake_configuration_command"@ || key == "last_command"@
        || key == "cmake_targets"@
}

/// Whether `key` names a field that can be read and written as text; the
/// cached command vectors and targets are locked.
pub open spec fn is_value_key(key: Seq<char>) -> bool {
    key == "os"@ || key == "os_release"@ || key == "os_version"@ || key == "exe_path"@
        || key == "exe_dir"@ || key == "working_dir"@ || key == "install_json_path"@
        || key == "build_dir"@ || key == "install_dir"@ || key == "using_toolchain"@
        || key == "toolchain_path"@ || key == "vcpkg_path"@ || key == "cmake_system_type"@
        || key == "cmake_build_type"@
}

impl Settings {
    /// The text value under `key`, if `key` is readable.
    pub open spec fn value_of(self, key: Seq<char>) -> Option<Seq<char>> {
        if key == "os"@ {
            Some(self.os@)
        } else if key == "os_release"@ {
            Some(self.os_release@)
        } else if key == "os_version"@ {
            Some(self.os_version@)
        } else if key == "exe_path"@ {
            Some(self.exe_path@)
        } else if key == "exe_dir"@ {
            Some(self.exe_dir@)
        } else if key == "working_dir"@ {
            Some(self.working_dir@)
        } else if key == "install_json_path"@ {
            Some(self.install_json_path@)
        } else if key == "build_dir"@ {
            Some(self.build_dir@)
        } else if key == "install_dir"@ {
            Some(self.install_dir@)
        } else if key == "using_toolchain"@ {
            Some(bool_text(self.using_toolchain))
        } else if key == "toolchain_path"@ {
            Some(self.toolchain_path@)
        } else if key == "vcpkg_path"@ {
            Some(self.vcpkg_path@)
        } else if key == "cmake_system_type"@ {
            Some(self.cmake_system_type@)
        } else if key == "cmake_build_type"@ {
            Some(self.cmake_build_type@)
        } else {
            None
        }
    }

    /// The document with the field under `key` set from `value`; the flag
    /// `using_toolchain` becomes true exactly when `value` is `true`.
    pub open spec fn with_value(self, key: Seq<char>, value: String) -> Settings {
        if key == "os"@ {
            Settings { os: value, ..self }
        } else if key == "os_release"@ {
            Settings { os_release: value, ..self }
        } else if key == "os_version"@ {
            Settings { os_version: value, ..self }
        } else if key == "exe_path"@ {
            Settings { exe_path: value, ..self }
        } else if key == "exe_dir"@ {
            Settings { exe_dir: value, ..self }
        } else if key == "working_dir"@ {
            Settings { working_dir: value, ..self }
        } else if key == "install_json_path"@ {
            Settings { install_json_path: value, ..self }
        } else if key == "build_dir"@ {
            Settings { build_dir: value, ..self }
        } else if key == "install_dir"@ {
            Settings { install_dir: value, ..self }
        } else if key == "using_toolchain"@ {
            Settings { using_toolchain: value@ == "true"@, ..self }
        } else if key == "toolchain_path"@ {
            Settings { toolchain_path: value, ..self }
        } else if key == "vcpkg_path"@ {
            Settings { vcpkg_path: value, ..self }
        } else if key == "cmake_system_type"@ {
            Settings { cmake_system_type: value, ..self }
        } else if key == "cmake_build_type"@ {
            Settings { cmake_build_type: value, ..self }
        } else {
            self
        }
    }

    /// A fresh document for an executable: the environment fields as given,
    /// every project field empty and `initialized` false.
    pub fn new(
        os: String,
        os_release: String,
        os_version: String,
        exe_path: String,
        exe_dir: String,
    ) -> (r: Settings)
        ensures
            r.os == os,
            r.os_release == os_release,
            r.os_version == os_version,
            r.exe_path == exe_path,
            r.exe_dir == exe_dir,
            r.working_dir@.len() == 0,
            !r.initialized,
            r.install_json_path@.len() == 0,
            r.build_dir@.len() == 0,
            r.install_dir@.len() == 0,
            !r.using_toolchain,
            r.toolchain_path@.len() == 0,
            r.vcpkg_path@.len() == 0,
            r.cmake_system_type@.len() == 0,
            r.cmake_build_type@.len() == 0,
            r.last_cmake_configuration_command@.len() == 0,
            r.last_command@.len() == 0,
            r.cmake_targets@.len() == 0,
    {
        Settings {
            os,
            os_release,
            os_version,
            exe_path,
            exe_dir,
            working_dir: String::new(),
            initialized: false,
            install_json_path: String::new(),
            build_dir: String::new(),
            install_dir: String::new(),
            using_toolchain: false,
            toolchain_path: String::new(),
            vcpkg_path: String::new(),
            cmake_system_type: String::new(),
            cmake_build_type: String::new(),
            last_cmake_configuration_command: Vec::new(),
            last_command: Vec::new(),
            cmake_targets: Vec::new(),
        }
    }

    /// The value under `key` as text; `None` for an unknown or locked key.
    pub fn get_value(&self, key: &str) -> (r: Option<String>)
        ensures
            r matches Some(v) ==> self.value_of(key@) == Some(v@),
            r is None ==> self.value_of(key@) is None,
            r is Some <==> is_value_key(key@),
    {
        if same_text(key, "os") {
            Some(self.os.clone())
        } else if same_text(key, "os_release") {
            Some(self.os_release.clone())
        } else if same_text(key, "os_version") {
            Some(self.os_version.clone())
        } else if same_text(key, "exe_path") {
            Some(self.exe_path.clone())
        } else if same_text(key, "exe_dir") {
            Some(self.exe_dir.clone())
        } else if same_text(key, "working_dir") {
            Some(self.working_dir.clone())
        } else if same_text(key, "install_json_path") {
            Some(self.install_json_path.clone())
        } else if same_text(key, "build_dir") {
            Some(self.build_dir.clone())
        } else if same_text(key, "install_dir") {
            Some(self.install_dir.clone())
        } else if same_text(key, "using_toolchain") {
            if self.using_toolchain {
                Some(String::from_str("true"))
            } else {
                Some(String::from_str("false"))
            }
        } else if same_text(key, "toolchain_path") {
            Some(self.toolchain_path.clone())
        } else if same_text(key, "vcpkg_path") {
            Some(self.vcpkg_path.clone())
        } else if same_text(key, "cmake_system_type") {
            Some(self.cmake_system_type.clone())
        } else if same_text(key, "cmake_build_type") {
            Some(self.cmake_build_type.clone())
        } else {
            None
        }
    }

    /// Sets the field under `key` from `value`. An unknown or locked key
    /// leaves the document as it was and yields `Key not found`.
    pub fn set_value(&mut self, key: &str, value: String) -> (r: Result<(), String>)
        ensures
            r is Ok <==> is_value_key(key@),
            r is Ok ==> *final(self) == old(self).with_value(key@, value),
            r matches Err(m) ==> m@ == "Key not found"@ && *final(self) == *old(self),
    {
        if same_text(key, "os") {
            self.os = value;
        } else if same_text(key, "os_release") {
            self.os_release = value;
        } else if same_text(key, "os_version") {
            self.os_version = value;
        } else if same_text(key, "exe_path") {
            self.exe_path = value;
        } else if same_text(key, "exe_dir") {
            self.exe_dir = value;
        } else if same_text(key, "working_dir") {
            self.working_dir = value;
        } else if same_text(key, "install_json_path") {
            self.install_json_path = value;
        } else if same_text(key, "build_dir") {
            self.build_dir = value;
        } else if same_text(key, "install_dir") {
            self.install_dir = value;
        } else if same_text(key, "using_toolchain") {
            self.using_toolchain = same_text(value.as_str(), "true");
        } else if same_text(key, "toolchain_path") {
            self.toolchain_path = value;
        } else if same_text(key, "vcpkg_path") {
            self.vcpkg_path = value;
        } else if same_text(key, "cmake_system_type") {
            self.cmake_system_type = value;
        } else if same_text(key, "cmake_build_type") {
            self.cmake_build_type = value;
        } else {
            return Err(String::from_str("Key not found"));
        }
        Ok(())
    }

    /// Whether `key` names a field of the document, locked or not.
    pub fn contains_key(&self, key: &str) -> (r: bool)
        ensures
            r == is_key(key@),
    {
        same_text(key, "os") || same_text(key, "os_release") || same_text(key, "os_version")
            || same_text(key, "exe_path") || same_text(key, "exe_dir") || same_text(
            key,
            "working_dir",
        ) || same_text(key, "install_json_path") || same_text(key, "build_dir") || same_text(
            key,
            "install_dir",
        ) || same_text(key, "using_toolchain") || same_text(key, "toolchain_path") || same_text(
            key,
            "vcpkg_path",
        ) || same_text(key, "cmake_system_type") || same_text(key, "cmake_build_type")
            || same_text(key, "last_cmake_configuration_command") || same_text(
            key,
            "last_command",
        ) || same_text(key, "cmake_targets")
    }

    /// The text that `cache --print <key>` shows: the value under a known
    /// key, `None` for a locked one, and nothing for an unknown key.
    pub fn cache_entry(&self, key: &str) -> (r: Option<String>)
        ensures
            !is_key(key@) ==> r is None,
            is_key(key@) ==> (r matches Some(t) && match self.value_of(key@) {
                Some(v) => t@ == v,
                None => t@ == "None"@,
            }),
    {
        if !self.contains_key(key) {
            return None;
        }
        match self.get_value(key) {
            Some(v) => Some(v),
            None => Some(String::from_str("None")),
        }
    }
}

/// Reading a key after setting it gives back what was set: the value itself,
/// or for `using_toolchain` the text of whether the value was `true`.
pub proof fn lemma_set_then_get(s: Settings, key: Seq<char>, value: String)
    requires
        is_value_key(key),
    ensures
        key != "using_toolchain"@ ==> s.with_value(key, value).value_of(key) == Some(value@),
        key == "using_toolchain"@ ==> s.with_value(key, value).value_of(key) == Some(
            bool_text(value@ == "true"@),
        ),
{
    if key == "using_toolchain"@ {
        reveal_strlit("using_toolchain");
        reveal_strlit("os");
        reveal_strlit("os_release");
        reveal_strlit("os_version");
        reveal_strlit("exe_path");
        reveal_strlit("exe_dir");
        reveal_strlit("working_dir");
        reveal_strlit("install_json_path");
        reveal_strlit("build_dir");
        reveal_strlit("install_dir");
        assert(key.len() == 15);
        assert("os"@.len() == 2);
        assert("os_release"@.len() == 10);
        assert("os_version"@.len() == 10);
        assert("exe_path"@.len() == 8);
        assert("exe_dir"@.len() == 7);
        assert("working_dir"@.len() == 11);
        assert("install_json_path"@.len() == 17);
        assert("build_dir"@.len() == 9);
        assert("install_dir"@.len() == 11);
    }
}

} // verus!
