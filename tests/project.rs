use cpm::errors::RuntimeErrors;
use cpm::project::{
    blank, build_command, check_build_type, clean_code, generate_preset, install_command,
    parse_clean_code, removal_outcome, system_type_choice, BuildArgs, CleanTargets, Removal,
};
use cpm::settings::Settings;

fn strings(v: &[&str]) -> Vec<String> {
    v.iter().map(|s| s.to_string()).collect()
}

fn settings(os: &str) -> Settings {
    Settings::new(
        os.to_string(),
        "Linux".to_string(),
        "6.1".to_string(),
        "/opt/cpm/cpm".to_string(),
        "/opt/cpm".to_string(),
    )
}

fn args(debug: bool, release: bool) -> BuildArgs {
    BuildArgs {
        debug_build_type: debug,
        release_build_type: release,
        generate_project: None,
        build_project: false,
        install_project: false,
        clean_project: None,
        source_targets: false,
    }
}

#[test]
fn unix_gcc_preset_is_fixed() {
    for _ in 0..3 {
        let v = generate_preset("unix/gcc", "/src", "/build", "").unwrap();
        assert_eq!(
            v,
            strings(&[
                "cmake",
                "-S",
                "/src",
                "-B",
                "/build",
                "-G",
                "Ninja",
                "-DCMAKE_C_COMPILER=gcc",
                "-DCMAKE_CXX_COMPILER=g++"
            ])
        );
    }
}

#[test]
fn other_presets() {
    assert_eq!(
        generate_preset("unix/clang", "s", "b", "").unwrap(),
        strings(&[
            "cmake",
            "-S",
            "s",
            "-B",
            "b",
            "-G",
            "Ninja",
            "-DCMAKE_C_COMPILER=clang",
            "-DCMAKE_CXX_COMPILER=clang++"
        ])
    );
    assert_eq!(
        generate_preset("make/gcc", "s", "b", "").unwrap(),
        strings(&[
            "cmake",
            "-S",
            "s",
            "-B",
            "b",
            "-G",
            "Unix Makefiles",
            "-DCMAKE_C_COMPILER=gcc",
            "-DCMAKE_CXX_COMPILER=g++"
        ])
    );
    assert_eq!(
        generate_preset("make/clang", "s", "b", "").unwrap()[6],
        "Unix Makefiles".to_string()
    );
    assert_eq!(
        generate_preset("nt/msvc", "C:\\p", "C:\\p\\Build", "C:\\vcpkg\\v.cmake").unwrap(),
        strings(&[
            "cmake",
            "-S",
            "C:\\p",
            "-B",
            "C:\\p\\Build",
            "-G",
            "Visual Studio 17 2022",
            "-DCMAKE_TOOLCHAIN_FILE=C:\\vcpkg\\v.cmake"
        ])
    );
}

#[test]
fn msvc_needs_a_toolchain() {
    let r = generate_preset("nt/msvc", "/src", "/build", "");
    assert!(matches!(r, Err(RuntimeErrors::GenerateProjectNtMsvcNoToolchain)));
}

#[test]
fn unknown_system_type_is_refused() {
    match generate_preset("ms/dos", "/src", "/build", "") {
        Err(RuntimeErrors::GenerateProjectInvalidSystemType(Some(s))) => assert_eq!(s, "ms/dos"),
        other => panic!("unexpected {:?}", other),
    }
}

#[test]
fn build_and_install_commands() {
    assert_eq!(
        build_command("/p/build", "Debug"),
        strings(&["cmake", "--build", "/p/build", "--config", "Debug"])
    );
    let mut s = settings("linux");
    s.build_dir = "/p/build".to_string();
    s.install_dir = "/p/install".to_string();
    assert_eq!(
        install_command(&s, "Release"),
        strings(&[
            "cmake",
            "--install",
            "/p/build",
            "--prefix",
            "/p/install/Linux/Release",
            "--config",
            "Release",
            "-v"
        ])
    );
    let mut w = settings("windows");
    w.os_release = "Windows".to_string();
    w.build_dir = "C:\\p\\Build".to_string();
    w.install_dir = "C:\\p\\Install".to_string();
    assert_eq!(install_command(&w, "Debug")[4], "C:\\p\\Install\\Windows\\Debug");
}

#[test]
fn build_type_flags() {
    assert!(matches!(check_build_type(&args(false, false)), Err(RuntimeErrors::BuildTypeNotSet)));
    assert!(matches!(check_build_type(&args(true, true)), Err(RuntimeErrors::BuildTypeBothSet)));
    assert_eq!(check_build_type(&args(true, false)).unwrap(), "Debug");
    assert_eq!(check_build_type(&args(false, true)).unwrap(), "Release");
}

#[test]
fn clean_codes_select_directories() {
    assert_eq!(parse_clean_code("b").unwrap(), CleanTargets { build: true, install: false });
    assert_eq!(parse_clean_code("i").unwrap(), CleanTargets { build: false, install: true });
    assert_eq!(parse_clean_code("bi").unwrap(), CleanTargets { build: true, install: true });
    assert_eq!(parse_clean_code("iib").unwrap(), CleanTargets { build: true, install: true });
    assert_eq!(parse_clean_code("").unwrap(), CleanTargets { build: false, install: false });
}

#[test]
fn clean_code_reports_first_bad_char() {
    assert!(matches!(parse_clean_code("bxy"), Err(RuntimeErrors::InvalidCleanCommand('x'))));
    assert!(matches!(parse_clean_code("Bi"), Err(RuntimeErrors::InvalidCleanCommand('B'))));
    assert!(matches!(parse_clean_code("i b"), Err(RuntimeErrors::InvalidCleanCommand(' '))));
}

#[test]
fn clean_option_defaults_to_both() {
    assert_eq!(clean_code(&None), None);
    assert_eq!(clean_code(&Some(None)).unwrap(), "bi");
    assert_eq!(clean_code(&Some(Some("  \t".to_string()))).unwrap(), "bi");
    assert_eq!(clean_code(&Some(Some("b".to_string()))).unwrap(), "b");
    assert!(blank("\u{3000} \n"));
    assert!(!blank(" x "));
}

#[test]
fn clean_twice_is_quiet() {
    // first clean: both directories exist and are removed
    assert_eq!(removal_outcome(true, false), Removal::Removed);
    // second clean: both are gone, and each is skipped without an error
    assert_eq!(removal_outcome(false, true), Removal::Missing);
    assert_ne!(removal_outcome(false, true), Removal::Failed);
    assert_eq!(removal_outcome(false, false), Removal::Failed);
}

#[test]
fn generate_caches_the_selection() {
    let mut s = settings("linux");
    s.working_dir = "/p".to_string();
    s.build_dir = "/p/build".to_string();
    let v = s.generate_cmake_project("unix/clang", "Debug").unwrap();
    assert_eq!(s.cmake_system_type, "unix/clang");
    assert_eq!(s.cmake_build_type, "Debug");
    assert_eq!(s.last_cmake_configuration_command, v);
    assert_eq!(s.last_configure_command().unwrap(), v);

    let mut t = settings("windows");
    assert!(matches!(
        t.generate_cmake_project("nt/msvc", "Debug"),
        Err(RuntimeErrors::GenerateProjectNtMsvcNoToolchain)
    ));
    assert_eq!(t.cmake_system_type, "");
    assert!(t.last_configure_command().is_none());
    t.cache_build_type("Release");
    assert_eq!(t.cmake_build_type, "Release");
}

#[test]
fn generate_choice() {
    assert_eq!(system_type_choice(&None), None);
    assert_eq!(system_type_choice(&Some(" ".to_string())), None);
    assert_eq!(system_type_choice(&Some("unix/gcc".to_string())).unwrap(), "unix/gcc");
}
