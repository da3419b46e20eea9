use cpm::errors::RuntimeErrors;
use cpm::install::{Config, MultiOSConfig, WindowsConfig};
use cpm::settings::Settings;
use cpm::setup::{check_toolchain, select_os, setup_action, Detection, SetupAction, SetupArgs};

fn on(os: &str) -> Settings {
    Settings::new(os.to_string(), String::new(), String::new(), String::new(), String::new())
}

fn args(platform: Option<&str>, toolchain: Option<&str>, auto: bool) -> SetupArgs {
    SetupArgs {
        toolchain: toolchain.map(|t| t.to_string()),
        auto_toolchain_path: auto,
        no_toolchain_path: false,
        use_toolchain_path: None,
        skip_package_configurations: false,
        no_deps_check: false,
        force_package_install: false,
        platform: platform.map(|p| p.to_string()),
    }
}

fn config(toolchain: Option<&str>) -> Config {
    Config {
        os_target: "windows".to_string(),
        config: MultiOSConfig {
            windows: toolchain.map(|t| WindowsConfig {
                prerequisites: vec![],
                toolchain: t.to_string(),
                packages: vec![],
                post_install: vec![],
            }),
            linux: None,
            macos: None,
        },
    }
}

#[test]
fn platform_selection() {
    assert_eq!(select_os(&args(None, None, false), &on("windows")).unwrap(), "windows");
    assert_eq!(select_os(&args(Some("windows"), None, false), &on("linux")).unwrap(), "windows");
    match select_os(&args(Some("linux"), None, false), &on("windows")) {
        Err(RuntimeErrors::NotSupportedOS(Some(m))) => assert_eq!(m, "linux"),
        other => panic!("unexpected {:?}", other),
    }
    assert!(matches!(select_os(&args(None, None, false), &on("macos")), Err(RuntimeErrors::NotSupportedOS(Some(_)))));
}

#[test]
fn setup_actions() {
    match setup_action(&args(None, Some("C:/tools/vcpkg/\\"), true)) {
        SetupAction::UseToolchain(p) => assert_eq!(p, "C:/tools/vcpkg"),
        other => panic!("unexpected {:?}", other),
    }
    assert!(matches!(setup_action(&args(None, None, true)), SetupAction::AutoDetect));
    assert!(matches!(setup_action(&args(None, None, false)), SetupAction::Done));
}

#[test]
fn vcpkg_toolchain_file() {
    let mut s = on("windows");
    assert!(matches!(check_toolchain(&s), Ok(None)));
    s.set_toolchain_path("C:/tools/vcpkg".to_string());
    assert_eq!(
        check_toolchain(&s).unwrap().unwrap(),
        "C:\\tools\\vcpkg\\scripts\\buildsystems\\vcpkg.cmake"
    );
    let mut l = on("linux");
    l.set_toolchain_path("/opt/vcpkg".to_string());
    assert_eq!(check_toolchain(&l).unwrap().unwrap(), "/opt/vcpkg/scripts/buildsystems/vcpkg.cmake");
}

#[test]
fn unknown_toolchain_family() {
    let mut s = on("windows");
    s.set_toolchain_path("C:\\tools\\conan".to_string());
    match check_toolchain(&s) {
        Err(RuntimeErrors::ToolchainNotFound(n)) => assert_eq!(n, "conan"),
        other => panic!("unexpected {:?}", other),
    }
}

#[test]
fn toolchain_file_presence() {
    let mut s = on("windows");
    assert!(s.accept_toolchain_file("C:\\v\\scripts\\buildsystems\\vcpkg.cmake".to_string(), true).is_ok());
    assert_eq!(s.vcpkg_path, "C:\\v\\scripts\\buildsystems\\vcpkg.cmake");
    let mut t = on("windows");
    match t.accept_toolchain_file("x".to_string(), false) {
        Err(RuntimeErrors::ToolchainNotFound(n)) => assert_eq!(n, "VCPKG"),
        other => panic!("unexpected {:?}", other),
    }
    assert_eq!(t.vcpkg_path, "");
}

#[test]
fn detection_first_step() {
    let mut cached = on("windows");
    cached.toolchain_path = "C:\\vcpkg".to_string();
    assert!(matches!(cached.begin_toolchain_detection(&config(None)), Ok(Detection::Cached)));
    assert!(cached.using_toolchain);

    let mut none = on("windows");
    none.using_toolchain = true;
    assert!(matches!(none.begin_toolchain_detection(&config(Some(""))), Ok(Detection::Disabled)));
    assert!(!none.using_toolchain);

    let mut w = on("windows");
    match w.begin_toolchain_detection(&config(Some("vcpkg"))) {
        Ok(Detection::Locate(c)) => assert_eq!(c, vec!["where".to_string(), "vcpkg".to_string()]),
        other => panic!("unexpected {:?}", other),
    }

    let mut missing = on("windows");
    match missing.begin_toolchain_detection(&config(None)) {
        Err(RuntimeErrors::ConfigParseError(Some(m))) => assert_eq!(m, "Windows"),
        other => panic!("unexpected {:?}", other),
    }

    let mut l = on("linux");
    assert!(matches!(l.begin_toolchain_detection(&config(Some("vcpkg"))), Err(RuntimeErrors::NotSupportedOS(Some(_)))));
}

#[test]
fn detection_second_step() {
    let mut s = on("windows");
    assert!(s.accept_located_toolchain("C:/tools/vcpkg/vcpkg.exe"));
    assert_eq!(s.toolchain_path, "C:\\tools\\vcpkg");
    assert!(s.using_toolchain);
    let mut t = on("windows");
    t.using_toolchain = true;
    assert!(!t.accept_located_toolchain(""));
    assert!(!t.using_toolchain);
    assert_eq!(t.toolchain_path, "");
}
