use cpm::errors::RuntimeErrors;
use cpm::install::{
    check_package_install, check_post_install, default_config, check_prerequisite, package_install_command,
    package_installed, package_list_command, post_install_step, prerequisite_probe, vcpkg_exe,
    Package, PostInstall,
};
use cpm::settings::Settings;

fn strings(v: &[&str]) -> Vec<String> {
    v.iter().map(|s| s.to_string()).collect()
}

fn with_toolchain() -> Settings {
    let mut s = Settings::new("windows".to_string(), String::new(), String::new(), String::new(), String::new());
    s.toolchain_path = "C:\\vcpkg".to_string();
    s
}

fn fmt() -> Package {
    Package { library: "fmt".to_string(), triplet: "x64-windows".to_string() }
}

#[test]
fn prerequisite_probes() {
    assert_eq!(prerequisite_probe("cmake"), strings(&["cmake", "--version"]));
    assert_eq!(prerequisite_probe("cargo"), strings(&["cargo", "--version"]));
    assert_eq!(prerequisite_probe("ninja"), strings(&["where", "ninja"]));
}

#[test]
fn prerequisite_outputs() {
    assert_eq!(
        check_prerequisite("cmake", "cmake version 3.29.0\n\nCMake suite maintained").unwrap(),
        "cmake version 3.29.0"
    );
    assert_eq!(check_prerequisite("ninja", "C:\\bin\\ninja.exe").unwrap(), "C:\\bin\\ninja.exe");
    match check_prerequisite("git", "") {
        Err(RuntimeErrors::PrerequisiteNotFound(Some(n))) => assert_eq!(n, "git"),
        other => panic!("unexpected {:?}", other),
    }
}

#[test]
fn package_commands() {
    let s = with_toolchain();
    assert_eq!(vcpkg_exe(&s), "C:\\vcpkg\\vcpkg.exe");
    assert_eq!(package_list_command(&s), strings(&["C:\\vcpkg\\vcpkg.exe", "list"]));
    assert_eq!(
        package_install_command(&s, &fmt()),
        strings(&["C:\\vcpkg\\vcpkg.exe", "install", "fmt", "--triplet=x64-windows"])
    );
}

#[test]
fn package_presence_and_install() {
    assert!(package_installed("boost 1.0\nfmt:x64-windows 10.2\n", &fmt()));
    assert!(!package_installed("boost 1.0\n", &fmt()));
    assert!(!package_installed("", &fmt()));
    assert!(check_package_install(&fmt(), "done").is_ok());
    match check_package_install(&fmt(), "") {
        Err(RuntimeErrors::PackageInstallFailed(Some(l))) => assert_eq!(l, "fmt"),
        other => panic!("unexpected {:?}", other),
    }
}

#[test]
fn post_install_actions() {
    let s = with_toolchain();
    match post_install_step(&s, "vcpkg_integrate_install") {
        PostInstall::Run(c) => assert_eq!(c, strings(&["C:\\vcpkg\\vcpkg.exe", "integrate", "install"])),
        other => panic!("unexpected {:?}", other),
    }
    match post_install_step(&s, "reboot") {
        PostInstall::Undefined(RuntimeErrors::PostInstallNoDefinition(Some(m))) => assert_eq!(m, "reboot"),
        other => panic!("unexpected {:?}", other),
    }
    assert!(check_post_install("vcpkg_integrate_install", "Applied user-wide integration").is_ok());
    assert!(matches!(
        check_post_install("vcpkg_integrate_install", ""),
        Err(RuntimeErrors::PostInstallFailed(Some(_)))
    ));
}

#[test]
fn default_descriptor() {
    let c = default_config();
    assert_eq!(c.os_target, "windows");
    let w = c.config.windows.unwrap();
    assert_eq!(w.prerequisites, strings(&["cmake", "git"]));
    assert_eq!(w.toolchain, "vcpkg");
    assert!(w.packages.is_empty());
    assert_eq!(w.post_install, strings(&["vcpkg_integrate_install"]));
    let l = c.config.linux.unwrap();
    assert_eq!(l.dependencies, strings(&["cmake", "git"]));
    assert_eq!(l.toolchain, "");
    assert_eq!(c.config.macos.unwrap().tools, strings(&["cmake", "git"]));
}
