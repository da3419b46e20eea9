use cpm::errors::RuntimeErrors;
use cpm::settings::Settings;

fn on(os: &str) -> Settings {
    Settings::new(
        os.to_string(),
        String::new(),
        String::new(),
        "/opt/cpm/cpm".to_string(),
        "/opt/cpm".to_string(),
    )
}

#[test]
fn working_dir_must_differ_from_exe_dir() {
    let mut s = on("linux");
    match s.set_working_dir("/opt/cpm".to_string()) {
        Err(RuntimeErrors::WorkingDirSameAsExePath(w, x)) => {
            assert_eq!(w, "/opt/cpm");
            assert_eq!(x, "/opt/cpm");
        }
        other => panic!("unexpected {:?}", other),
    }
    assert_eq!(s.working_dir, "");
    assert!(s.set_working_dir("/home/me/proj".to_string()).is_ok());
    assert_eq!(s.working_dir, "/home/me/proj");
}

#[test]
fn project_layout() {
    let mut s = on("linux");
    s.set_working_dir("/home/me/proj".to_string()).unwrap();
    s.set_build_dir();
    s.set_install_dir();
    assert_eq!(s.build_dir, "/home/me/proj/build");
    assert_eq!(s.install_dir, "/home/me/proj/install");
    assert_eq!(s.descriptor_path(), "/home/me/proj/cpm_install.json");
    assert!(s.mark_initialized().is_ok());
    assert!(s.initialized);

    let mut w = on("windows");
    w.set_working_dir("C:\\proj".to_string()).unwrap();
    w.set_build_dir();
    w.set_install_dir();
    assert_eq!(w.build_dir, "C:\\proj\\Build");
    assert_eq!(w.install_dir, "C:\\proj\\Install");
}

#[test]
fn entrypoints() {
    let mut s = on("linux");
    s.working_dir = "/p".to_string();
    let (path, text) = s.entrypoint().unwrap();
    assert_eq!(path, "/p/cpm.sh");
    assert_eq!(text, "#!/bin/bash\n/opt/cpm/cpm --no-init $@");
    let mut w = on("windows");
    w.working_dir = "C:\\p".to_string();
    w.exe_path = "C:\\cpm\\cpm.exe".to_string();
    let (path, text) = w.entrypoint().unwrap();
    assert_eq!(path, "C:\\p\\cpm.bat");
    assert_eq!(text, "@echo off\nC:\\cpm\\cpm.exe --no-init %*");
    assert!(matches!(on("macos").entrypoint(), Err(RuntimeErrors::NotSupportedOS(Some(_)))));
}

#[test]
fn init_refuses_a_project_around_the_executable() {
    // the executable lives in what would become the build directory
    let mut s = Settings::new(
        "linux".to_string(),
        String::new(),
        String::new(),
        "/p/build/cpm".to_string(),
        "/p/build".to_string(),
    );
    s.set_working_dir("/p".to_string()).unwrap();
    s.set_build_dir();
    s.set_install_dir();
    match s.mark_initialized() {
        Err(RuntimeErrors::WorkingDirSameAsExePath(d, x)) => {
            assert_eq!(d, "/p/build");
            assert_eq!(x, "/p/build");
        }
        other => panic!("unexpected {:?}", other),
    }
    assert!(!s.initialized);
}

#[test]
fn init_needs_every_directory() {
    let mut s = on("linux");
    s.set_working_dir("/home/me/proj".to_string()).unwrap();
    assert!(matches!(s.mark_initialized(), Err(RuntimeErrors::ProjectNotInitialized)));
    assert!(!s.initialized);
}
