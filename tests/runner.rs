use cpm::cmd::{check_supported_os, open_cache_command, first_line, prepare_command, process_output, trim_line_endings, ExecMode};
use cpm::errors::RuntimeErrors;
use cpm::settings::Settings;

fn on(os: &str) -> Settings {
    Settings::new(os.to_string(), String::new(), String::new(), String::new(), String::new())
}

fn strings(v: &[&str]) -> Vec<String> {
    v.iter().map(|s| s.to_string()).collect()
}

#[test]
fn supported_platforms() {
    assert_eq!(check_supported_os(&on("linux")).unwrap(), "linux");
    assert_eq!(check_supported_os(&on("windows")).unwrap(), "windows");
    match check_supported_os(&on("macos")) {
        Err(RuntimeErrors::NotSupportedOS(Some(m))) => assert_eq!(m, "macos"),
        other => panic!("unexpected {:?}", other),
    }
}

#[test]
fn empty_command_is_refused() {
    let mut s = on("windows");
    assert!(matches!(prepare_command(&mut s, vec![], ExecMode::Live), Err(RuntimeErrors::NoCommandsProvided)));
    assert!(s.last_command.is_empty());
}

#[test]
fn windows_commands() {
    let mut s = on("windows");
    let c = strings(&["cmake", "--version"]);
    assert_eq!(prepare_command(&mut s, c.clone(), ExecMode::Live).unwrap(), c);
    assert_eq!(s.last_command, c);
    assert_eq!(
        prepare_command(&mut s, strings(&["where", "git"]), ExecMode::Capture).unwrap(),
        strings(&["cmd", "/C", "where", "git"])
    );
    assert_eq!(s.last_command, strings(&["where", "git"]));
}

#[test]
fn linux_and_other_commands() {
    let mut s = on("linux");
    let c = strings(&["dpkg", "-l"]);
    assert_eq!(prepare_command(&mut s, c.clone(), ExecMode::Capture).unwrap(), c);
    assert_eq!(prepare_command(&mut s, c.clone(), ExecMode::Live).unwrap(), c);
    assert_eq!(prepare_command(&mut s, c.clone(), ExecMode::Quiet).unwrap(), c);
    let mut m = on("macos");
    assert!(matches!(prepare_command(&mut m, c.clone(), ExecMode::Display), Err(RuntimeErrors::NotSupportedOS(Some(_)))));
    assert_eq!(m.last_command, c);
}

#[test]
fn output_trimming() {
    assert_eq!(trim_line_endings("C:\\vcpkg\\vcpkg.exe\r\n"), "C:\\vcpkg\\vcpkg.exe");
    assert_eq!(trim_line_endings("a\n\r\n\n"), "a");
    assert_eq!(trim_line_endings("\r\n"), "");
    assert_eq!(trim_line_endings("a\nb"), "a\nb");
    assert_eq!(process_output("out\n", true), "out");
    assert_eq!(process_output("out\n", false), "Command failed with error. Check logs for more information.");
}

#[test]
fn first_lines() {
    assert_eq!(first_line("cmake version 3.28.1\r\n\r\nCMake suite maintained"), "cmake version 3.28.1");
    assert_eq!(first_line("one"), "one");
    assert_eq!(first_line(""), "");
    assert_eq!(first_line("\nx"), "");
}

#[test]
fn opening_the_cache() {
    assert_eq!(
        open_cache_command(&on("windows"), "C:\\cpm\\settings.json").unwrap(),
        strings(&["explorer", "C:\\cpm\\settings.json"])
    );
    match open_cache_command(&on("linux"), "/opt/cpm/settings.json") {
        Err(RuntimeErrors::NotSupportedOS(Some(m))) => assert_eq!(m, "linux"),
        other => panic!("unexpected {:?}", other),
    }
}
