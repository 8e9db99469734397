use massrebuild::{file_to_drv, StdenvFrom, Stdenvs, System};

const STDENV_OUTPUT: &str = "warning: dumping very large path\n/nix/store/9v2xhw1sqv8hbx2ijbkqvxbbsr4bm4rm-stdenv-linux.drv\n";

fn eval_ok(s: &str) -> Result<String, String> {
    Ok(s.to_string())
}

#[test]
fn stdenv_checking() {
    let system = System::X8664Linux.label();
    assert_eq!(system, "x86_64-linux");
    let mut stdenv = Stdenvs::new(String::from(
        "/nix/var/nix/profiles/per-user/root/channels/nixos/nixpkgs",
    ));
    let linux = eval_ok(STDENV_OUTPUT);
    let darwin = Err(String::from("error: daemon not reachable"));
    stdenv.identify(System::X8664Linux, StdenvFrom::Before, &linux);
    stdenv.identify(System::X8664Darwin, StdenvFrom::Before, &darwin);

    stdenv.identify(System::X8664Linux, StdenvFrom::After, &linux);
    stdenv.identify(System::X8664Darwin, StdenvFrom::After, &darwin);

    assert!(stdenv.are_same());
}

#[test]
fn single_drv_line_is_extracted() {
    assert_eq!(
        file_to_drv(STDENV_OUTPUT),
        Some(String::from(
            "/nix/store/9v2xhw1sqv8hbx2ijbkqvxbbsr4bm4rm-stdenv-linux.drv"
        ))
    );
}

#[test]
fn drv_line_without_trailing_newline() {
    assert_eq!(
        file_to_drv("/nix/store/abc-stdenv.drv"),
        Some(String::from("/nix/store/abc-stdenv.drv"))
    );
}

#[test]
fn crlf_line_ending_is_dropped() {
    assert_eq!(
        file_to_drv("noise\r\n/nix/store/abc-stdenv.drv\r\nmore\r\n"),
        Some(String::from("/nix/store/abc-stdenv.drv"))
    );
}

#[test]
fn no_drv_line_gives_none() {
    assert_eq!(file_to_drv(""), None);
    assert_eq!(file_to_drv("\n\n"), None);
    assert_eq!(file_to_drv("/nix/store/abc-source\n/tmp/x.drv\n"), None);
    assert_eq!(file_to_drv(" /nix/store/abc.drv\n"), None);
}

#[test]
fn two_drv_lines_give_none() {
    assert_eq!(
        file_to_drv("/nix/store/a-stdenv.drv\n/nix/store/b-stdenv.drv\n"),
        None
    );
}

#[test]
fn shortest_drv_line() {
    assert_eq!(
        file_to_drv("/nix/store/.drv"),
        Some(String::from("/nix/store/.drv"))
    );
    assert_eq!(file_to_drv("/nix/store.drv"), None);
}

#[test]
fn failed_evaluation_gives_no_snapshot() {
    assert_eq!(
        Stdenvs::evalstdenv(&Err(String::from("/nix/store/a-stdenv.drv\n"))),
        None
    );
    assert_eq!(
        Stdenvs::evalstdenv(&eval_ok("/nix/store/a-stdenv.drv\n")),
        Some(String::from("/nix/store/a-stdenv.drv"))
    );
}

#[test]
fn changed_lists_platforms_whose_snapshot_differs() {
    let mut s = Stdenvs::new(String::from("/tmp/co"));
    s.identify_before(
        &eval_ok("/nix/store/a-stdenv.drv\n"),
        &eval_ok("/nix/store/d-stdenv.drv\n"),
    );
    s.identify_after(
        &eval_ok("/nix/store/b-stdenv.drv\n"),
        &eval_ok("/nix/store/d-stdenv.drv\n"),
    );
    assert_eq!(s.changed(), vec![System::X8664Linux]);
    assert!(!s.are_same());
    assert_eq!(
        s.snapshot(System::X8664Linux, StdenvFrom::After),
        Some(String::from("/nix/store/b-stdenv.drv"))
    );
}

#[test]
fn absent_snapshot_differs_from_present_one() {
    let mut s = Stdenvs::new(String::from("/tmp/co"));
    s.identify_before(&Err(String::new()), &eval_ok("/nix/store/d-stdenv.drv\n"));
    s.identify_after(&eval_ok("/nix/store/a-stdenv.drv\n"), &Err(String::new()));
    assert_eq!(s.changed(), vec![System::X8664Linux, System::X8664Darwin]);
    assert!(!s.are_same());
}

#[test]
fn two_absent_snapshots_count_as_unchanged() {
    let mut s = Stdenvs::new(String::from("/tmp/co"));
    s.identify_before(&Err(String::new()), &Err(String::new()));
    s.identify_after(&Err(String::new()), &Err(String::new()));
    assert!(s.changed().is_empty());
    assert!(s.are_same());
}

#[test]
fn platform_labels() {
    assert_eq!(System::X8664Darwin.label(), "x86_64-darwin");
    let probe = Stdenvs::probe();
    assert_eq!(probe.cli_cmd(), "nix-instantiate . -A stdenv");
}
