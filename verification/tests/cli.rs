use xtask::cli::{parse, parse_mode, Mode, Opts};

fn args_of(tokens: &[&str]) -> Vec<String> {
    tokens.iter().map(|t| t.to_string()).collect()
}

#[test]
fn parse_serve_alone() {
    assert_eq!(
        parse(&args_of(&["serve"])),
        Some((Opts { no_install: false }, Mode::Serve))
    );
}

#[test]
fn parse_build_alone() {
    assert_eq!(
        parse(&args_of(&["build"])),
        Some((Opts { no_install: false }, Mode::Build))
    );
}

#[test]
fn parse_build_then_flag() {
    assert_eq!(
        parse(&args_of(&["build", "--no-install"])),
        Some((Opts { no_install: true }, Mode::Build))
    );
}

#[test]
fn parse_flag_then_build() {
    assert_eq!(
        parse(&args_of(&["--no-install", "build"])),
        Some((Opts { no_install: true }, Mode::Build))
    );
}

#[test]
fn parse_serve_with_flag_in_either_order() {
    let expected = Some((Opts { no_install: true }, Mode::Serve));
    assert_eq!(parse(&args_of(&["serve", "--no-install"])), expected);
    assert_eq!(parse(&args_of(&["--no-install", "serve"])), expected);
}

#[test]
fn parse_repeated_flag() {
    let expected = Some((Opts { no_install: true }, Mode::Build));
    assert_eq!(parse(&args_of(&["--no-install", "--no-install", "build"])), expected);
    assert_eq!(parse(&args_of(&["--no-install", "build", "--no-install"])), expected);
    assert_eq!(parse(&args_of(&["build", "--no-install", "--no-install"])), expected);
}

#[test]
fn parse_empty_list() {
    assert_eq!(parse(&Vec::new()), None);
}

#[test]
fn parse_without_mode() {
    assert_eq!(parse(&args_of(&["--no-install"])), None);
    assert_eq!(parse(&args_of(&["--no-install", "--no-install"])), None);
    assert_eq!(parse(&args_of(&["deploy"])), None);
    assert_eq!(parse(&args_of(&["--no-install", "deploy"])), None);
}

#[test]
fn parse_unknown_flag_before_mode() {
    assert_eq!(parse(&args_of(&["--bogus", "build"])), None);
    assert_eq!(parse(&args_of(&["--bogus", "serve"])), None);
    assert_eq!(parse(&args_of(&["--no-install", "--bogus", "serve"])), None);
}

#[test]
fn parse_unknown_flag_after_mode() {
    assert_eq!(parse(&args_of(&["build", "--bogus"])), None);
    assert_eq!(parse(&args_of(&["serve", "--no-install", "--bogus"])), None);
    assert_eq!(parse(&args_of(&["--no-install", "serve", "--bogus"])), None);
}

#[test]
fn parse_unknown_flag_alone() {
    assert_eq!(parse(&args_of(&["--bogus"])), None);
}

#[test]
fn parse_token_without_dashes() {
    assert_eq!(parse(&args_of(&["no-install", "build"])), None);
    assert_eq!(parse(&args_of(&["build", "extra"])), None);
}

#[test]
fn parse_two_modes() {
    assert_eq!(parse(&args_of(&["build", "serve"])), None);
    assert_eq!(parse(&args_of(&["serve", "build"])), None);
    assert_eq!(parse(&args_of(&["build", "build"])), None);
    assert_eq!(parse(&args_of(&["build", "--no-install", "serve"])), None);
}

#[test]
fn parse_near_misses() {
    assert_eq!(parse(&args_of(&["Build"])), None);
    assert_eq!(parse(&args_of(&["build "])), None);
    assert_eq!(parse(&args_of(&[" serve"])), None);
    assert_eq!(parse(&args_of(&["serv"])), None);
    assert_eq!(parse(&args_of(&["serves"])), None);
    assert_eq!(parse(&args_of(&[""])), None);
    assert_eq!(parse(&args_of(&["build", ""])), None);
    assert_eq!(parse(&args_of(&["build", "-no-install"])), None);
    assert_eq!(parse(&args_of(&["build", "--no-install=1"])), None);
    assert_eq!(parse(&args_of(&["build", "--NO-INSTALL"])), None);
    assert_eq!(parse(&args_of(&["build", "--"])), None);
    assert_eq!(parse(&args_of(&["bu\u{131}ld"])), None);
}

#[test]
fn parse_long_list_of_flags() {
    let mut args = vec!["--no-install".to_string(); 200];
    assert_eq!(parse(&args), None);
    args.insert(137, "serve".to_string());
    assert_eq!(parse(&args), Some((Opts { no_install: true }, Mode::Serve)));
    args.push("build".to_string());
    assert_eq!(parse(&args), None);
}

#[test]
fn parse_leaves_the_arguments_alone() {
    let args = args_of(&["--no-install", "serve"]);
    let before = args.clone();
    let _ = parse(&args);
    assert_eq!(args, before);
}

#[test]
fn parse_mode_of_each_token() {
    assert_eq!(parse_mode("build"), Some(Mode::Build));
    assert_eq!(parse_mode("serve"), Some(Mode::Serve));
    assert_eq!(parse_mode("--no-install"), None);
    assert_eq!(parse_mode(""), None);
    assert_eq!(parse_mode("builds"), None);
    assert_eq!(parse_mode("BUILD"), None);
}
