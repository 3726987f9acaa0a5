use aura::cli::{parse_args, Command, USAGE};

fn args(a: &[&str]) -> Vec<String> {
    a.iter().map(|s| s.to_string()).collect()
}

#[test]
fn no_arguments_are_refused_with_usage() {
    assert_eq!(parse_args(&args(&[])), Command::InvalidWithUsage);
}

#[test]
fn three_arguments_are_refused_with_usage() {
    assert_eq!(parse_args(&args(&["-S", "a", "b"])), Command::InvalidWithUsage);
    assert_eq!(parse_args(&args(&["-Sc", "-Sc", "-Sc", "-Sc"])), Command::InvalidWithUsage);
}

#[test]
fn install_takes_the_trimmed_name() {
    assert_eq!(
        parse_args(&args(&["-S", "  visual-studio-code-bin \n"])),
        Command::Install("visual-studio-code-bin".to_string())
    );
    assert_eq!(parse_args(&args(&["-S", "yay"])), Command::Install("yay".to_string()));
}

#[test]
fn install_trims_unicode_white_space() {
    assert_eq!(
        parse_args(&args(&["-S", "\u{3000}\tpkg\u{a0}\u{2028}"])),
        Command::Install("pkg".to_string())
    );
    assert_eq!(parse_args(&args(&["-S", " a b "])), Command::Install("a b".to_string()));
}

#[test]
fn install_with_blank_name_gives_empty_name() {
    assert_eq!(parse_args(&args(&["-S", "   "])), Command::Install(String::new()));
}

#[test]
fn two_arguments_without_install_flag_are_refused() {
    assert_eq!(parse_args(&args(&["-Sc", "pkg"])), Command::Invalid);
    assert_eq!(parse_args(&args(&[" -S", "pkg"])), Command::Invalid);
}

#[test]
fn install_flag_alone_asks_for_a_name() {
    assert_eq!(parse_args(&args(&["-S"])), Command::MissingName);
}

#[test]
fn both_clean_spellings_are_accepted() {
    assert_eq!(parse_args(&args(&["-Sc"])), Command::CleanCache);
    assert_eq!(parse_args(&args(&["-Scc"])), Command::CleanCache);
}

#[test]
fn both_help_spellings_are_accepted() {
    assert_eq!(parse_args(&args(&["--help"])), Command::Help);
    assert_eq!(parse_args(&args(&["-h"])), Command::Help);
}

#[test]
fn unknown_single_argument_is_refused() {
    assert_eq!(parse_args(&args(&["-x"])), Command::UnknownFlag);
    assert_eq!(parse_args(&args(&["-s"])), Command::UnknownFlag);
    assert_eq!(parse_args(&args(&[""])), Command::UnknownFlag);
    assert_eq!(parse_args(&args(&[" -Sc"])), Command::UnknownFlag);
}

#[test]
fn usage_names_both_commands() {
    assert!(USAGE.contains("aura -S visual-studio-code-bin"));
    assert!(USAGE.contains("aura -Sc"));
}
