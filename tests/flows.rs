use aura::cleanup::{confirms_removal, folded_reply, is_decline, CleanStep, Cleanup};
use aura::install::{fetch_args, fetch_command_line, Install, InstallStep, MIRROR_URL};
use aura::text::{is_space, trim};

#[test]
fn fetch_is_a_shallow_clone_of_one_branch() {
    assert_eq!(
        fetch_args("yay"),
        vec!["clone", "--branch", "yay", "--single-branch", MIRROR_URL, "yay"]
    );
    assert_eq!(MIRROR_URL, "https://github.com/archlinux/aur.git");
}

#[test]
fn fetch_line_spells_the_clone() {
    assert_eq!(
        fetch_command_line("yay"),
        "git clone --branch yay --single-branch https://github.com/archlinux/aur.git yay"
    );
}

#[test]
fn install_runs_its_steps_in_order() {
    let mut i = Install::new("/home/u/.cache/aura", "yay");
    assert_eq!(i.package_dir, "/home/u/.cache/aura/yay");
    assert_eq!(i.step, InstallStep::CreateRoot);
    i.advance(true);
    assert_eq!(i.step, InstallStep::Fetch);
    i.advance(true);
    assert_eq!(i.step, InstallStep::CheckPackageDir);
    i.advance(true);
    assert_eq!(i.step, InstallStep::Build);
    assert!(!i.is_over());
    i.advance(true);
    assert_eq!(i.step, InstallStep::Finish);
    assert!(i.is_over());
    i.advance(false);
    assert_eq!(i.step, InstallStep::Finish);
}

#[test]
fn install_uses_trimmed_name_for_fetch_and_build() {
    let name = trim("  yay\t");
    let i = Install::new("/c", &name);
    assert_eq!(i.fetch_args[2], "yay");
    assert_eq!(i.fetch_args[5], "yay");
    assert_eq!(i.package_dir, "/c/yay");
}

#[test]
fn missing_package_dir_ends_in_success_without_build() {
    let mut i = Install::new("/c", "nope");
    i.advance(true);
    i.advance(true);
    i.advance(false);
    assert_eq!(i.step, InstallStep::Finish);
    i.advance(true);
    assert_eq!(i.step, InstallStep::Finish);
}

#[test]
fn fetch_that_cannot_start_is_reported_and_the_check_follows() {
    let mut i = Install::new("/c", "pkg");
    i.advance(true);
    i.advance(false);
    assert_eq!(i.step, InstallStep::ReportFetchFailure);
    i.advance(true);
    assert_eq!(i.step, InstallStep::CheckPackageDir);
    i.advance(true);
    assert_eq!(i.step, InstallStep::Build);
    assert_eq!(i.package_dir, "/c/pkg");
}

#[test]
fn root_that_cannot_be_made_fails_install() {
    let mut i = Install::new("/c", "pkg");
    i.advance(false);
    assert_eq!(i.step, InstallStep::Fail);
    assert!(i.is_over());
}

#[test]
fn build_that_cannot_start_fails_install() {
    let mut i = Install::new("/c", "pkg");
    for _ in 0..3 {
        i.advance(true);
    }
    i.advance(false);
    assert_eq!(i.step, InstallStep::Fail);
}

#[test]
fn missing_cache_root_is_nothing_to_clean() {
    let mut c = Cleanup::new("/c");
    assert_eq!(c.step, CleanStep::CheckRoot);
    c.advance(false);
    assert_eq!(c.step, CleanStep::NothingToClean);
    c.advance(true);
    assert_eq!(c.step, CleanStep::Finish);
    assert!(c.is_over());
}

fn at_question() -> Cleanup {
    let mut c = Cleanup::new("/c");
    c.advance(true);
    c.advance(true);
    assert_eq!(c.step, CleanStep::Ask);
    c
}

#[test]
fn declined_removal_keeps_the_cache() {
    for reply in ["n", "N", "n\n", "  N \r\n"] {
        let mut c = at_question();
        c.answer(reply);
        assert_eq!(c.step, CleanStep::Finish);
    }
}

#[test]
fn any_other_reply_removes_the_cache() {
    for reply in ["", "\n", "y", "Y", "yes", "no", "nn", "x"] {
        let mut c = at_question();
        c.answer(reply);
        assert_eq!(c.step, CleanStep::Remove);
        c.advance(true);
        assert_eq!(c.step, CleanStep::ReportRemoved);
        c.advance(true);
        assert_eq!(c.step, CleanStep::Finish);
    }
}

#[test]
fn unread_reply_fails_cleanup() {
    let mut c = at_question();
    c.advance(false);
    assert_eq!(c.step, CleanStep::Fail);
}

#[test]
fn usage_report_that_cannot_start_fails_cleanup() {
    let mut c = Cleanup::new("/c");
    c.advance(true);
    c.advance(false);
    assert_eq!(c.step, CleanStep::Fail);
}

#[test]
fn removal_that_cannot_start_fails_cleanup() {
    let mut c = at_question();
    c.answer("y");
    c.advance(false);
    assert_eq!(c.step, CleanStep::Fail);
}

#[test]
fn upper_case_n_declines_after_lowering() {
    assert!(!confirms_removal("N"));
    assert!(!confirms_removal(" n "));
    assert!(confirms_removal("Y"));
}

#[test]
fn only_a_lone_n_declines() {
    assert!(is_decline("n"));
    assert!(!is_decline("N"));
    assert!(!is_decline("no"));
    assert!(!is_decline(""));
}

#[test]
fn trim_removes_white_space_at_both_ends_only() {
    assert_eq!(trim(" \t a b \n"), "a b");
    assert_eq!(trim(""), "");
    assert_eq!(trim("\u{85}x\u{205f}"), "x");
    assert_eq!(trim("x"), "x");
}

#[test]
fn folded_reply_is_trimmed_and_lower_case() {
    assert_eq!(folded_reply("  YeS \n"), "yes");
    assert_eq!(folded_reply("N\n"), "n");
    assert_eq!(folded_reply("\n"), "");
}

#[test]
fn white_space_characters_agree_with_std() {
    for c in ['\t', '\n', '\u{b}', '\u{c}', '\r', ' ', '\u{85}', '\u{a0}', '\u{1680}', '\u{2000}',
        '\u{200a}', '\u{2028}', '\u{2029}', '\u{202f}', '\u{205f}', '\u{3000}'] {
        assert!(is_space(c));
        assert!(c.is_whitespace());
    }
    for c in ['a', '\u{8}', '\u{e}', '\u{200b}', '\u{feff}', '\u{180e}', '_'] {
        assert!(!is_space(c));
        assert_eq!(is_space(c), c.is_whitespace());
    }
}
