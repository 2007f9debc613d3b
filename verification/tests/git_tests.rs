use linear_cli::git::{
    choose_branch_name, dash_non_alphanumeric, detect_step, generate_branch_name, generate_jj_description, get_vcs,
    squeeze_dashes, truncate_slug, Detection, Vcs, VcsError, VcsProbe,
};

#[test]
fn branch_name_is_identifier_and_slug() {
    assert_eq!(generate_branch_name("LIN-123", "Fix the login bug"), "lin-123/fix-the-login-bug");
    assert_eq!(generate_branch_name("ENG-7", "  Hello,   World!  "), "eng-7/hello-world");
    assert_eq!(generate_branch_name("ENG-7", "--a--b--"), "eng-7/a-b");
    assert_eq!(generate_branch_name("ENG-7", ""), "eng-7/");
    assert_eq!(generate_branch_name("ENG-7", "!!!"), "eng-7/");
    assert_eq!(generate_branch_name("x", "Größe ändern"), "x/größe-ändern");
}

#[test]
fn branch_name_cuts_the_slug_at_fifty_characters() {
    let title = "a".repeat(60);
    assert_eq!(generate_branch_name("LIN-1", &title), format!("lin-1/{}", "a".repeat(50)));
    let title = format!("{} {}", "a".repeat(49), "b".repeat(10));
    assert_eq!(generate_branch_name("LIN-1", &title), format!("lin-1/{}", "a".repeat(49)));
    let title = format!("{} {}", "a".repeat(48), "b".repeat(10));
    assert_eq!(generate_branch_name("LIN-1", &title), format!("lin-1/{}-b", "a".repeat(48)));
    let title = "a".repeat(50);
    assert_eq!(generate_branch_name("LIN-1", &title), format!("lin-1/{}", "a".repeat(50)));
}

#[test]
fn branch_name_cuts_the_slug_at_fifty_bytes() {
    // Each of these letters takes two bytes.
    let title = "é".repeat(30);
    assert_eq!(generate_branch_name("x", &title), format!("x/{}", "é".repeat(25)));
    let title = format!("a{}", "é".repeat(30));
    assert_eq!(generate_branch_name("x", &title), format!("x/a{}", "é".repeat(24)));
    let title = "é".repeat(25);
    assert_eq!(generate_branch_name("x", &title), format!("x/{}", "é".repeat(25)));
    assert_eq!(truncate_slug("éé-é", 3), "é");
    assert_eq!(truncate_slug("éé-é", 5), "éé");
    assert_eq!(truncate_slug("€uro", 2), "");
}

#[test]
fn slug_steps_have_exact_results() {
    assert_eq!(dash_non_alphanumeric("a b_c.d9"), "a-b-c-d9");
    assert_eq!(squeeze_dashes("--a---b-c--"), "a-b-c");
    assert_eq!(squeeze_dashes("abc"), "abc");
    assert_eq!(squeeze_dashes("---"), "");
    assert_eq!(truncate_slug("abc-def", 4), "abc");
    assert_eq!(truncate_slug("abc-def", 5), "abc-d");
    assert_eq!(truncate_slug("abc-def", 7), "abc-def");
    assert_eq!(truncate_slug("abc-def", 0), "");
    assert_eq!(truncate_slug("a---b", 4), "a");
}

#[test]
fn jj_description_has_headline_and_trailers() {
    assert_eq!(
        generate_jj_description("LIN-5", "Add cache", "https://linear.app/x/LIN-5"),
        "LIN-5: Add cache\n\nLinear-Issue: LIN-5\nLinear-URL: https://linear.app/x/LIN-5"
    );
}

#[test]
fn vcs_flag_wins_over_detection() {
    assert_eq!(get_vcs(Some(Vcs::Git), Some(Vcs::Jj)), Ok(Vcs::Git));
    assert_eq!(get_vcs(Some(Vcs::Jj), None), Ok(Vcs::Jj));
    assert_eq!(get_vcs(None, Some(Vcs::Jj)), Ok(Vcs::Jj));
    assert_eq!(get_vcs(None, None), Err(VcsError::NotARepository));
    assert_eq!(VcsError::NotARepository.message(), "Not in a git or jj repository");
    assert_eq!(Vcs::Git.name(), "git");
    assert_eq!(Vcs::Jj.name(), "jj");
}

#[test]
fn detection_probes_jj_before_git() {
    assert_eq!(VcsProbe::first(), VcsProbe::JjDirectory);
    assert_eq!(detect_step(VcsProbe::JjDirectory, true), Detection::Found(Vcs::Jj));
    assert_eq!(detect_step(VcsProbe::JjDirectory, false), Detection::Try(VcsProbe::JjStatus));
    assert_eq!(detect_step(VcsProbe::JjStatus, true), Detection::Found(Vcs::Jj));
    assert_eq!(detect_step(VcsProbe::JjStatus, false), Detection::Try(VcsProbe::GitDirectory));
    assert_eq!(detect_step(VcsProbe::GitDirectory, true), Detection::Found(Vcs::Git));
    assert_eq!(detect_step(VcsProbe::GitDirectory, false), Detection::Try(VcsProbe::GitStatus));
    assert_eq!(detect_step(VcsProbe::GitStatus, true), Detection::Found(Vcs::Git));
    assert_eq!(detect_step(VcsProbe::GitStatus, false), Detection::NotARepository);
}

#[test]
fn branch_asked_for_wins_over_named_and_made() {
    assert_eq!(
        choose_branch_name(Some("mine".to_string()), "lin-1-from-service", "LIN-1", "Title"),
        "mine"
    );
    assert_eq!(choose_branch_name(Some(String::new()), "named", "LIN-1", "Title"), "");
    assert_eq!(
        choose_branch_name(None, "lin-1-from-service", "LIN-1", "Title"),
        "lin-1-from-service"
    );
    assert_eq!(choose_branch_name(None, "", "LIN-1", "Some Title"), "lin-1/some-title");
}
