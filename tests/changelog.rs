use changelog_gen::changelog::{release_header, Args, ClassifyError, CommitMessageParts, SanitizedInfo};
use changelog_gen::commit::{Commit, CommitInfo};
use changelog_gen::date::{format_date, LocalDate};
use changelog_gen::render::render_body;
use changelog_gen::splice::splice_bytes;
use changelog_gen::text::capitalize;

fn commit(sha: &str, message: &str) -> Commit {
    Commit {
        sha: sha.to_string(),
        commit: CommitInfo { message: message.to_string(), ..Default::default() },
        ..Default::default()
    }
}

fn args(org: &str, repo: &str, target: &str) -> Args {
    Args {
        org: org.to_string(),
        repo: repo.to_string(),
        file_path: "CHANGELOG.md".to_string(),
        target_version: target.to_string(),
        sha: "main".to_string(),
    }
}

fn info(commits: Vec<Commit>) -> SanitizedInfo {
    SanitizedInfo { commits }
}

fn messages(i: &SanitizedInfo) -> Vec<String> {
    i.commits.iter().map(|c| c.commit.message.clone()).collect()
}

fn date(year: i32, month: u32, day: u32) -> LocalDate {
    LocalDate { year, month, day }
}

#[test]
fn test_capitalize() {
    assert_eq!(capitalize("this is a test"), "This is a test");
}

#[test]
fn capitalize_empty_single_and_multi() {
    assert_eq!(capitalize(""), "");
    assert_eq!(capitalize("f"), "F");
    assert_eq!(capitalize("fix"), "Fix");
    assert_eq!(capitalize("Feat"), "Feat");
}

#[test]
fn capitalize_uses_unicode_upper_case() {
    assert_eq!(capitalize("été"), "Été");
    assert_eq!(capitalize("ßa"), "SSa");
    assert_eq!(capitalize("1x"), "1x");
}

#[test]
fn boundary_without_marker_keeps_everything() {
    let mut i = info(vec![commit("a1", "feat: a (#1)"), commit("b2", "fix: b (#2)"), commit("c3", "docs: c (#3)")]);
    i.extract_commits();
    assert_eq!(messages(&i), vec!["feat: a (#1)", "fix: b (#2)", "docs: c (#3)"]);
}

#[test]
fn boundary_empty_history() {
    let mut i = info(vec![]);
    i.extract_commits();
    assert!(i.commits.is_empty());
}

#[test]
fn boundary_single_marker_keeps_prefix() {
    let mut i = info(vec![
        commit("a1", "feat: a (#1)"),
        commit("b2", "fix: b (#2)"),
        commit("c3", "chore(release): v1.0.0"),
        commit("d4", "feat: old (#0)"),
    ]);
    i.extract_commits();
    assert_eq!(messages(&i), vec!["feat: a (#1)", "fix: b (#2)"]);
}

#[test]
fn boundary_marker_first_keeps_nothing() {
    let mut i = info(vec![commit("c3", "chore(release): v1.0.0"), commit("a1", "feat: a (#1)")]);
    i.extract_commits();
    assert!(i.commits.is_empty());
}

#[test]
fn boundary_stops_at_first_of_several_markers() {
    let mut i = info(vec![
        commit("a1", "feat: a (#1)"),
        commit("c3", "chore(release): v1.1.0"),
        commit("b2", "fix: b (#2)"),
        commit("c4", "chore(release): v1.0.0"),
    ]);
    i.extract_commits();
    assert_eq!(messages(&i), vec!["feat: a (#1)"]);
}

#[test]
fn boundary_ignores_other_chore_commits() {
    let mut i = info(vec![commit("a1", "chore(deps): bump (#5)"), commit("b2", "chore: release (#6)")]);
    i.extract_commits();
    assert_eq!(i.commits.len(), 2);
}

#[test]
fn classify_feat_with_scope() {
    let i = info(vec![]);
    let c = commit("abcdef1234", "feat(api): add new endpoint (#123)");
    assert_eq!(i.extract_prefix(&c), Ok("feat".to_string()));
    let parts = i.extract_message_parts(&c).ok().unwrap();
    assert_eq!(parts.message, "add new endpoint");
    assert_eq!(parts.pr_num, "123");
}

#[test]
fn classify_without_scope_and_with_body() {
    let i = info(vec![]);
    let c = commit("abc", "fix: handle it  twice (#7)\n\nlonger body (#99)");
    assert_eq!(i.extract_prefix(&c), Ok("fix".to_string()));
    let parts = i.extract_message_parts(&c).ok().unwrap();
    assert_eq!(parts.message, "handle it  twice");
    assert_eq!(parts.pr_num, "7");
}

#[test]
fn classify_crlf_first_line() {
    let i = info(vec![]);
    let c = commit("abc", "docs: readme (#8)\r\nbody");
    let parts = i.extract_message_parts(&c).ok().unwrap();
    assert_eq!(parts.message, "readme");
    assert_eq!(parts.pr_num, "8");
}

#[test]
fn classify_missing_separator() {
    let i = info(vec![]);
    let c = commit("abc", "update readme (#4)");
    assert_eq!(i.extract_prefix(&c), Err(ClassifyError::MissingSeparator));
}

#[test]
fn classify_missing_pr_reference() {
    let i = info(vec![]);
    for m in ["feat: add thing", "feat: add thing (#)", "feat: add thing (#12a)", "feat: add (#12", "feat:(#12)", "feat: add thing #12"] {
        let c = commit("abc", m);
        assert!(matches!(i.extract_message_parts(&c), Err(ClassifyError::MissingPrReference)), "{}", m);
    }
}

#[test]
fn pr_and_sha_links() {
    let i = info(vec![]);
    let a = args("acme", "widget", "v1.1.0");
    assert_eq!(i.create_pr_link(&a, &"42".to_string()), "https://github.com/acme/widget/pull/42");
    assert_eq!(i.create_sha_link(&a, &"abcdef123".to_string()), "https://github.com/acme/widget/commit/abcdef123");
}

#[test]
fn commit_line_shape() {
    let i = info(vec![]);
    let a = args("acme", "widget", "v1.1.0");
    let parts = CommitMessageParts { pr_num: "42".to_string(), message: "handle null case".to_string() };
    let c = commit("abcdef1234567", "fix(core): handle null case (#42)");
    assert_eq!(
        i.create_commit(&a, &parts, &c),
        "- handle null case ([#42](https://github.com/acme/widget/pull/42)) ([abcdef1](https://github.com/acme/widget/commit/abcdef1234567))\n"
    );
}

#[test]
fn commit_line_short_hash_kept_whole() {
    let i = info(vec![]);
    let a = args("o", "r", "v1.0.0");
    let parts = CommitMessageParts { pr_num: "1".to_string(), message: "x".to_string() };
    let c = commit("abc", "fix: x (#1)");
    assert_eq!(i.create_commit(&a, &parts, &c), "- x ([#1](https://github.com/o/r/pull/1)) ([abc](https://github.com/o/r/commit/abc))\n");
}

#[test]
fn dates_are_zero_padded() {
    assert_eq!(format_date(&date(2024, 3, 5)), "2024-03-05");
    assert_eq!(format_date(&date(1999, 12, 31)), "1999-12-31");
    assert_eq!(format_date(&date(7, 1, 1)), "0007-01-01");
    assert_eq!(format_date(&date(12345, 1, 1)), "+12345-01-01");
    assert_eq!(format_date(&date(-44, 3, 15)), "-0044-03-15");
}

#[test]
fn header_shape() {
    let a = args("acme", "widget", "v1.1.0");
    assert_eq!(
        release_header(&"v1.0.0".to_string(), &a, &date(2024, 3, 5)),
        "\n## [1.1.0](https://github.com/acme/widget/compare/v1.0.0..v1.1.0)(2024-03-05)\n"
    );
}

#[test]
fn header_dated_today() {
    let i = info(vec![]);
    let a = args("acme", "widget", "v2.0.0");
    let h = i.create_release_header(&"v1.0.0".to_string(), &a);
    let prefix = "\n## [2.0.0](https://github.com/acme/widget/compare/v1.0.0..v2.0.0)(";
    assert!(h.starts_with(prefix));
    assert!(h.ends_with(")\n"));
    assert_eq!(h.len(), prefix.len() + 10 + 2);
}

#[test]
fn merge_puts_blank_line() {
    let i = info(vec![]);
    assert_eq!(i.merge_changelog_contents(&"H\n".to_string(), &"B".to_string()), "H\n\nB");
}

fn pair(c: &str, l: &str) -> (String, String) {
    (c.to_string(), l.to_string())
}

#[test]
fn body_groups_in_first_seen_order() {
    let entries = vec![pair("fix", "- a\n"), pair("feat", "- b\n"), pair("fix", "- c\n"), pair("docs", "- d\n")];
    assert_eq!(render_body(&entries), "## Fix\n\n- a\n- c\n\n## Feat\n\n- b\n\n## Docs\n\n- d\n\n");
}

#[test]
fn body_of_nothing_is_empty() {
    assert_eq!(render_body(&vec![]), "");
}

#[test]
fn rendering_twice_is_identical() {
    let entries = vec![pair("feat", "- x\n"), pair("chore", "- y\n"), pair("feat", "- z\n")];
    assert_eq!(render_body(&entries), render_body(&entries.clone()));
    let i = info(vec![commit("abcdef1234", "feat(api): add new endpoint (#123)"), commit("1234567890", "fix: bug (#9)")]);
    let a = args("acme", "widget", "v1.1.0");
    let t = "v1.0.0".to_string();
    let d = date(2025, 6, 1);
    assert_eq!(i.render_changelog(&a, &t, &d), i.render_changelog(&a, &t, &d));
}

#[test]
fn render_changelog_exact() {
    let i = info(vec![
        commit("abcdef1234", "feat(api): add new endpoint (#123)"),
        commit("1234567890", "fix: bug (#9)"),
        commit("0987654321", "feat: more (#10)\n\nbody"),
    ]);
    let a = args("acme", "widget", "v1.1.0");
    let out = i.render_changelog(&a, &"v1.0.0".to_string(), &date(2025, 6, 1)).ok().unwrap();
    let expected = "\n## [1.1.0](https://github.com/acme/widget/compare/v1.0.0..v1.1.0)(2025-06-01)\n\n\
## Feat\n\n\
- add new endpoint ([#123](https://github.com/acme/widget/pull/123)) ([abcdef1](https://github.com/acme/widget/commit/abcdef1234))\n\
- more ([#10](https://github.com/acme/widget/pull/10)) ([0987654](https://github.com/acme/widget/commit/0987654321))\n\n\
## Fix\n\n\
- bug ([#9](https://github.com/acme/widget/pull/9)) ([1234567](https://github.com/acme/widget/commit/1234567890))\n\n";
    assert_eq!(out, expected);
}

#[test]
fn render_changelog_reports_first_bad_commit() {
    let a = args("acme", "widget", "v1.1.0");
    let d = date(2025, 6, 1);
    let t = "v1.0.0".to_string();
    let i = info(vec![commit("a", "feat: ok (#1)"), commit("b", "no separator here"), commit("c", "fix: no pr")]);
    assert_eq!(i.render_changelog(&a, &t, &d), Err(ClassifyError::MissingSeparator));
    let j = info(vec![commit("a", "feat: ok (#1)"), commit("c", "fix: no pr"), commit("b", "no separator here")]);
    assert_eq!(j.render_changelog(&a, &t, &d), Err(ClassifyError::MissingPrReference));
}

#[test]
fn end_to_end_fix_since_release() {
    let mut i = info(vec![
        commit("abcdef1234567890", "fix(core): handle null case (#42)"),
        commit("123456a7890abcd", "chore(release): v1.0.0"),
    ]);
    let a = args("acme", "widget", "v1.1.0");
    let out = i.create_changelog_contents(&a, &"v1.0.0".to_string()).ok().unwrap();
    assert_eq!(i.commits.len(), 1);
    let head = "\n## [1.1.0](https://github.com/acme/widget/compare/v1.0.0..v1.1.0)(";
    assert!(out.starts_with(head));
    let rest = &out[head.len()..];
    assert_eq!(&rest[10..], ")\n\n## Fix\n\n- handle null case ([#42](https://github.com/acme/widget/pull/42)) ([abcdef1](https://github.com/acme/widget/commit/abcdef1234567890))\n\n");
    let day = &rest[..10];
    assert_eq!(day.as_bytes()[4], b'-');
    assert_eq!(day.as_bytes()[7], b'-');
}

#[test]
fn splice_inserts_after_offset() {
    let contents = b"# Changelog\n\nold".to_vec();
    let out = splice_bytes(&contents, 12, &b"NEW\n".to_vec()).unwrap();
    assert_eq!(out, b"# Changelog\nNEW\n\nold".to_vec());
    assert_eq!(splice_bytes(&contents, 16, &b"x".to_vec()).unwrap(), b"# Changelog\n\noldx".to_vec());
    assert_eq!(splice_bytes(&contents, 17, &b"x".to_vec()), None);
}

#[test]
fn classify_empty_summary() {
    let i = info(vec![]);
    let c = commit("abc", "fix: (#9)");
    let parts = i.extract_message_parts(&c).ok().unwrap();
    assert_eq!(parts.message, "");
    assert_eq!(parts.pr_num, "9");
}
