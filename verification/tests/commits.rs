use cargo_semantic_release::{
    classify_commits, evaluate_changes, is_gitmoji_commit_message, Changes, ConventionalCommit,
    NonConventionalCommit, SemanticVersion,
};

fn conventional(message: &str) -> ConventionalCommit {
    ConventionalCommit {
        message: message.to_string(),
    }
}

#[test]
fn gitmoji_code_at_the_start_is_recognised() {
    assert!(is_gitmoji_commit_message(":sparkles: add a feature"));
    assert!(is_gitmoji_commit_message(":boom:"));
    assert!(is_gitmoji_commit_message(":money_with_wings: sponsor"));
}

#[test]
fn leading_whitespace_before_the_code_is_allowed() {
    assert!(is_gitmoji_commit_message("  \t\n:bug: fix"));
    assert!(is_gitmoji_commit_message("\u{3000}\u{a0}:memo: docs"));
}

#[test]
fn code_elsewhere_than_the_start_is_not_conventional() {
    assert!(!is_gitmoji_commit_message("fix :bug:"));
    assert!(!is_gitmoji_commit_message("initial_commit"));
    assert!(!is_gitmoji_commit_message(""));
    assert!(!is_gitmoji_commit_message(":unknown_code: something"));
    assert!(!is_gitmoji_commit_message("x:bug:"));
}

#[test]
fn from_git2_commit_accepts_a_gitmoji_message() {
    let result = ConventionalCommit::from_git2_commit(":tada: initial_commit".to_string());
    assert_eq!(result, Ok(conventional(":tada: initial_commit")));
    assert_eq!(result.unwrap().message(), ":tada: initial_commit");
}

#[test]
fn from_git2_commit_rejects_other_messages() {
    let result = ConventionalCommit::from_git2_commit("initial_commit".to_string());
    let error = result.unwrap_err();
    assert_eq!(
        error,
        NonConventionalCommit {
            message: "initial_commit".to_string()
        }
    );
    assert!(error.to_string().contains("initial_commit"));
}

#[test]
fn classifying_keeps_order_and_loses_nothing() {
    let messages = vec![
        "initial_commit".to_string(),
        ":sparkles: add a feature".to_string(),
        "wip".to_string(),
        " :bug: fix".to_string(),
    ];
    let (commits, discarded) = classify_commits(messages);
    assert_eq!(
        commits,
        vec![conventional(":sparkles: add a feature"), conventional(" :bug: fix")]
    );
    assert_eq!(
        discarded,
        vec![
            NonConventionalCommit {
                message: "initial_commit".to_string()
            },
            NonConventionalCommit {
                message: "wip".to_string()
            },
        ]
    );
}

#[test]
fn classifying_conventional_messages_only() {
    let messages = vec![
        ":sparkles: commit 1".to_string(),
        ":bug: commit 2".to_string(),
        ":memo: commit 3".to_string(),
    ];
    let (commits, discarded) = classify_commits(messages);
    assert_eq!(commits.len(), 3);
    assert!(discarded.is_empty());
    assert_eq!(commits[2].message(), ":memo: commit 3");
}

#[test]
fn a_commit_with_codes_of_two_kinds_is_in_both_categories() {
    let commit = conventional(":boom: :sparkles: rewrite the parser");
    let changes = Changes::sort_commits(vec![commit.clone()], Vec::new());
    assert_eq!(changes.major, vec![commit.clone()]);
    assert_eq!(changes.minor, vec![commit]);
    assert!(changes.patch.is_empty());
    assert!(changes.other.is_empty());
}

#[test]
fn a_code_anywhere_in_the_message_counts_for_sorting() {
    let commit = conventional(":memo: document the :bug: we found");
    let changes = Changes::sort_commits(vec![commit.clone()], Vec::new());
    assert_eq!(changes.patch, vec![commit.clone()]);
    assert_eq!(changes.other, vec![commit]);
}

#[test]
fn sorting_keeps_the_order_of_commits() {
    let first = conventional(":bug: first");
    let second = conventional(":sparkles: second");
    let third = conventional(":zap: third");
    let changes = Changes::sort_commits(
        vec![first.clone(), second.clone(), third.clone()],
        Vec::new(),
    );
    assert_eq!(changes.patch, vec![first, third]);
    assert_eq!(changes.minor, vec![second]);
}

#[test]
fn every_conventional_commit_is_sorted_somewhere() {
    let messages: Vec<String> = vec![
        ":boom: a", ":egg: b", ":thread: c", ":bricks: d", "\t:rocket: e", ":art: f",
    ]
    .into_iter()
    .map(|m| m.to_string())
    .collect();
    let (commits, _) = classify_commits(messages);
    let changes = Changes::sort_commits(commits.clone(), Vec::new());
    for commit in &commits {
        assert!(
            changes.major.contains(commit)
                || changes.minor.contains(commit)
                || changes.patch.contains(commit)
                || changes.other.contains(commit)
        );
    }
}

#[test]
fn suggested_action_follows_the_most_significant_code() {
    let sorted = |messages: &[&str]| {
        let commits = messages.iter().map(|m| conventional(m)).collect();
        evaluate_changes(Changes::sort_commits(commits, Vec::new()))
    };
    assert_eq!(sorted(&[":memo: a", ":bug: b", ":boom: c"]), SemanticVersion::IncrementMajor);
    assert_eq!(sorted(&[":memo: a", ":sparkles: b", ":bug: c"]), SemanticVersion::IncrementMinor);
    assert_eq!(sorted(&[":memo: a", ":bug: b"]), SemanticVersion::IncrementPatch);
    assert_eq!(sorted(&[":memo: a", ":rocket: b"]), SemanticVersion::Keep);
    assert_eq!(sorted(&[]), SemanticVersion::Keep);
}

#[test]
fn discarded_commits_do_not_change_the_version() {
    let changes = Changes::sort_commits(
        Vec::new(),
        vec![NonConventionalCommit {
            message: "breaking change without a code".to_string(),
        }],
    );
    assert_eq!(evaluate_changes(changes), SemanticVersion::Keep);
}

#[test]
fn semantic_version_in_words() {
    assert_eq!(SemanticVersion::IncrementMajor.to_string(), "increment major version");
    assert_eq!(SemanticVersion::IncrementMinor.to_string(), "increment minor version");
    assert_eq!(SemanticVersion::IncrementPatch.to_string(), "increment patch version");
    assert_eq!(SemanticVersion::Keep.to_string(), "keep version");
}

#[test]
fn report_of_changes() {
    let changes = Changes {
        major: vec![conventional(":boom: a")],
        minor: Vec::new(),
        patch: vec![conventional(":bug: b\n"), conventional(":zap: c\n")],
        other: Vec::new(),
        non_conventional: vec![
            NonConventionalCommit {
                message: "subject\r\nbody".to_string(),
            },
            NonConventionalCommit {
                message: "other".to_string(),
            },
        ],
    };
    assert_eq!(
        changes.to_string(),
        "major:\n\t:boom: a\nminor:\n\t\npatch:\n\t:bug: b\n\t:zap: c\n\nother:\n\t\ninvalid:\n\tsubject\n\tother\n"
    );
}

#[test]
fn conventional_commit_reads_as_its_message() {
    let commit = conventional(":bug: fix\n\nbody");
    assert_eq!(commit.to_string(), ":bug: fix\n\nbody");
}

#[test]
fn truncation_drops_a_carriage_return_before_the_line_feed() {
    let error = NonConventionalCommit {
        message: "subject\r\nbody".to_string(),
    };
    assert_eq!(error.truncated(), "subject\n");
}

#[test]
fn truncation_keeps_a_carriage_return_without_line_feed() {
    let error = NonConventionalCommit {
        message: "subject\r".to_string(),
    };
    assert_eq!(error.truncated(), "subject\r\n");
}

#[test]
fn truncation_of_a_message_that_starts_with_a_line_feed() {
    let error = NonConventionalCommit {
        message: "\nbody".to_string(),
    };
    assert_eq!(error.truncated(), "\n");
}

#[test]
fn truncation_of_non_ascii_text() {
    let error = NonConventionalCommit {
        message: "héllo wörld ✨\nmore".to_string(),
    };
    assert_eq!(error.truncated(), "héllo wörld ✨\n");
}
