use cargo_semantic_release::{evaluate_changes, Changes, ConventionalCommit, SemanticVersion};

#[test]
fn has_no_changes() {
    // Given
    let changes = Changes {
        major: Vec::new(),
        minor: Vec::new(),
        patch: Vec::new(),
        other: vec![ConventionalCommit {
            message: "other commit".to_string(),
        }],
        non_conventional: Vec::new(),
    };

    // When
    let result = evaluate_changes(changes);

    // Then
    assert_eq!(result, SemanticVersion::Keep);
}

#[test]
fn has_patch_changes() {
    // Given
    let changes = Changes {
        major: Vec::new(),
        minor: Vec::new(),
        patch: vec![ConventionalCommit {
            message: "patch commit".to_string(),
        }],
        other: vec![ConventionalCommit {
            message: "other commit".to_string(),
        }],
        non_conventional: Vec::new(),
    };

    // When
    let result = evaluate_changes(changes);

    // Then
    assert_eq!(result, SemanticVersion::IncrementPatch);
}

#[test]
fn has_minor_changes() {
    // Given
    let changes = Changes {
        major: Vec::new(),
        minor: vec![ConventionalCommit {
            message: "minor commit".to_string(),
        }],
        patch: vec![ConventionalCommit {
            message: "patch commit".to_string(),
        }],
        other: vec![ConventionalCommit {
            message: "other commit".to_string(),
        }],
        non_conventional: Vec::new(),
    };

    // When
    let result = evaluate_changes(changes);

    // Then
    assert_eq!(result, SemanticVersion::IncrementMinor);
}

#[test]
fn has_major_changes() {
    // Given
    let changes = Changes {
        major: vec![ConventionalCommit {
            message: "major commit".to_string(),
        }],
        minor: vec![ConventionalCommit {
            message: "minor commit".to_string(),
        }],
        patch: vec![ConventionalCommit {
            message: "patch commit".to_string(),
        }],
        other: vec![ConventionalCommit {
            message: "other commit".to_string(),
        }],
        non_conventional: Vec::new(),
    };

    // When
    let result = evaluate_changes(changes);

    // Then
    assert_eq!(result, SemanticVersion::IncrementMajor);
}
