use cargo_semantic_release::NonConventionalCommit;

#[test]
fn only_adds_an_extra_newline() {
    // Given
    let short_message = "short message";
    let error = NonConventionalCommit {
        message: short_message.to_string(),
    };

    // When
    let result = error.truncated();

    // Then
    assert_eq!(result, format!("{}\n", short_message));
}

#[test]
fn does_not_change_anything() {
    // Given
    let error = NonConventionalCommit {
        message: "single line commit message\n".to_string(),
    };

    // When
    let result = error.truncated();

    // Then
    assert_eq!(result, "single line commit message\n");
}

#[test]
fn truncates_at_the_first_newline() {
    // Given
    let error = NonConventionalCommit {
        message: "short subject\nlonger body text\n\n\n".to_string(),
    };

    // When
    let result = error.truncated();

    // Then
    assert_eq!(result, "short subject\n");
}

#[test]
fn truncates_empty_string() {
    // Given
    let error = NonConventionalCommit {
        message: "".to_string(),
    };

    // When
    let result = error.truncated();

    // Then
    assert_eq!(result, "\n");
}
