//! Commit messages, sorted into those that follow the Gitmoji specification and those
//! that do not.

use crate::gitmoji::{is_gitmoji, is_gitmoji_commit_message};
use crate::text::{
    chars_of, first_line, lemma_first_line_has_no_line_feed, lemma_first_line_reaches_line_feed,
    lemma_line_end, line_end_index,
};
use vstd::prelude::*;

verus! {

/// Error returned when a git commit message does not follow the
/// [Gitmoji specification](https://gitmoji.dev/specification).
#[derive(Clone, Debug, PartialEq)]
pub struct NonConventionalCommit {
    /// The offending commit message.
    pub message: String,
}

/// A git commit whose message follows the
/// [Gitmoji specification](https://gitmoji.dev/specification).
///
/// Made from a commit's message with [`from_git2_commit`].
///
/// [`from_git2_commit`]: ConventionalCommit::from_git2_commit
#[derive(Clone, Debug, PartialEq)]
pub struct ConventionalCommit {
    /// The commit message.
    pub message: String,
}

/// What [`NonConventionalCommit::truncated`] gives: the first line of the message and a
/// line feed.
pub open spec fn truncated_text(message: Seq<char>) -> Seq<char> {
    first_line(message).push('\n')
}

impl NonConventionalCommit {
    /// Same message as [`to_string`](Self::to_string), but the offending commit message is
    /// cut off at the first line. The result always ends with a single trailing newline.
    pub fn truncated(&self) -> (line: String)
        ensures
            line@ == truncated_text(self.message@),
            line@.last() == '\n',
            !line@.drop_last().contains('\n'),
            !self.message@.contains('\n') ==> line@ == self.message@.push('\n'),
            line@.drop_last() == self.message@.take(line@.len() - 1),
            self.message@.contains('\n') ==> {
                let n = line@.len() - 1;
                ||| self.message@[n] == '\n' && !(n > 0 && self.message@[n - 1] == '\r')
                ||| n + 1 < self.message@.len() && self.message@[n] == '\r' && self.message@[n
                    + 1] == '\n'
            },
    {
        let chars = chars_of(self.message.as_str());
        let k = line_end_index(chars.as_slice());
        proof {
            lemma_line_end(self.message@);
            lemma_first_line_has_no_line_feed(self.message@);
            lemma_first_line_reaches_line_feed(self.message@);
        }
        let end = if 0 < k && k < chars.len() && chars[k - 1] == '\r' {
            k - 1
        } else {
            k
        };
        let first = self.message.as_str().substring_char(0, end);
        let mut line = String::from_str(first);
        line.append("\n");
        proof {
            reveal_strlit("\n");
            assert(line@ =~= truncated_text(self.message@));
            assert(line@.drop_last() =~= first_line(self.message@));
            if !self.message@.contains('\n') {
                if k < chars@.len() {
                    assert(self.message@[k as int] == '\n');
                }
                assert(first_line(self.message@) =~= self.message@);
            }
        }
        line
    }

    /// The offending commit message, as it reads in full.
    pub fn to_string(&self) -> (text: String)
        ensures
            text@ == self.message@,
    {
        self.message.clone()
    }
}

impl ConventionalCommit {
    /// Create a [`ConventionalCommit`] from the message of a git commit.
    ///
    /// ## Returns
    /// An error that holds the message when it does not follow the
    /// [Gitmoji specification](https://gitmoji.dev/specification).
    pub fn from_git2_commit(message: String) -> (commit: Result<Self, NonConventionalCommit>)
        ensures
            is_gitmoji(message@) ==> commit == Ok::<Self, NonConventionalCommit>(
                (ConventionalCommit { message }),
            ),
            !is_gitmoji(message@) ==> commit == Err::<Self, NonConventionalCommit>(
                (NonConventionalCommit { message }),
            ),
    {
        if !is_gitmoji_commit_message(message.as_str()) {
            return Err(NonConventionalCommit { message });
        }
        Ok(Self { message })
    }

    /// Return a reference to the `message` attribute
    pub fn message(&self) -> (text: &str)
        ensures
            text@ == self.message@,
    {
        self.message.as_str()
    }

    /// The commit message.
    pub fn to_string(&self) -> (text: String)
        ensures
            text@ == self.message@,
    {
        self.message.clone()
    }
}

/// Whether a message makes a conventional commit.
pub open spec fn conventional(message: String) -> bool {
    is_gitmoji(message@)
}

/// Whether a message makes a non-conventional commit.
pub open spec fn non_conventional(message: String) -> bool {
    !is_gitmoji(message@)
}

/// The conventional commit made of a message.
pub open spec fn to_conventional(message: String) -> ConventionalCommit {
    ConventionalCommit { message }
}

/// The non-conventional commit made of a message.
pub open spec fn to_non_conventional(message: String) -> NonConventionalCommit {
    NonConventionalCommit { message }
}

/// The conventional commits that [`classify_commits`] keeps from `messages`, in order.
pub open spec fn kept_commits(messages: Seq<String>) -> Seq<ConventionalCommit> {
    messages.filter(|m: String| conventional(m)).map_values(|m: String| to_conventional(m))
}

/// The non-conventional commits that [`classify_commits`] discards from `messages`, in
/// order.
pub open spec fn discarded_commits(messages: Seq<String>) -> Seq<NonConventionalCommit> {
    messages.filter(|m: String| non_conventional(m)).map_values(|m: String| to_non_conventional(m))
}

/// Classification is the Gitmoji test: every kept commit passes it, every discarded one
/// fails it, and each message is kept when it passes and discarded when it fails.
pub proof fn lemma_classification_is_the_gitmoji_test(messages: Seq<String>)
    ensures
        forall|j: int|
            0 <= j < kept_commits(messages).len() ==> is_gitmoji(
                #[trigger] kept_commits(messages)[j].message@,
            ),
        forall|j: int|
            0 <= j < discarded_commits(messages).len() ==> !is_gitmoji(
                #[trigger] discarded_commits(messages)[j].message@,
            ),
        forall|i: int|
            0 <= i < messages.len() && is_gitmoji(#[trigger] messages[i]@) ==> kept_commits(
                messages,
            ).contains(ConventionalCommit { message: messages[i] }),
        forall|i: int|
            0 <= i < messages.len() && !is_gitmoji(#[trigger] messages[i]@) ==> discarded_commits(
                messages,
            ).contains(NonConventionalCommit { message: messages[i] }),
{
    broadcast use vstd::seq_lib::group_filter_ensures;

    let good = |m: String| conventional(m);
    let bad = |m: String| non_conventional(m);
    let kept = messages.filter(good);
    let dropped = messages.filter(bad);
    assert forall|j: int| 0 <= j < kept_commits(messages).len() implies is_gitmoji(
        #[trigger] kept_commits(messages)[j].message@,
    ) by {
        assert(good(kept[j]));
    }
    assert forall|j: int| 0 <= j < discarded_commits(messages).len() implies !is_gitmoji(
        #[trigger] discarded_commits(messages)[j].message@,
    ) by {
        assert(bad(dropped[j]));
    }
    assert forall|i: int| 0 <= i < messages.len() && is_gitmoji(#[trigger] messages[i]@) implies kept_commits(
        messages,
    ).contains(ConventionalCommit { message: messages[i] }) by {
        assert(good(messages[i]));
        assert(kept.contains(messages[i]));
        let j = choose|j: int| 0 <= j < kept.len() && kept[j] == messages[i];
        assert(kept_commits(messages)[j] == ConventionalCommit { message: messages[i] });
    }
    assert forall|i: int| 0 <= i < messages.len() && !is_gitmoji(#[trigger] messages[i]@) implies discarded_commits(
        messages,
    ).contains(NonConventionalCommit { message: messages[i] }) by {
        assert(bad(messages[i]));
        assert(dropped.contains(messages[i]));
        let j = choose|j: int| 0 <= j < dropped.len() && dropped[j] == messages[i];
        assert(discarded_commits(messages)[j] == NonConventionalCommit { message: messages[i] });
    }
}

/// Sort the messages of a repository's commits into conventional commits and the
/// discarded, non-conventional ones, each in the order of `messages`.
pub fn classify_commits(messages: Vec<String>) -> (sorted: (
    Vec<ConventionalCommit>,
    Vec<NonConventionalCommit>,
))
    ensures
        sorted.0@ == kept_commits(messages@),
        sorted.1@ == discarded_commits(messages@),
        sorted.0@.len() + sorted.1@.len() == messages@.len(),
        forall|j: int| 0 <= j < sorted.0@.len() ==> is_gitmoji(#[trigger] sorted.0@[j].message@),
        forall|j: int| 0 <= j < sorted.1@.len() ==> !is_gitmoji(#[trigger] sorted.1@[j].message@),
{
    let mut conventional_commits: Vec<ConventionalCommit> = Vec::new();
    let mut non_conventional_commits: Vec<NonConventionalCommit> = Vec::new();
    let ghost good = |m: String| conventional(m);
    let ghost bad = |m: String| non_conventional(m);
    let ghost mk_good = |m: String| to_conventional(m);
    let ghost mk_bad = |m: String| to_non_conventional(m);
    let mut i: usize = 0;
    while i < messages.len()
        invariant
            i <= messages@.len(),
            good == (|m: String| conventional(m)),
            bad == (|m: String| non_conventional(m)),
            mk_good == (|m: String| to_conventional(m)),
            mk_bad == (|m: String| to_non_conventional(m)),
            conventional_commits@ == messages@.take(i as int).filter(good).map_values(mk_good),
            non_conventional_commits@ == messages@.take(i as int).filter(bad).map_values(mk_bad),
            conventional_commits@.len() + non_conventional_commits@.len() == i,
        decreases messages@.len() - i,
    {
        let message = messages[i].clone();
        let ghost before = messages@.take(i as int);
        proof {
            assert(messages@.take(i + 1) =~= before.push(message));
            before.lemma_filter_push(message, good);
            before.lemma_filter_push(message, bad);
            assert(before.filter(good).push(message).map_values(mk_good) =~= before.filter(
                good,
            ).map_values(mk_good).push(mk_good(message)));
            assert(before.filter(bad).push(message).map_values(mk_bad) =~= before.filter(
                bad,
            ).map_values(mk_bad).push(mk_bad(message)));
        }
        match ConventionalCommit::from_git2_commit(message) {
            Ok(conventional_commit) => conventional_commits.push(conventional_commit),
            Err(non_conventional_commit) => non_conventional_commits.push(non_conventional_commit),
        }
        i = i + 1;
    }
    assert(messages@.take(messages@.len() as int) =~= messages@);
    proof {
        lemma_classification_is_the_gitmoji_test(messages@);
    }
    (conventional_commits, non_conventional_commits)
}

} // verus!
