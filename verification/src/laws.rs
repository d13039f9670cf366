//! Properties that hold across the functions of this crate.

use crate::changes::{category, tagged, Changes};
use crate::commit::ConventionalCommit;
use crate::gitmoji::{
    all_tags, has_any_tag, is_gitmoji, lemma_starts_with_skip, major_tags, minor_tags, other_tags,
    patch_tags,
};
use crate::text::{contains, is_white_space, occurs_at, starts_with, trim_start};
use crate::version::{suggested_action, SemanticVersion};
use vstd::prelude::*;

verus! {

/// Dropping the leading whitespace of `s` leaves the suffix of `s` that starts at its
/// first character that is not whitespace.
pub proof fn lemma_trim_start_is_suffix(s: Seq<char>) -> (k: int)
    ensures
        0 <= k <= s.len(),
        trim_start(s) == s.skip(k),
        forall|j: int| 0 <= j < k ==> is_white_space(#[trigger] s[j]),
        k < s.len() ==> !is_white_space(s[k]),
    decreases s.len(),
{
    if s.len() > 0 && is_white_space(s[0]) {
        let j = lemma_trim_start_is_suffix(s.drop_first());
        assert(s.drop_first().skip(j) =~= s.skip(j + 1));
        assert forall|m: int| 0 <= m < j + 1 implies is_white_space(#[trigger] s[m]) by {
            if m > 0 {
                assert(s[m] == s.drop_first()[m - 1]);
            }
        }
        j + 1
    } else {
        assert(s.skip(0) =~= s);
        0
    }
}

/// The Gitmoji test, said directly: a message passes it exactly when, at the position of
/// its first character that is not whitespace, one of the known codes occurs.
pub proof fn lemma_gitmoji_test(m: Seq<char>)
    ensures
        is_gitmoji(m) <==> exists|k: int, i: int|
            0 <= k <= m.len() && 0 <= i < all_tags().len() && (forall|j: int|
                0 <= j < k ==> is_white_space(#[trigger] m[j])) && (k < m.len() ==> !is_white_space(
                m[k],
            )) && #[trigger] occurs_at(m, all_tags()[i], k),
{
    let k0 = lemma_trim_start_is_suffix(m);
    if is_gitmoji(m) {
        let i = choose|i: int| 0 <= i < all_tags().len() && starts_with(trim_start(m), #[trigger] all_tags()[i]);
        lemma_starts_with_skip(m, all_tags()[i], k0);
        assert(occurs_at(m, all_tags()[i], k0));
    }
    if exists|k: int, i: int|
        0 <= k <= m.len() && 0 <= i < all_tags().len() && (forall|j: int|
            0 <= j < k ==> is_white_space(#[trigger] m[j])) && (k < m.len() ==> !is_white_space(
            m[k],
        )) && #[trigger] occurs_at(m, all_tags()[i], k) {
        let (k, i) = choose|k: int, i: int|
            0 <= k <= m.len() && 0 <= i < all_tags().len() && (forall|j: int|
                0 <= j < k ==> is_white_space(#[trigger] m[j])) && (k < m.len() ==> !is_white_space(
                m[k],
            )) && #[trigger] occurs_at(m, all_tags()[i], k);
        if k < k0 {
            assert(is_white_space(m[k]));
        }
        if k0 < k {
            assert(is_white_space(m[k0]));
        }
        assert(k == k0);
        lemma_starts_with_skip(m, all_tags()[i], k0);
        assert(starts_with(trim_start(m), all_tags()[i]));
    }
}

/// Whitespace leading `m + r` is that leading `m`, unless `m` is whitespace throughout.
pub proof fn lemma_trim_start_append(m: Seq<char>, r: Seq<char>)
    ensures
        trim_start(m).len() > 0 ==> trim_start(m + r) == trim_start(m) + r,
    decreases m.len(),
{
    if m.len() > 0 {
        assert((m + r)[0] == m[0]);
        if is_white_space(m[0]) {
            assert((m + r).drop_first() =~= m.drop_first() + r);
            lemma_trim_start_append(m.drop_first(), r);
        }
    }
}

/// Recognition looks at the start of a message only: text appended to a conventional
/// message, such as a line feed and a body, never makes it non-conventional.
pub proof fn lemma_gitmoji_survives_appending(m: Seq<char>, r: Seq<char>)
    requires
        is_gitmoji(m),
    ensures
        is_gitmoji(m + r),
{
    let i = choose|i: int| 0 <= i < all_tags().len() && starts_with(trim_start(m), #[trigger] all_tags()[i]);
    let t = all_tags()[i];
    if t.len() == 0 {
        assert(trim_start(m + r).subrange(0, 0) =~= t);
    } else {
        lemma_trim_start_append(m, r);
        assert(trim_start(m + r).subrange(0, t.len() as int) =~= trim_start(m).subrange(
            0,
            t.len() as int,
        ));
    }
    assert(starts_with(trim_start(m + r), all_tags()[i]));
}

/// A conventional commit message contains the Gitmoji code it begins with, so it holds
/// one of the codes of the major, minor, patch or other kind.
pub proof fn lemma_gitmoji_message_is_tagged(message: Seq<char>)
    requires
        is_gitmoji(message),
    ensures
        has_any_tag(message, major_tags()) || has_any_tag(message, minor_tags())
            || has_any_tag(message, patch_tags()) || has_any_tag(message, other_tags()),
{
    let t = choose|t: int| 0 <= t < all_tags().len() && starts_with(trim_start(message), #[trigger] all_tags()[t]);
    let tag = all_tags()[t];
    let k = lemma_trim_start_is_suffix(message);
    lemma_starts_with_skip(message, tag, k);
    assert(contains(message, tag));
    let a = major_tags().len() as int;
    let b = a + minor_tags().len();
    let c = b + patch_tags().len();
    if t < a {
        assert(major_tags()[t] == tag);
    } else if t < b {
        assert(minor_tags()[t - a] == tag);
    } else if t < c {
        assert(patch_tags()[t - b] == tag);
    } else {
        assert(other_tags()[t - c] == tag);
    }
}

/// Sorting loses no conventional commit: each commit whose message follows the Gitmoji
/// specification lands in the major, minor, patch or other category (or in several).
pub proof fn lemma_conventional_commit_is_sorted(commits: Seq<ConventionalCommit>, i: int)
    requires
        0 <= i < commits.len(),
        is_gitmoji(commits[i].message@),
    ensures
        category(commits, major_tags()).contains(commits[i]) || category(
            commits,
            minor_tags(),
        ).contains(commits[i]) || category(commits, patch_tags()).contains(commits[i])
            || category(commits, other_tags()).contains(commits[i]),
{
    lemma_gitmoji_message_is_tagged(commits[i].message@);
    if has_any_tag(commits[i].message@, major_tags()) {
        commits.lemma_filter_contains(tagged(major_tags()), i);
    } else if has_any_tag(commits[i].message@, minor_tags()) {
        commits.lemma_filter_contains(tagged(minor_tags()), i);
    } else if has_any_tag(commits[i].message@, patch_tags()) {
        commits.lemma_filter_contains(tagged(patch_tags()), i);
    } else {
        commits.lemma_filter_contains(tagged(other_tags()), i);
    }
}

/// Whether the message of some commit of `commits` holds one of `tags`.
pub open spec fn some_tagged(commits: Seq<ConventionalCommit>, tags: Seq<Seq<char>>) -> bool {
    exists|i: int| 0 <= i < commits.len() && has_any_tag(#[trigger] commits[i].message@, tags)
}

/// A category is empty exactly when no commit holds one of its codes.
pub proof fn lemma_category_nonempty(commits: Seq<ConventionalCommit>, tags: Seq<Seq<char>>)
    ensures
        category(commits, tags).len() > 0 <==> some_tagged(commits, tags),
{
    let pred = tagged(tags);
    if category(commits, tags).len() > 0 {
        let x = commits.filter(pred)[0];
        assert(commits.filter(pred).contains(x));
        commits.lemma_filter_contains_rev(pred, x);
        let i = choose|i: int| 0 <= i < commits.len() && commits[i] == x;
        assert(has_any_tag(commits[i].message@, tags));
    }
    if some_tagged(commits, tags) {
        let i = choose|i: int| 0 <= i < commits.len() && has_any_tag(#[trigger] commits[i].message@, tags);
        commits.lemma_filter_contains(pred, i);
    }
}

/// The action suggested for sorted commits is the most significant kind of change that
/// the message of some commit is tagged with: a major code anywhere means a new major
/// version, and so on down; codes of the other kind, and discarded commits, never change
/// the version.
pub proof fn lemma_suggested_action_of_sorted_commits(
    commits: Seq<ConventionalCommit>,
    changes: Changes,
)
    requires
        changes.major@ == category(commits, major_tags()),
        changes.minor@ == category(commits, minor_tags()),
        changes.patch@ == category(commits, patch_tags()),
    ensures
        suggested_action(changes) == if some_tagged(commits, major_tags()) {
            SemanticVersion::IncrementMajor
        } else if some_tagged(commits, minor_tags()) {
            SemanticVersion::IncrementMinor
        } else if some_tagged(commits, patch_tags()) {
            SemanticVersion::IncrementPatch
        } else {
            SemanticVersion::Keep
        },
{
    lemma_category_nonempty(commits, major_tags());
    lemma_category_nonempty(commits, minor_tags());
    lemma_category_nonempty(commits, patch_tags());
}

} // verus!
