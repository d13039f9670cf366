//! The commits of a repository by the kind of change they make, and the change of
//! semantic version that they call for.

use crate::commit::{truncated_text, ConventionalCommit, NonConventionalCommit};
use crate::gitmoji::{
    contains_any_tag, has_any_tag, major_tag_list, major_tags, minor_tag_list, minor_tags,
    other_tag_list, other_tags, patch_tag_list, patch_tags, tag_views,
};
use crate::text::chars_of;
use vstd::prelude::*;

verus! {

/// Structure that represents the changes in a git repository
#[derive(PartialEq, Debug)]
pub struct Changes {
    /// Vector of commits with major changes
    pub major: Vec<ConventionalCommit>,
    /// Vector of commits with minor changes
    pub minor: Vec<ConventionalCommit>,
    /// Vector of commits with patch changes
    pub patch: Vec<ConventionalCommit>,
    /// Vector of commits with other changes
    pub other: Vec<ConventionalCommit>,
    /// Vector of unconventional commits
    pub non_conventional: Vec<NonConventionalCommit>,
}

/// Whether a commit's message holds one of `tags` anywhere.
pub open spec fn tagged(tags: Seq<Seq<char>>) -> spec_fn(ConventionalCommit) -> bool {
    |c: ConventionalCommit| has_any_tag(c.message@, tags)
}

/// The commits whose message holds one of `tags`, in their order.
pub open spec fn category(commits: Seq<ConventionalCommit>, tags: Seq<Seq<char>>) -> Seq<
    ConventionalCommit,
> {
    commits.filter(tagged(tags))
}

/// The commits of `commits` whose message contains one of `tags`, in their order.
fn get_commits_with_tag(commits: &Vec<ConventionalCommit>, tags: Vec<&str>) -> (selected: Vec<
    ConventionalCommit,
>)
    ensures
        selected@ == category(commits@, tag_views(tags@)),
{
    let mut selected: Vec<ConventionalCommit> = Vec::new();
    let mut i: usize = 0;
    while i < commits.len()
        invariant
            i <= commits@.len(),
            selected@ == category(commits@.take(i as int), tag_views(tags@)),
        decreases commits@.len() - i,
    {
        let ghost before = commits@.take(i as int);
        proof {
            assert(commits@.take(i + 1) =~= before.push(commits@[i as int]));
            before.lemma_filter_push(commits@[i as int], tagged(tag_views(tags@)));
        }
        let message = chars_of(commits[i].message.as_str());
        if contains_any_tag(message.as_slice(), &tags) {
            selected.push(ConventionalCommit { message: commits[i].message.clone() });
        }
        i = i + 1;
    }
    assert(commits@.take(commits@.len() as int) =~= commits@);
    selected
}

impl Changes {
    /// Sort the commits into `major`, `minor`, `patch`, `other` and `invalid` change categories
    /// according to their commit flags: a commit goes into each category one of whose
    /// Gitmoji codes its message contains, so it may stand in several.
    ///
    /// ## Returns
    ///
    /// The [`Changes`] structure with the sorted commits.
    pub fn sort_commits(
        unsorted_commits: Vec<ConventionalCommit>,
        non_conventional: Vec<NonConventionalCommit>,
    ) -> (changes: Self)
        ensures
            changes.major@ == category(unsorted_commits@, major_tags()),
            changes.minor@ == category(unsorted_commits@, minor_tags()),
            changes.patch@ == category(unsorted_commits@, patch_tags()),
            changes.other@ == category(unsorted_commits@, other_tags()),
            changes.non_conventional == non_conventional,
    {
        Self {
            major: get_commits_with_tag(&unsorted_commits, major_tag_list()),
            minor: get_commits_with_tag(&unsorted_commits, minor_tag_list()),
            patch: get_commits_with_tag(&unsorted_commits, patch_tag_list()),
            other: get_commits_with_tag(&unsorted_commits, other_tag_list()),
            non_conventional,
        }
    }
}

/// The messages of `commits`, in order.
pub open spec fn messages(commits: Seq<ConventionalCommit>) -> Seq<Seq<char>> {
    commits.map_values(|c: ConventionalCommit| c.message@)
}

/// The first line of each message of `errors`, with a line feed, in order.
pub open spec fn truncations(errors: Seq<NonConventionalCommit>) -> Seq<Seq<char>> {
    errors.map_values(|e: NonConventionalCommit| truncated_text(e.message@))
}

/// The characters of each string.
pub open spec fn text_views(texts: Seq<String>) -> Seq<Seq<char>> {
    texts.map_values(|t: String| t@)
}

/// `parts` one after the other, with `sep` between each two.
pub open spec fn joined(parts: Seq<Seq<char>>, sep: Seq<char>) -> Seq<char>
    decreases parts.len(),
{
    if parts.len() == 0 {
        Seq::empty()
    } else if parts.len() == 1 {
        parts[0]
    } else {
        joined(parts.drop_last(), sep) + sep + parts.last()
    }
}

/// The report of [`Changes::to_string`]: each category under its heading, its entries
/// separated by tabs; non-conventional commits appear with their first line only.
pub open spec fn changes_text(changes: Changes) -> Seq<char> {
    "major:\n\t"@ + joined(messages(changes.major@), "\t"@) + "\nminor:\n\t"@ + joined(
        messages(changes.minor@),
        "\t"@,
    ) + "\npatch:\n\t"@ + joined(messages(changes.patch@), "\t"@) + "\nother:\n\t"@ + joined(
        messages(changes.other@),
        "\t"@,
    ) + "\ninvalid:\n\t"@ + joined(truncations(changes.non_conventional@), "\t"@)
}

/// Each heading of the report is followed by the entries of its own field, joined by tabs,
/// up to the next heading: the report opens with the major commits, then come the minor,
/// patch and other commits, and it closes with the first lines of the non-conventional
/// ones.
pub proof fn lemma_report_sections(changes: Changes)
    ensures
        exists|q: Seq<char>|
            changes_text(changes) == "major:\n\t"@ + joined(messages(changes.major@), "\t"@)
                + "\nminor:\n\t"@ + q,
        exists|p: Seq<char>, q: Seq<char>|
            changes_text(changes) == p + "\nminor:\n\t"@ + joined(messages(changes.minor@), "\t"@)
                + "\npatch:\n\t"@ + q,
        exists|p: Seq<char>, q: Seq<char>|
            changes_text(changes) == p + "\npatch:\n\t"@ + joined(messages(changes.patch@), "\t"@)
                + "\nother:\n\t"@ + q,
        exists|p: Seq<char>, q: Seq<char>|
            changes_text(changes) == p + "\nother:\n\t"@ + joined(messages(changes.other@), "\t"@)
                + "\ninvalid:\n\t"@ + q,
        exists|p: Seq<char>|
            changes_text(changes) == p + "\ninvalid:\n\t"@ + joined(
                truncations(changes.non_conventional@),
                "\t"@,
            ),
{
    let h_major = "major:\n\t"@;
    let h_minor = "\nminor:\n\t"@;
    let h_patch = "\npatch:\n\t"@;
    let h_other = "\nother:\n\t"@;
    let h_invalid = "\ninvalid:\n\t"@;
    let a = joined(messages(changes.major@), "\t"@);
    let b = joined(messages(changes.minor@), "\t"@);
    let c = joined(messages(changes.patch@), "\t"@);
    let d = joined(messages(changes.other@), "\t"@);
    let e = joined(truncations(changes.non_conventional@), "\t"@);
    let text = changes_text(changes);
    assert(text == h_major + a + h_minor + b + h_patch + c + h_other + d + h_invalid + e);
    let q1 = b + h_patch + c + h_other + d + h_invalid + e;
    assert(text =~= h_major + a + h_minor + q1);
    let p2 = h_major + a;
    let q2 = c + h_other + d + h_invalid + e;
    assert(text =~= p2 + h_minor + b + h_patch + q2);
    let p3 = h_major + a + h_minor + b;
    let q3 = d + h_invalid + e;
    assert(text =~= p3 + h_patch + c + h_other + q3);
    let p4 = h_major + a + h_minor + b + h_patch + c;
    let q4 = e;
    assert(text =~= p4 + h_other + d + h_invalid + q4);
    let p5 = h_major + a + h_minor + b + h_patch + c + h_other + d;
    assert(text =~= p5 + h_invalid + e);
}

/// The messages of `commits`, in order.
fn convert_to_string_vector(commits: &Vec<ConventionalCommit>) -> (texts: Vec<String>)
    ensures
        text_views(texts@) == messages(commits@),
{
    let mut texts: Vec<String> = Vec::new();
    let mut i: usize = 0;
    while i < commits.len()
        invariant
            i <= commits@.len(),
            text_views(texts@) == messages(commits@.take(i as int)),
        decreases commits@.len() - i,
    {
        texts.push(commits[i].message().to_owned());
        assert(messages(commits@.take(i + 1)) =~= messages(commits@.take(i as int)).push(
            commits@[i as int].message@,
        ));
        assert(text_views(texts@) =~= messages(commits@.take(i + 1)));
        i = i + 1;
    }
    assert(commits@.take(commits@.len() as int) =~= commits@);
    texts
}

/// The first line of each offending message, with a line feed, in order.
fn convert_errors_to_string_vector(errors: &Vec<NonConventionalCommit>) -> (texts: Vec<String>)
    ensures
        text_views(texts@) == truncations(errors@),
{
    let mut texts: Vec<String> = Vec::new();
    let mut i: usize = 0;
    while i < errors.len()
        invariant
            i <= errors@.len(),
            text_views(texts@) == truncations(errors@.take(i as int)),
        decreases errors@.len() - i,
    {
        texts.push(errors[i].truncated());
        assert(truncations(errors@.take(i + 1)) =~= truncations(errors@.take(i as int)).push(
            truncated_text(errors@[i as int].message@),
        ));
        assert(text_views(texts@) =~= truncations(errors@.take(i + 1)));
        i = i + 1;
    }
    assert(errors@.take(errors@.len() as int) =~= errors@);
    texts
}

/// `parts` one after the other, with `sep` between each two.
fn join(parts: &Vec<String>, sep: &str) -> (text: String)
    ensures
        text@ == joined(text_views(parts@), sep@),
{
    let mut text = String::new();
    let mut i: usize = 0;
    while i < parts.len()
        invariant
            i <= parts@.len(),
            text@ == joined(text_views(parts@).take(i as int), sep@),
        decreases parts@.len() - i,
    {
        let ghost views = text_views(parts@);
        assert(views.take(i + 1).drop_last() =~= views.take(i as int));
        if i != 0 {
            text.append(sep);
        }
        text.append(parts[i].as_str());
        proof {
            if i == 0 {
                assert(text@ =~= views.take(1)[0]);
            }
        }
        i = i + 1;
    }
    assert(text_views(parts@).take(parts@.len() as int) =~= text_views(parts@));
    text
}

impl Changes {
    /// A report of the changes: the messages of each category under a heading, and the
    /// first line of each non-conventional commit.
    pub fn to_string(&self) -> (text: String)
        ensures
            text@ == changes_text(*self),
    {
        let major_changes = convert_to_string_vector(&self.major);
        let minor_changes = convert_to_string_vector(&self.minor);
        let patch_changes = convert_to_string_vector(&self.patch);
        let other_changes = convert_to_string_vector(&self.other);
        let non_conventional_changes = convert_errors_to_string_vector(&self.non_conventional);
        let mut text = String::from_str("major:\n\t");
        text.append(join(&major_changes, "\t").as_str());
        text.append("\nminor:\n\t");
        text.append(join(&minor_changes, "\t").as_str());
        text.append("\npatch:\n\t");
        text.append(join(&patch_changes, "\t").as_str());
        text.append("\nother:\n\t");
        text.append(join(&other_changes, "\t").as_str());
        text.append("\ninvalid:\n\t");
        text.append(join(&non_conventional_changes, "\t").as_str());
        text
    }
}

} // verus!
