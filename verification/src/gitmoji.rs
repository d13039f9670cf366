//! The Gitmoji codes that this crate knows, by the kind of version change they stand
//! for, and the test of whether a commit message follows the
//! [Gitmoji specification](https://gitmoji.dev/specification).

use crate::text::{
    chars_of, contains, contains_chars, leading_whitespace_len, occurs_at, occurs_at_index,
    starts_with, trim_start,
};
use vstd::prelude::*;

verus! {

/// The characters of each tag.
pub open spec fn tag_views(tags: Seq<&str>) -> Seq<Seq<char>> {
    tags.map_values(|t: &str| t@)
}

/// Gitmoji codes of breaking changes: they call for a new major version.
pub open spec fn major_tags() -> Seq<Seq<char>> {
    seq![
        ":boom:"@,
    ]
}

/// The codes of [`major_tags`], in the same order.
pub fn major_tag_list() -> (tags: Vec<&'static str>)
    ensures
        tag_views(tags@) == major_tags(),
{
    let tags: Vec<&'static str> = vec![
        ":boom:",
    ];
    assert(tag_views(tags@) =~= major_tags());
    tags
}

/// Gitmoji codes of new, backward compatible features: they call for a new minor version.
pub open spec fn minor_tags() -> Seq<Seq<char>> {
    seq![
        ":sparkles:"@,
        ":children_crossing:"@,
        ":lipstick:"@,
        ":iphone:"@,
        ":egg:"@,
        ":chart_with_upwards_trend:"@,
        ":heavy_plus_sign:"@,
        ":heavy_minus_sign:"@,
        ":passport_control:"@,
    ]
}

/// The codes of [`minor_tags`], in the same order.
pub fn minor_tag_list() -> (tags: Vec<&'static str>)
    ensures
        tag_views(tags@) == minor_tags(),
{
    let tags: Vec<&'static str> = vec![
        ":sparkles:",
        ":children_crossing:",
        ":lipstick:",
        ":iphone:",
        ":egg:",
        ":chart_with_upwards_trend:",
        ":heavy_plus_sign:",
        ":heavy_minus_sign:",
        ":passport_control:",
    ];
    assert(tag_views(tags@) =~= minor_tags());
    tags
}

/// Gitmoji codes of backward compatible fixes: they call for a new patch version.
pub open spec fn patch_tags() -> Seq<Seq<char>> {
    seq![
        ":art:"@,
        ":ambulance:"@,
        ":lock:"@,
        ":bug:"@,
        ":zap:"@,
        ":goal_net:"@,
        ":alien:"@,
        ":wheelchair:"@,
        ":speech_balloon:"@,
        ":mag:"@,
        ":fire:"@,
        ":white_check_mark:"@,
        ":closed_lock_with_key:"@,
        ":rotating_light:"@,
        ":green_heart:"@,
        ":arrow_down:"@,
        ":arrow_up:"@,
        ":pushpin:"@,
        ":construction_worker:"@,
        ":recycle:"@,
        ":wrench:"@,
        ":hammer:"@,
        ":globe_with_meridians:"@,
        ":package:"@,
        ":truck:"@,
        ":bento:"@,
        ":card_file_box:"@,
        ":loud_sound:"@,
        ":mute:"@,
        ":building_construction:"@,
        ":camera_flash:"@,
        ":label:"@,
        ":seedling:"@,
        ":triangular_flag_on_post:"@,
        ":dizzy:"@,
        ":adhesive_bandage:"@,
        ":monocle_face:"@,
        ":necktie:"@,
        ":stethoscope:"@,
        ":technologist:"@,
        ":thread:"@,
        ":safety_vest:"@,
    ]
}

/// The codes of [`patch_tags`], in the same order.
pub fn patch_tag_list() -> (tags: Vec<&'static str>)
    ensures
        tag_views(tags@) == patch_tags(),
{
    let tags: Vec<&'static str> = vec![
        ":art:",
        ":ambulance:",
        ":lock:",
        ":bug:",
        ":zap:",
        ":goal_net:",
        ":alien:",
        ":wheelchair:",
        ":speech_balloon:",
        ":mag:",
        ":fire:",
        ":white_check_mark:",
        ":closed_lock_with_key:",
        ":rotating_light:",
        ":green_heart:",
        ":arrow_down:",
        ":arrow_up:",
        ":pushpin:",
        ":construction_worker:",
        ":recycle:",
        ":wrench:",
        ":hammer:",
        ":globe_with_meridians:",
        ":package:",
        ":truck:",
        ":bento:",
        ":card_file_box:",
        ":loud_sound:",
        ":mute:",
        ":building_construction:",
        ":camera_flash:",
        ":label:",
        ":seedling:",
        ":triangular_flag_on_post:",
        ":dizzy:",
        ":adhesive_bandage:",
        ":monocle_face:",
        ":necktie:",
        ":stethoscope:",
        ":technologist:",
        ":thread:",
        ":safety_vest:",
    ];
    assert(tag_views(tags@) =~= patch_tags());
    tags
}

/// Gitmoji codes of changes that leave the version as it is.
pub open spec fn other_tags() -> Seq<Seq<char>> {
    seq![
        ":memo:"@,
        ":rocket:"@,
        ":tada:"@,
        ":bookmark:"@,
        ":construction:"@,
        ":pencil2:"@,
        ":poop:"@,
        ":rewind:"@,
        ":twisted_rightwards_arrows:"@,
        ":page_facing_up:"@,
        ":bulb:"@,
        ":beers:"@,
        ":bust_in_silhouette:"@,
        ":clown_face:"@,
        ":see_no_evil:"@,
        ":alembic:"@,
        ":wastebasket:"@,
        ":coffin:"@,
        ":test_tube:"@,
        ":bricks:"@,
        ":money_with_wings:"@,
    ]
}

/// The codes of [`other_tags`], in the same order.
pub fn other_tag_list() -> (tags: Vec<&'static str>)
    ensures
        tag_views(tags@) == other_tags(),
{
    let tags: Vec<&'static str> = vec![
        ":memo:",
        ":rocket:",
        ":tada:",
        ":bookmark:",
        ":construction:",
        ":pencil2:",
        ":poop:",
        ":rewind:",
        ":twisted_rightwards_arrows:",
        ":page_facing_up:",
        ":bulb:",
        ":beers:",
        ":bust_in_silhouette:",
        ":clown_face:",
        ":see_no_evil:",
        ":alembic:",
        ":wastebasket:",
        ":coffin:",
        ":test_tube:",
        ":bricks:",
        ":money_with_wings:",
    ];
    assert(tag_views(tags@) =~= other_tags());
    tags
}

/// Every Gitmoji code that this crate knows.
pub open spec fn all_tags() -> Seq<Seq<char>> {
    major_tags() + minor_tags() + patch_tags() + other_tags()
}

/// Whether `message`, once its leading whitespace is dropped, begins with a known
/// Gitmoji code: the test of a conventional commit message.
pub open spec fn is_gitmoji(message: Seq<char>) -> bool {
    exists|i: int| 0 <= i < all_tags().len() && starts_with(trim_start(message), #[trigger] all_tags()[i])
}

/// Whether one of `tags` occurs anywhere in `message`.
pub open spec fn has_any_tag(message: Seq<char>, tags: Seq<Seq<char>>) -> bool {
    exists|i: int| 0 <= i < tags.len() && contains(message, #[trigger] tags[i])
}

/// A prefix of what follows position `k` is an occurrence at `k`.
pub proof fn lemma_starts_with_skip(s: Seq<char>, p: Seq<char>, k: int)
    requires
        0 <= k <= s.len(),
    ensures
        starts_with(s.skip(k), p) == occurs_at(s, p, k),
{
    if p.len() + k <= s.len() {
        assert(s.skip(k).subrange(0, p.len() as int) =~= s.subrange(k, k + p.len()));
    }
}

/// Whether one of `tags` begins `message` once its leading whitespace is dropped.
fn starts_with_any_tag(message: &[char], tags: &Vec<&str>) -> (b: bool)
    ensures
        b == (exists|i: int|
            0 <= i < tags@.len() && starts_with(trim_start(message@), #[trigger] tag_views(tags@)[i])),
{
    let k = leading_whitespace_len(message);
    let mut i: usize = 0;
    while i < tags.len()
        invariant
            k <= message@.len(),
            trim_start(message@) == message@.skip(k as int),
            i <= tags@.len(),
            forall|j: int|
                0 <= j < i ==> !starts_with(trim_start(message@), #[trigger] tag_views(tags@)[j]),
        decreases tags@.len() - i,
    {
        let tag = chars_of(tags[i]);
        proof {
            lemma_starts_with_skip(message@, tag@, k as int);
        }
        if occurs_at_index(message, tag.as_slice(), k) {
            assert(starts_with(trim_start(message@), tag_views(tags@)[i as int]));
            return true;
        }
        i = i + 1;
    }
    false
}

/// Whether one of `tags` occurs anywhere in `message`.
pub fn contains_any_tag(message: &[char], tags: &Vec<&str>) -> (b: bool)
    ensures
        b == has_any_tag(message@, tag_views(tags@)),
{
    let mut i: usize = 0;
    while i < tags.len()
        invariant
            i <= tags@.len(),
            forall|j: int| 0 <= j < i ==> !contains(message@, #[trigger] tag_views(tags@)[j]),
        decreases tags@.len() - i,
    {
        let tag = chars_of(tags[i]);
        if contains_chars(message, tag.as_slice()) {
            assert(contains(message@, tag_views(tags@)[i as int]));
            return true;
        }
        i = i + 1;
    }
    false
}

/// Check whether a commit message starts with a known Gitmoji code, per the
/// [Gitmoji specification](https://gitmoji.dev/specification); whitespace before the code
/// is allowed.
pub fn is_gitmoji_commit_message(message: &str) -> (b: bool)
    ensures
        b == is_gitmoji(message@),
{
    let chars = chars_of(message);
    let mut tags = major_tag_list();
    let mut minor = minor_tag_list();
    let mut patch = patch_tag_list();
    let mut other = other_tag_list();
    tags.append(&mut minor);
    tags.append(&mut patch);
    tags.append(&mut other);
    assert(tag_views(tags@) =~= all_tags());
    let b = starts_with_any_tag(chars.as_slice(), &tags);
    proof {
        if b {
            let i = choose|i: int|
                0 <= i < tags@.len() && starts_with(trim_start(chars@), #[trigger] tag_views(tags@)[i]);
            assert(all_tags()[i] == tag_views(tags@)[i]);
        } else {
            assert forall|i: int| 0 <= i < all_tags().len() implies !starts_with(
                trim_start(message@),
                #[trigger] all_tags()[i],
            ) by {
                assert(all_tags()[i] == tag_views(tags@)[i]);
            }
        }
    }
    b
}

} // verus!
