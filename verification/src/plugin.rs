use vstd::prelude::*;
use vstd::string::{StrSliceExecFns, StringExecFns};

use crate::class_id::{platform_uid, swap_vst3_uid_byte_order};
use crate::platform::Platform;

verus! {

/// The longest subcategory string a host is shown, in characters.
pub const MAX_SUBCATEGORIES_LEN: usize = 127;

/// A category under which a host may list a plug-in, such as `Fx` or `Instrument`.
#[derive(Clone, Copy, Debug)]
pub struct Vst3SubCategory {
    pub name: &'static str,
}

/// Provides auxiliary metadata needed for a VST3 plug-in.
pub trait Vst3Plugin {
    /// The unique class ID that identifies this particular plug-in. You can use the
    /// `*b"fooofooofooofooo"` syntax for this.
    ///
    /// [`platform_vst3_class_id`] shuffles it into a different byte order on Windows for
    /// project compatibility.
    const VST3_CLASS_ID: [u8; 16];

    /// One or more subcategories. The host may use these to categorize the plug-in. Their names
    /// are joined by pipe characters (`|`), and what is longer than
    /// [`MAX_SUBCATEGORIES_LEN`] characters is cut off.
    const VST3_SUBCATEGORIES: &'static [Vst3SubCategory];
}

/// The class ID of `P` in the byte order of `platform`.
pub fn platform_vst3_class_id<P: Vst3Plugin>(platform: Platform) -> (id: [u8; 16])
    ensures
        id@ == platform_uid(P::VST3_CLASS_ID@, platform),
{
    swap_vst3_uid_byte_order(P::VST3_CLASS_ID, platform)
}

/// The names of `categories`, separated by pipe characters.
pub open spec fn joined_names(categories: Seq<Vst3SubCategory>) -> Seq<char>
    decreases categories.len(),
{
    if categories.len() == 0 {
        Seq::empty()
    } else if categories.len() == 1 {
        categories[0].name@
    } else {
        joined_names(categories.drop_last()) + seq!['|'] + categories.last().name@
    }
}

/// The first `len` elements of `text`, or all of it.
pub open spec fn truncated(text: Seq<char>, len: nat) -> Seq<char> {
    if text.len() <= len {
        text
    } else {
        text.take(len as int)
    }
}

/// The string under which a host categorizes `P`.
pub fn subcategories_string<P: Vst3Plugin>() -> (text: String)
    ensures
        text@ == truncated(
            joined_names(P::VST3_SUBCATEGORIES@),
            MAX_SUBCATEGORIES_LEN as nat,
        ),
{
    let text: String = join_names(P::VST3_SUBCATEGORIES);
    if text.as_str().unicode_len() <= MAX_SUBCATEGORIES_LEN {
        text
    } else {
        text.as_str().substring_char(0, MAX_SUBCATEGORIES_LEN).to_owned()
    }
}

/// Joins the names of `categories` by pipe characters.
fn join_names(categories: &[Vst3SubCategory]) -> (text: String)
    ensures
        text@ == joined_names(categories@),
{
    let mut text: String = String::new();
    let mut i: usize = 0;
    while i < categories.len()
        invariant
            i <= categories@.len(),
            text@ == joined_names(categories@.take(i as int)),
        decreases categories@.len() - i,
    {
        proof {
            reveal_strlit("|");
            assert("|"@ =~= seq!['|']);
            assert(categories@.take(i + 1).drop_last() =~= categories@.take(i as int));
        }
        if i > 0 {
            text.append("|");
        }
        text.append(categories[i].name);
        i += 1;
    }
    assert(categories@.take(i as int) =~= categories@);
    text
}

/// The string under which a host categorizes a plug-in has at most [`MAX_SUBCATEGORIES_LEN`]
/// characters, and they are the first ones of the joined names.
pub proof fn lemma_subcategories_fit(categories: Seq<Vst3SubCategory>)
    ensures
        truncated(joined_names(categories), MAX_SUBCATEGORIES_LEN as nat).len()
            <= MAX_SUBCATEGORIES_LEN,
        truncated(joined_names(categories), MAX_SUBCATEGORIES_LEN as nat).is_prefix_of(
            joined_names(categories),
        ),
{
}

/// No name is joined to nothing, one name to itself, and another name follows after a pipe
/// character.
pub proof fn lemma_names_are_joined_by_pipes(
    categories: Seq<Vst3SubCategory>,
    next: Vst3SubCategory,
)
    ensures
        joined_names(Seq::empty()) == Seq::<char>::empty(),
        joined_names(seq![next]) == next.name@,
        categories.len() > 0 ==> joined_names(categories.push(next)) == joined_names(
            categories,
        ).push('|') + next.name@,
{
    assert(categories.push(next).drop_last() =~= categories);
    assert(joined_names(categories) + seq!['|'] =~= joined_names(categories).push('|'));
}

/// The string under which a host categorizes a plug-in holds as much of the joined names as fits
/// into 127 characters, from the start and unchanged.
pub proof fn lemma_as_much_as_fits(categories: Seq<Vst3SubCategory>)
    ensures
        joined_names(categories).len() <= 127 ==> truncated(
            joined_names(categories),
            MAX_SUBCATEGORIES_LEN as nat,
        ) == joined_names(categories),
        joined_names(categories).len() > 127 ==> truncated(
            joined_names(categories),
            MAX_SUBCATEGORIES_LEN as nat,
        ).len() == 127,
        forall|i: int|
            0 <= i < joined_names(categories).len() && i < 127 ==> #[trigger] truncated(
                joined_names(categories),
                MAX_SUBCATEGORIES_LEN as nat,
            )[i] == joined_names(categories)[i],
{
}

} // verus!
