//! Names of the output files, derived from the stem of an input file: the
//! file name without its extension.

use vstd::prelude::*;
use vstd::string::*;

verus! {

/// What the stem of a combined texture ends with by convention.
pub const COMBINED_SUFFIX: &'static str = "MetallicSmoothness";

/// What the stem of a metallic texture ends with by convention.
pub const METALLIC_SUFFIX: &'static str = "Metallic";

/// File name of a combined texture after its base.
pub const COMBINED_ENDING: &'static str = "MetallicSmoothness.png";

/// File name of a metallic texture after its base.
pub const METALLIC_ENDING: &'static str = "Metallic.png";

/// File name of a roughness texture after its base.
pub const ROUGHNESS_ENDING: &'static str = "Roughness.png";

/// Whether the last characters of `name` are exactly those of `suffix`.
pub open spec fn ends_with(name: Seq<char>, suffix: Seq<char>) -> bool {
    suffix.len() <= name.len() && name.subrange(name.len() - suffix.len(), name.len() as int)
        == suffix
}

/// `name` without `suffix` at its end, or all of `name` if it does not end
/// with `suffix`.
pub open spec fn without_suffix(name: Seq<char>, suffix: Seq<char>) -> Seq<char> {
    if ends_with(name, suffix) {
        name.subrange(0, name.len() - suffix.len())
    } else {
        name
    }
}

/// The names of the metallic and of the roughness file for the stem of a
/// combined file.
pub open spec fn split_names(stem: Seq<char>) -> (Seq<char>, Seq<char>) {
    let base = without_suffix(stem, COMBINED_SUFFIX@);
    (base + METALLIC_ENDING@, base + ROUGHNESS_ENDING@)
}

/// The name of the combined file for the stem of a metallic file.
pub open spec fn merge_name(metallic_stem: Seq<char>) -> Seq<char> {
    without_suffix(metallic_stem, METALLIC_SUFFIX@) + COMBINED_ENDING@
}

/// Removes `suffix` from the end of `name`. The comparison is exact and
/// case-sensitive; a name that does not end with `suffix` is returned whole.
pub fn strip_suffix<'a>(name: &'a str, suffix: &str) -> (base: &'a str)
    ensures
        base@ == without_suffix(name@, suffix@),
{
    let name_len: usize = name.unicode_len();
    let suffix_len: usize = suffix.unicode_len();
    if suffix_len > name_len {
        return name;
    }
    let cut: usize = name_len - suffix_len;
    let mut i: usize = 0;
    while i < suffix_len
        invariant
            name_len == name@.len(),
            suffix_len == suffix@.len(),
            cut + suffix_len == name_len,
            i <= suffix_len,
            forall|j: int| 0 <= j < i ==> name@[cut + j] == suffix@[j],
        decreases suffix_len - i,
    {
        if name.get_char(cut + i) != suffix.get_char(i) {
            return name;
        }
        i += 1;
    }
    assert(name@.subrange(cut as int, name_len as int) =~= suffix@);
    name.substring_char(0, cut)
}

/// Names of the two files that splitting a combined file writes, the
/// metallic one first: the stem, without `MetallicSmoothness` at its end if
/// it ends so, followed by `Metallic.png` and by `Roughness.png`.
pub fn split_output_names(stem: &str) -> (names: (String, String))
    ensures
        names.0@ == split_names(stem@).0,
        names.1@ == split_names(stem@).1,
{
    let base = strip_suffix(stem, COMBINED_SUFFIX);
    (String::from_str(base).concat(METALLIC_ENDING), String::from_str(base).concat(ROUGHNESS_ENDING))
}

/// Name of the file that merging writes, for the stem of the metallic file:
/// the stem, without `Metallic` at its end if it ends so, followed by
/// `MetallicSmoothness.png`.
pub fn merge_output_name(metallic_stem: &str) -> (name: String)
    ensures
        name@ == merge_name(metallic_stem@),
{
    let base = strip_suffix(metallic_stem, METALLIC_SUFFIX);
    String::from_str(base).concat(COMBINED_ENDING)
}

/// A name that was made by appending a suffix ends with that suffix, and
/// without it is what the suffix was appended to.
pub proof fn lemma_without_appended_suffix(base: Seq<char>, suffix: Seq<char>)
    ensures
        ends_with(base + suffix, suffix),
        without_suffix(base + suffix, suffix) == base,
{
    let name = base + suffix;
    assert(name.subrange(name.len() - suffix.len(), name.len() as int) =~= suffix);
    assert(name.subrange(0, name.len() - suffix.len()) =~= base);
}

/// For stems that follow the convention, the names replace one ending by
/// another: a combined stem `base + "MetallicSmoothness"` gives the files
/// `base + "Metallic.png"` and `base + "Roughness.png"`, and a metallic stem
/// `base + "Metallic"` gives the file `base + "MetallicSmoothness.png"`.
pub proof fn lemma_names_of_conventional_stems(base: Seq<char>)
    ensures
        split_names(base + COMBINED_SUFFIX@) == (base + METALLIC_ENDING@, base + ROUGHNESS_ENDING@),
        merge_name(base + METALLIC_SUFFIX@) == base + COMBINED_ENDING@,
{
    lemma_without_appended_suffix(base, COMBINED_SUFFIX@);
    lemma_without_appended_suffix(base, METALLIC_SUFFIX@);
}

} // verus!
