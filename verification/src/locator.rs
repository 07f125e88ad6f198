//! Cover selection: given the ordered list of an archive's entry names,
//! pick the entry whose content should serve as the cover image.
//!
//! The rule, in order of priority: an entry named exactly `cover.jpg`, then
//! one named exactly `cover.png`, then the first entry (by listing index)
//! whose name ends with one of six recognized image suffixes. Ties are broken
//! by listing order; suffixes are matched case-sensitively against a lowercase
//! and an uppercase variant of each of `.jpg`, `.jpeg`, `.png`.

use vstd::prelude::*;
use vstd::string::StrSliceExecFns;

use crate::errors::CoverError;

verus! {

/// `suffix` is a suffix of `s`.
pub open spec fn seq_ends_with(s: Seq<char>, suffix: Seq<char>) -> bool {
    &&& suffix.len() <= s.len()
    &&& forall|k: int| 0 <= k < suffix.len() ==> s[s.len() - suffix.len() + k] == suffix[k]
}

/// Suffix check on character sequences.
fn str_ends_with(s: &str, suffix: &str) -> (r: bool)
    ensures
        r == seq_ends_with(s@, suffix@),
{
    let n: usize = s.unicode_len();
    let m: usize = suffix.unicode_len();
    if m > n {
        return false;
    }
    let mut k: usize = 0;
    while k < m
        invariant
            m <= n,
            n == s@.len(),
            m == suffix@.len(),
            k <= m,
            forall|j: int| 0 <= j < k ==> s@[n - m + j] == suffix@[j],
        decreases m - k,
    {
        if s.get_char(n - m + k) != suffix.get_char(k) {
            return false;
        }
        k = k + 1;
    }
    true
}

/// The name carries one of the six recognized image suffixes.
pub open spec fn is_image_name(name: Seq<char>) -> bool {
    ||| seq_ends_with(name, ".jpg"@)
    ||| seq_ends_with(name, ".png"@)
    ||| seq_ends_with(name, ".jpeg"@)
    ||| seq_ends_with(name, ".JPG"@)
    ||| seq_ends_with(name, ".PNG"@)
    ||| seq_ends_with(name, ".JPEG"@)
}

/// An entry name marks its content as an image, by suffix alone.
pub fn is_image(filename: &str) -> (r: bool)
    ensures
        r == is_image_name(filename@),
{
    str_ends_with(filename, ".jpg") || str_ends_with(filename, ".png") || str_ends_with(
        filename,
        ".jpeg",
    ) || str_ends_with(filename, ".JPG") || str_ends_with(filename, ".PNG") || str_ends_with(
        filename,
        ".JPEG",
    )
}

/// Some entry bears exactly this name.
pub open spec fn has_name(names: Seq<Seq<char>>, target: Seq<char>) -> bool {
    exists|j: int| 0 <= j < names.len() && names[j] == target
}

/// Some entry bears a recognized image suffix.
pub open spec fn has_image(names: Seq<Seq<char>>) -> bool {
    exists|j: int| 0 <= j < names.len() && is_image_name(names[j])
}

/// Index `i` is the entry the cover rule selects from `names`: the first
/// entry named exactly `cover.jpg`; failing that, the first named exactly
/// `cover.png`; failing that, the first whose name carries an image suffix.
pub open spec fn selected_cover(names: Seq<Seq<char>>, i: int) -> bool {
    if has_name(names, "cover.jpg"@) {
        &&& 0 <= i < names.len()
        &&& names[i] == "cover.jpg"@
        &&& forall|j: int| 0 <= j < i ==> names[j] != "cover.jpg"@
    } else if has_name(names, "cover.png"@) {
        &&& 0 <= i < names.len()
        &&& names[i] == "cover.png"@
        &&& forall|j: int| 0 <= j < i ==> names[j] != "cover.png"@
    } else {
        &&& 0 <= i < names.len()
        &&& is_image_name(names[i])
        &&& forall|j: int| 0 <= j < i ==> !is_image_name(names[j])
    }
}

/// First entry bearing exactly the target name, by listing index.
fn find_exact(names: &Vec<String>, target: &String) -> (r: Option<usize>)
    ensures
        r matches Some(i) ==> {
            &&& i < names.len()
            &&& names.deep_view()[i as int] == target@
            &&& forall|j: int| 0 <= j < i ==> names.deep_view()[j] != target@
        },
        r is None ==> !has_name(names.deep_view(), target@),
{
    let ghost ns = names.deep_view();
    let mut i: usize = 0;
    while i < names.len()
        invariant
            ns == names.deep_view(),
            i <= names.len(),
            forall|j: int| 0 <= j < i ==> ns[j] != target@,
        decreases names.len() - i,
    {
        if names[i].eq(target) {
            return Some(i);
        }
        i = i + 1;
    }
    None
}

/// First entry bearing a recognized image suffix, by listing index.
fn find_first_image(names: &Vec<String>) -> (r: Option<usize>)
    ensures
        r matches Some(i) ==> {
            &&& i < names.len()
            &&& is_image_name(names.deep_view()[i as int])
            &&& forall|j: int| 0 <= j < i ==> !is_image_name(names.deep_view()[j])
        },
        r is None ==> !has_image(names.deep_view()),
{
    let ghost ns = names.deep_view();
    let mut i: usize = 0;
    while i < names.len()
        invariant
            ns == names.deep_view(),
            i <= names.len(),
            forall|j: int| 0 <= j < i ==> !is_image_name(ns[j]),
        decreases names.len() - i,
    {
        if is_image(names[i].as_str()) {
            return Some(i);
        }
        i = i + 1;
    }
    None
}

/// The cover locator: selects the entry whose content should serve as the
/// cover, or reports that the archive holds no cover candidate at all.
pub fn select_cover(names: &Vec<String>) -> (r: Result<usize, CoverError>)
    ensures
        r matches Ok(i) ==> selected_cover(names.deep_view(), i as int),
        r is Err <==> {
            &&& !has_name(names.deep_view(), "cover.jpg"@)
            &&& !has_name(names.deep_view(), "cover.png"@)
            &&& !has_image(names.deep_view())
        },
        r is Err ==> r == Err::<usize, CoverError>(CoverError::CoverAbsent),
{
    let ghost ns = names.deep_view();
    let jpg: String = "cover.jpg".to_owned();
    if let Some(i) = find_exact(names, &jpg) {
        proof {
            assert(has_name(ns, "cover.jpg"@));
        }
        return Ok(i);
    }
    let png: String = "cover.png".to_owned();
    if let Some(i) = find_exact(names, &png) {
        proof {
            assert(has_name(ns, "cover.png"@));
        }
        return Ok(i);
    }
    if let Some(i) = find_first_image(names) {
        return Ok(i);
    }
    Err(CoverError::CoverAbsent)
}

/// Law: when an entry named exactly `cover.jpg` or `cover.png` is present,
/// the selection rule picks a cover-named entry, regardless of the other
/// entries present and of their listing order.
pub proof fn lemma_exact_cover_wins(names: Seq<Seq<char>>, i: int)
    requires
        has_name(names, "cover.jpg"@) || has_name(names, "cover.png"@),
        selected_cover(names, i),
    ensures
        names[i] == "cover.jpg"@ || names[i] == "cover.png"@,
{
}

/// Law: with no exact cover-named entry, the selection rule picks the
/// image-suffixed entry with the lowest listing index.
pub proof fn lemma_fallback_lowest_index(names: Seq<Seq<char>>, i: int)
    requires
        !has_name(names, "cover.jpg"@),
        !has_name(names, "cover.png"@),
        selected_cover(names, i),
    ensures
        is_image_name(names[i]),
        forall|j: int| 0 <= j < i ==> !is_image_name(names[j]),
{
}

/// Law: the selection rule is deterministic — any two indices it admits for
/// the same listing coincide, so repeated runs over identical inputs choose
/// the same entry.
pub proof fn lemma_selection_unique(names: Seq<Seq<char>>, i: int, j: int)
    requires
        selected_cover(names, i),
        selected_cover(names, j),
    ensures
        i == j,
{
    if i < j {
        assert(false);
    } else if j < i {
        assert(false);
    }
}

} // verus!

