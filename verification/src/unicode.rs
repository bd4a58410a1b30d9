//! The Unicode normalization transforms, as the `unicode-normalization` crate
//! computes them. Nothing in this file is proved: each item states what the
//! rest of the library relies on.

use unicode_normalization::UnicodeNormalization;
use vstd::prelude::*;

verus! {

/// The text that `UnicodeNormalization::nfc` yields for `text`: its
/// Normalization Form C.
pub uninterp spec fn nfc_of(text: Seq<char>) -> Seq<char>;

/// The text that `UnicodeNormalization::nfd` yields for `text`: its
/// Normalization Form D.
pub uninterp spec fn nfd_of(text: Seq<char>) -> Seq<char>;

/// The text that `UnicodeNormalization::nfkc` yields for `text`: its
/// Normalization Form KC.
pub uninterp spec fn nfkc_of(text: Seq<char>) -> Seq<char>;

/// The text that `UnicodeNormalization::nfkd` yields for `text`: its
/// Normalization Form KD.
pub uninterp spec fn nfkd_of(text: Seq<char>) -> Seq<char>;

/// `unicode_normalization::is_nfc` answers whether a text is in Form C. It
/// settles the clear cases from the per-character quick-check property and
/// compares the text with its own `nfc()` in the others; the claim here is
/// that both ways agree, as the crate's "authoritatively" promises.
pub assume_specification[ unicode_normalization::is_nfc ](s: &str) -> (b: bool)
    ensures
        b == (nfc_of(s@) == s@),
;

/// `unicode_normalization::is_nfd`: whether a text is in Form D, that is,
/// whether `nfd()` leaves it as it is.
pub assume_specification[ unicode_normalization::is_nfd ](s: &str) -> (b: bool)
    ensures
        b == (nfd_of(s@) == s@),
;

/// `unicode_normalization::is_nfkc`: whether a text is in Form KC, that is,
/// whether `nfkc()` leaves it as it is.
pub assume_specification[ unicode_normalization::is_nfkc ](s: &str) -> (b: bool)
    ensures
        b == (nfkc_of(s@) == s@),
;

/// `unicode_normalization::is_nfkd`: whether a text is in Form KD, that is,
/// whether `nfkd()` leaves it as it is.
pub assume_specification[ unicode_normalization::is_nfkd ](s: &str) -> (b: bool)
    ensures
        b == (nfkd_of(s@) == s@),
;

/// Collects `UnicodeNormalization::nfc` over a text. The crate documents the
/// result as the text in Form C; the second clause claims that the result is
/// itself in Form C, which Unicode Standard Annex #15 requires of the transform.
#[verifier::external_body]
pub(crate) fn to_nfc(s: &str) -> (r: String)
    ensures
        r@ == nfc_of(s@),
        nfc_of(r@) == r@,
{
    s.nfc().collect::<String>()
}

/// Collects `UnicodeNormalization::nfd` over a text. The result is the text in
/// Form D, and is itself in Form D.
#[verifier::external_body]
pub(crate) fn to_nfd(s: &str) -> (r: String)
    ensures
        r@ == nfd_of(s@),
        nfd_of(r@) == r@,
{
    s.nfd().collect::<String>()
}

/// Collects `UnicodeNormalization::nfkc` over a text. The result is the text in
/// Form KC, and is itself in Form KC.
#[verifier::external_body]
pub(crate) fn to_nfkc(s: &str) -> (r: String)
    ensures
        r@ == nfkc_of(s@),
        nfkc_of(r@) == r@,
{
    s.nfkc().collect::<String>()
}

/// Collects `UnicodeNormalization::nfkd` over a text. The result is the text in
/// Form KD, and is itself in Form KD.
#[verifier::external_body]
pub(crate) fn to_nfkd(s: &str) -> (r: String)
    ensures
        r@ == nfkd_of(s@),
        nfkd_of(r@) == r@,
{
    s.nfkd().collect::<String>()
}

} // verus!
