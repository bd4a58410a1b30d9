//! The four Unicode normalization forms and their names.

use vstd::prelude::*;

verus! {

/// One of the four normalization forms of Unicode.
#[derive(Clone, Copy, Debug, PartialEq, Eq, Structural)]
pub enum NormalizationForm {
    /// Canonical decomposition followed by canonical composition.
    Nfc,
    /// Canonical decomposition.
    Nfd,
    /// Compatibility decomposition followed by canonical composition.
    Nfkc,
    /// Compatibility decomposition.
    Nfkd,
}

/// The names of the four forms, in the order in which they are offered.
pub const FORMS: [&'static str; 4] = ["NFC", "NFD", "NFKC", "NFKD"];

/// The name under which a form is selected.
pub open spec fn form_name(form: NormalizationForm) -> Seq<char> {
    match form {
        NormalizationForm::Nfc => seq!['N', 'F', 'C'],
        NormalizationForm::Nfd => seq!['N', 'F', 'D'],
        NormalizationForm::Nfkc => seq!['N', 'F', 'K', 'C'],
        NormalizationForm::Nfkd => seq!['N', 'F', 'K', 'D'],
    }
}

/// The form that a name selects, if it selects one. Names are matched exactly:
/// upper case, no surrounding space.
pub open spec fn form_named(name: Seq<char>) -> Option<NormalizationForm> {
    if name == form_name(NormalizationForm::Nfc) {
        Some(NormalizationForm::Nfc)
    } else if name == form_name(NormalizationForm::Nfd) {
        Some(NormalizationForm::Nfd)
    } else if name == form_name(NormalizationForm::Nfkc) {
        Some(NormalizationForm::Nfkc)
    } else if name == form_name(NormalizationForm::Nfkd) {
        Some(NormalizationForm::Nfkd)
    } else {
        None
    }
}

/// Whether a name selects one of the four forms.
pub open spec fn is_form_name(name: Seq<char>) -> bool {
    form_named(name).is_some()
}

/// The four names are pairwise distinct, so each form is found again from its
/// own name.
pub proof fn lemma_form_name_round_trip(form: NormalizationForm)
    ensures
        form_named(form_name(form)) == Some(form),
{
    let c = form_name(NormalizationForm::Nfc);
    let d = form_name(NormalizationForm::Nfd);
    let kc = form_name(NormalizationForm::Nfkc);
    let kd = form_name(NormalizationForm::Nfkd);
    assert(c[2] == 'C' && d[2] == 'D' && kc[2] == 'K' && kd[2] == 'K');
    assert(kc[3] == 'C' && kd[3] == 'D');
}

/// A name selects a form exactly when it is that form's name.
pub proof fn lemma_form_named_is_inverse(name: Seq<char>, form: NormalizationForm)
    ensures
        form_named(name) == Some(form) <==> name == form_name(form),
{
    lemma_form_name_round_trip(form);
}

/// `FORMS` holds the names of the four forms, each once.
pub proof fn lemma_forms_are_the_names()
    ensures
        FORMS[0]@ == form_name(NormalizationForm::Nfc),
        FORMS[1]@ == form_name(NormalizationForm::Nfd),
        FORMS[2]@ == form_name(NormalizationForm::Nfkc),
        FORMS[3]@ == form_name(NormalizationForm::Nfkd),
{
    reveal_strlit("NFC");
    reveal_strlit("NFD");
    reveal_strlit("NFKC");
    reveal_strlit("NFKD");
    assert(FORMS[0]@ =~= form_name(NormalizationForm::Nfc));
    assert(FORMS[1]@ =~= form_name(NormalizationForm::Nfd));
    assert(FORMS[2]@ =~= form_name(NormalizationForm::Nfkc));
    assert(FORMS[3]@ =~= form_name(NormalizationForm::Nfkd));
}

impl NormalizationForm {
    /// The form's name, in upper case.
    pub fn name(self) -> (r: &'static str)
        ensures
            r@ == form_name(self),
    {
        proof {
            reveal_strlit("NFC");
            reveal_strlit("NFD");
            reveal_strlit("NFKC");
            reveal_strlit("NFKD");
        }
        let r = match self {
            NormalizationForm::Nfc => "NFC",
            NormalizationForm::Nfd => "NFD",
            NormalizationForm::Nfkc => "NFKC",
            NormalizationForm::Nfkd => "NFKD",
        };
        assert(r@ =~= form_name(self));
        r
    }

    /// Reads a form's name. Gives `None` for every text but the four names.
    pub fn parse(name: &str) -> (r: Option<NormalizationForm>)
        ensures
            r == form_named(name@),
    {
        let owned = name.to_owned();
        if owned == NormalizationForm::Nfc.name().to_owned() {
            Some(NormalizationForm::Nfc)
        } else if owned == NormalizationForm::Nfd.name().to_owned() {
            Some(NormalizationForm::Nfd)
        } else if owned == NormalizationForm::Nfkc.name().to_owned() {
            Some(NormalizationForm::Nfkc)
        } else if owned == NormalizationForm::Nfkd.name().to_owned() {
            Some(NormalizationForm::Nfkd)
        } else {
            None
        }
    }
}

} // verus!
