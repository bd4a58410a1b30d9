use unicode_normalizer::form::{NormalizationForm, FORMS};

#[test]
fn parse_reads_each_of_the_four_names() {
    assert_eq!(NormalizationForm::parse("NFC"), Some(NormalizationForm::Nfc));
    assert_eq!(NormalizationForm::parse("NFD"), Some(NormalizationForm::Nfd));
    assert_eq!(NormalizationForm::parse("NFKC"), Some(NormalizationForm::Nfkc));
    assert_eq!(NormalizationForm::parse("NFKD"), Some(NormalizationForm::Nfkd));
}

#[test]
fn parse_refuses_everything_else() {
    assert_eq!(NormalizationForm::parse(""), None);
    assert_eq!(NormalizationForm::parse("nfc"), None);
    assert_eq!(NormalizationForm::parse("Nfd"), None);
    assert_eq!(NormalizationForm::parse(" NFC"), None);
    assert_eq!(NormalizationForm::parse("NFC "), None);
    assert_eq!(NormalizationForm::parse("NF"), None);
    assert_eq!(NormalizationForm::parse("NFK"), None);
    assert_eq!(NormalizationForm::parse("NFKCD"), None);
    assert_eq!(NormalizationForm::parse("NFE"), None);
    assert_eq!(NormalizationForm::parse("\u{ff2e}\u{ff26}\u{ff23}"), None);
}

#[test]
fn name_gives_the_upper_case_name() {
    assert_eq!(NormalizationForm::Nfc.name(), "NFC");
    assert_eq!(NormalizationForm::Nfd.name(), "NFD");
    assert_eq!(NormalizationForm::Nfkc.name(), "NFKC");
    assert_eq!(NormalizationForm::Nfkd.name(), "NFKD");
}

#[test]
fn each_form_is_found_again_from_its_name() {
    let all = [
        NormalizationForm::Nfc,
        NormalizationForm::Nfd,
        NormalizationForm::Nfkc,
        NormalizationForm::Nfkd,
    ];
    for form in all {
        assert_eq!(NormalizationForm::parse(form.name()), Some(form));
    }
}

#[test]
fn forms_lists_the_four_names_in_order() {
    assert_eq!(FORMS, ["NFC", "NFD", "NFKC", "NFKD"]);
    assert_eq!(FORMS.join(", "), "NFC, NFD, NFKC, NFKD");
    for name in FORMS {
        assert_eq!(NormalizationForm::parse(name).map(|form| form.name()), Some(name));
    }
}
