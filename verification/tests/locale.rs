use locale_validation::locale::{get_lang, message_file_path, to_ascii_lower, Lang, Namespace};

#[test]
fn from_code_knows_the_four_languages() {
    assert_eq!(Lang::from_code("en"), Lang::En);
    assert_eq!(Lang::from_code("id"), Lang::Id);
    assert_eq!(Lang::from_code("de"), Lang::De);
    assert_eq!(Lang::from_code("ja"), Lang::Ja);
}

#[test]
fn from_code_ignores_ascii_case() {
    assert_eq!(Lang::from_code("ID"), Lang::Id);
    assert_eq!(Lang::from_code("De"), Lang::De);
    assert_eq!(Lang::from_code("jA"), Lang::Ja);
    assert_eq!(Lang::from_code("EN"), Lang::En);
}

#[test]
fn from_code_falls_back_to_english() {
    assert_eq!(Lang::from_code("xx"), Lang::En);
    assert_eq!(Lang::from_code(""), Lang::En);
    assert_eq!(Lang::from_code("d"), Lang::En);
    assert_eq!(Lang::from_code("deu"), Lang::En);
    assert_eq!(Lang::from_code(" de"), Lang::En);
    assert_eq!(Lang::from_code("jp"), Lang::En);
    assert_eq!(Lang::from_code("dé"), Lang::En);
}

#[test]
fn from_code_does_not_fold_letters_outside_ascii() {
    // U+0130, a capital I with a dot above, is not an ASCII letter.
    assert_eq!(Lang::from_code("\u{130}d"), Lang::En);
}

#[test]
fn code_is_the_two_letter_code() {
    assert_eq!(Lang::En.code(), "en");
    assert_eq!(Lang::Id.code(), "id");
    assert_eq!(Lang::De.code(), "de");
    assert_eq!(Lang::Ja.code(), "ja");
}

#[test]
fn code_and_from_code_agree() {
    for lang in [Lang::En, Lang::Id, Lang::De, Lang::Ja] {
        assert_eq!(Lang::from_code(lang.code()), lang);
    }
}

#[test]
fn namespace_names() {
    assert_eq!(Namespace::Validation.name(), "validation");
    assert_eq!(Namespace::User.name(), "user");
    assert_eq!(Namespace::Auth.name(), "auth");
}

#[test]
fn message_file_path_has_language_and_namespace() {
    assert_eq!(message_file_path(Lang::De, Namespace::Auth), "locales/de/auth.json");
    assert_eq!(message_file_path(Lang::En, Namespace::Validation), "locales/en/validation.json");
    assert_eq!(message_file_path(Lang::Ja, Namespace::User), "locales/ja/user.json");
    assert_eq!(message_file_path(Lang::Id, Namespace::User), "locales/id/user.json");
}

#[test]
fn to_ascii_lower_folds_only_ascii_capitals() {
    assert_eq!(to_ascii_lower('A'), 'a');
    assert_eq!(to_ascii_lower('Z'), 'z');
    assert_eq!(to_ascii_lower('m'), 'm');
    assert_eq!(to_ascii_lower('@'), '@');
    assert_eq!(to_ascii_lower('['), '[');
    assert_eq!(to_ascii_lower('É'), 'É');
}

#[test]
fn get_lang_takes_the_primary_subtag_of_the_first_entry() {
    assert_eq!(get_lang(Some("id-ID,en;q=0.8")), Lang::Id);
    assert_eq!(get_lang(Some("de-AT")), Lang::De);
    assert_eq!(get_lang(Some("ja")), Lang::Ja);
    assert_eq!(get_lang(Some("JA-jp,de")), Lang::Ja);
}

#[test]
fn get_lang_does_not_read_quality_weights() {
    // The first entry decides, whatever the weights say.
    assert_eq!(get_lang(Some("en;q=0.1,de;q=0.9")), Lang::En);
    // "de;q=0.9" is no language code: nothing is cut at the semicolon.
    assert_eq!(get_lang(Some("de;q=0.9,id")), Lang::En);
}

#[test]
fn get_lang_falls_back_on_unknown_or_absent_preference() {
    assert_eq!(get_lang(Some("xx")), Lang::En);
    assert_eq!(get_lang(Some("")), Lang::En);
    assert_eq!(get_lang(Some(",de")), Lang::En);
    assert_eq!(get_lang(Some("-de")), Lang::En);
    assert_eq!(get_lang(Some(" de")), Lang::En);
    assert_eq!(get_lang(None), Lang::En);
}

#[test]
fn get_lang_does_not_look_past_the_first_entry() {
    assert_eq!(get_lang(Some("fr,de")), Lang::En);
    assert_eq!(get_lang(Some("fr-de")), Lang::En);
}
