use walllit::language::{t, Language, Text};
use walllit::text::{is_whitespace, same_text};

#[test]
fn locale_names_choose_the_interface_language() {
    assert_eq!(Language::from_locale("pt-BR"), Language::PtBr);
    assert_eq!(Language::from_locale("PT_pt"), Language::PtBr);
    assert_eq!(Language::from_locale("es-MX"), Language::Es);
    assert_eq!(Language::from_locale("ru"), Language::Ru);
    assert_eq!(Language::from_locale("en-US"), Language::En);
    assert_eq!(Language::from_locale("de-DE"), Language::En);
    assert_eq!(Language::from_locale("port"), Language::En);
    assert_eq!(Language::from_locale(""), Language::En);
}

#[test]
fn each_language_names_itself_and_translates() {
    assert_eq!(Language::PtBr.label(), "Português");
    assert_eq!(Language::En.label(), "English");
    assert_eq!(Language::Es.label(), "Español");
    assert_eq!(Language::Ru.label(), "Русский");
    assert_eq!(t(Language::PtBr, Text::Save), "Salvar");
    assert_eq!(t(Language::En, Text::Save), "Save");
    assert_eq!(t(Language::Es, Text::Save), "Guardar");
    assert_eq!(t(Language::Ru, Text::Save), "Сохранить");
    assert_eq!(t(Language::En, Text::Saved), "Saved");
    assert_eq!(Language::ALL.len(), 4);
}

#[test]
fn texts_compare_by_characters() {
    assert!(same_text("abc", "abc"));
    assert!(!same_text("abc", "abd"));
    assert!(!same_text("abc", "ab"));
}

#[test]
fn whitespace_is_the_unicode_white_space_set() {
    for code in 0u32..=0x10ffff {
        if let Some(c) = char::from_u32(code) {
            assert_eq!(is_whitespace(c), c.is_whitespace(), "U+{code:04X}");
        }
    }
}
