use easy_lang::models::{
    auth_user_id, dictionaries_query, dictionary_insert_error, first_or_error, first_or_none,
    require_affected, translated_history_query, translated_item_query, LanguageSupported,
    Translated, User, LANGUAGE_NOT_FOUND, SENTENCE_NOT_DELETED,
};
use easy_lang::globals::{AppError, ERROR_PAGE, FOUND};

fn user(id: i32, name: &str, password: &str) -> User {
    User { id, user_name: name.to_string(), password: password.to_string() }
}

#[test]
fn new_translation_is_empty() {
    let t = Translated::new();
    assert_eq!((t.id, t.lang_from_translated_id, t.lang_into_translated_id), (-1, -1, -1));
    assert!(t.translated_text.is_empty() && t.context_text.is_empty());
    assert!(t.deepl_translated.is_empty() && t.deepl_check_deepl.is_empty());
    assert!(t.speak_gpt_translated.is_empty() && t.speak_deepl_check_gpt_translated.is_empty());
    assert!(t.speak_explanation_gpt.is_empty() && t.formal_gpt_translated.is_empty());
    assert!(t.formal_deepl_check_gpt_translated.is_empty() && t.formal_explanation_gpt.is_empty());
    assert!(!t.is_full);
}

#[test]
fn login_checks_first_user_password() {
    let users = vec![user(7, "ann", "secret"), user(8, "ann", "other")];
    assert_eq!(auth_user_id(&users, &"secret".to_string()), 7);
    assert_eq!(auth_user_id(&users, &"other".to_string()), -1);
    assert_eq!(auth_user_id(&vec![], &"secret".to_string()), -1);
}

#[test]
fn first_row_or_error() {
    let langs = vec![
        LanguageSupported { id: 3, language_name: "German".to_string() },
        LanguageSupported { id: 4, language_name: "French".to_string() },
    ];
    let l = first_or_error(langs, LANGUAGE_NOT_FOUND).ok().unwrap();
    assert_eq!((l.id, l.language_name.as_str()), (3, "German"));
    let e = first_or_error(Vec::<LanguageSupported>::new(), LANGUAGE_NOT_FOUND).err().unwrap();
    assert_eq!(e.0, "couldn't find the language");
}

#[test]
fn first_id_or_minus_one() {
    assert_eq!(first_or_none(&vec![12, 5]), 12);
    assert_eq!(first_or_none(&vec![]), -1);
}

#[test]
fn affected_rows() {
    assert_eq!(require_affected(2, SENTENCE_NOT_DELETED).ok(), Some(true));
    let e = require_affected(0, SENTENCE_NOT_DELETED).err().unwrap();
    assert_eq!(e.0, "No dictionary entry found with the specified ID");
}

#[test]
fn insert_error_message() {
    let e = dictionary_insert_error(3, -2);
    assert_eq!(e.0, "Failed to insert dictionary with language ID 3 and level -2");
}

#[test]
fn history_queries() {
    assert_eq!(
        translated_history_query(20, 10, 5, 2),
        "SELECT * FROM translation_history WHERE user_id=5 AND lang_into_translated_id=2 ORDER BY id DESC LIMIT 10 OFFSET 20 ;"
    );
    assert_eq!(
        translated_history_query(0, 10, 5, -1),
        "SELECT * FROM translation_history WHERE user_id=5 ORDER BY id DESC LIMIT 10 OFFSET 0 ;"
    );
    assert_eq!(
        translated_item_query(9, 5),
        "SELECT * FROM translation_history WHERE user_id=5 AND id=9;"
    );
}

#[test]
fn dictionary_queries() {
    assert_eq!(dictionaries_query(4, 0, 0), "SELECT * FROM anki_sentences WHERE user_dictionaries=4 ORDER BY id DESC;");
    assert_eq!(dictionaries_query(4, 0, 1), "SELECT * FROM anki_sentences WHERE user_dictionaries=4 ORDER BY id DESC LIMIT 1;");
    assert_eq!(dictionaries_query(4, 30, 10), "SELECT * FROM anki_sentences WHERE user_dictionaries=4 ORDER BY id DESC LIMIT 10 OFFSET 30;");
    assert_eq!(dictionaries_query(4, -10, -1), "SELECT * FROM anki_sentences WHERE user_dictionaries=4 ORDER BY id DESC;");
}

#[test]
fn errors_redirect() {
    let e = AppError::new("boom");
    assert_eq!(e.0, "boom");
    assert_eq!(e.status_code(), 302);
    assert_eq!(FOUND, 302);
    assert_eq!(e.redirect_location(), "/error");
    assert_eq!(ERROR_PAGE, "/error");
}
