use deepl::Lang;
use easy_lang::base::{format_datetime, get_nowtime_str, nowtime_text_at, LocalTime, LAST_CLOCK_SECOND};
use easy_lang::text::same_text;
use easy_lang::translate_module::{code_for_name, lang_from_name};

#[test]
fn names_to_deepl_languages() {
    assert_eq!(lang_from_name("German".to_string()), Some(Lang::DE));
    assert_eq!(lang_from_name("Ukrainian".to_string()), Some(Lang::UK));
    assert_eq!(lang_from_name("Norwegian".to_string()), Some(Lang::NB));
    assert_eq!(lang_from_name("Chinese".to_string()), Some(Lang::ZH));
    assert_eq!(lang_from_name("Latvian".to_string()), Some(Lang::LV));
    assert_eq!(lang_from_name("Lithuanian".to_string()), Some(Lang::LT));
    assert_eq!(lang_from_name("Klingon".to_string()), None);
    assert_eq!(lang_from_name("german".to_string()), None);
}

#[test]
fn every_name_has_a_deepl_language() {
    let names = ["Arabic", "Bulgarian", "Czech", "Danish", "German", "Greek", "English", "Spanish",
        "Estonian", "Finnish", "French", "Hungarian", "Indonesian", "Italian", "Japanese", "Korean",
        "Lithuanian", "Latvian", "Norwegian", "Dutch", "Polish", "Portuguese", "Romanian", "Russian",
        "Slovak", "Slovenian", "Swedish", "Turkish", "Ukrainian", "Chinese"];
    for n in names {
        let code = code_for_name(n).unwrap();
        let lang = lang_from_name(n.to_string()).unwrap();
        assert_eq!(lang.as_ref(), code);
    }
    assert_eq!(code_for_name("English"), Some("EN"));
}

#[test]
fn text_equality() {
    assert!(same_text("abc", "abc"));
    assert!(!same_text("abc", "abd"));
    assert!(!same_text("ab", "abc"));
}

#[test]
fn datetime_text() {
    let t = LocalTime { year: 2024, month: 3, day: 7, hour: 9, minute: 5 };
    assert_eq!(format_datetime(&t), "2024-03-07 09:05");
    let t = LocalTime { year: 999, month: 12, day: 31, hour: 23, minute: 59 };
    assert_eq!(format_datetime(&t), "999-12-31 23:59");
}

#[test]
fn now_has_the_fixed_shape() {
    let s = get_nowtime_str().unwrap();
    let c: Vec<char> = s.chars().collect();
    assert_eq!(c.len(), 16);
    assert_eq!((c[4], c[7], c[10], c[13]), ('-', '-', ' ', ':'));
}

#[test]
fn names_give_distinct_languages() {
    let names = ["Arabic", "Bulgarian", "Czech", "Danish", "German", "Greek", "English", "Spanish",
        "Estonian", "Finnish", "French", "Hungarian", "Indonesian", "Italian", "Japanese", "Korean",
        "Lithuanian", "Latvian", "Norwegian", "Dutch", "Polish", "Portuguese", "Romanian", "Russian",
        "Slovak", "Slovenian", "Swedish", "Turkish", "Ukrainian", "Chinese"];
    for a in names {
        for b in names {
            let la = lang_from_name(a.to_string()).unwrap();
            let lb = lang_from_name(b.to_string()).unwrap();
            assert_eq!(la == lb, a == b);
        }
    }
}

#[test]
fn text_at_a_unix_time() {
    let s = nowtime_text_at(0).unwrap();
    assert_eq!(s.chars().count(), 16);
    assert!(s.starts_with("1970-01-01") || s.starts_with("1969-12-31"));
    assert!(nowtime_text_at(LAST_CLOCK_SECOND).is_some());
    assert_eq!(nowtime_text_at(LAST_CLOCK_SECOND + 1), None);
}
