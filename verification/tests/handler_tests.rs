use easy_lang::controllers::{
    dictionary_index_by_name, dictionary_rows, history_location, is_all_languages,
    new_sentence_position, page_offset, position_after_export, repair_after_newer, repair_after_older, repair_start,
    DictionariesInfo, DumpRepair, DICTIONARY_FIRST_PAGE, LOGIN_PAGE,
};
use easy_lang::models::{Dictionary_Sentence, UserDictionary};

fn dict(id: i32, name: &str) -> UserDictionary {
    UserDictionary {
        id,
        language_name: name.to_string(),
        language_id: id * 10,
        language_level: "B1".to_string(),
        language_level_id: 3,
    }
}

fn sentence(id: i32) -> Dictionary_Sentence {
    Dictionary_Sentence {
        id,
        user_dictionaries: 1,
        sentence_from: String::new(),
        sentence_from_context: String::new(),
        sentence_into: String::new(),
        transcription_eng: String::new(),
        transcription_ukr: String::new(),
    }
}

#[test]
fn chooses_dictionary_by_name() {
    let ds = vec![dict(1, "English"), dict(2, "German"), dict(3, "German")];
    assert_eq!(dictionary_index_by_name(&ds, "German"), 1);
    assert_eq!(dictionary_index_by_name(&ds, "English"), 0);
    assert_eq!(dictionary_index_by_name(&ds, "French"), 0);
    assert_eq!(dictionary_index_by_name(&vec![], "French"), 0);
}

#[test]
fn rows_for_new_dictionaries() {
    let info = DictionariesInfo { dictionaries_ids: vec![1, 3], dictionaries_level_ids: vec![5, 6, 7] };
    assert_eq!(dictionary_rows(&info, 9), vec![(9, 1, 5), (9, 3, 6)]);
}

#[test]
fn pages_and_locations() {
    assert_eq!(page_offset(1), 0);
    assert_eq!(page_offset(4), 30);
    assert_eq!(page_offset(0), -10);
    assert_eq!(history_location("German"), "/userspace/translate/history/German/p/1");
    assert!(is_all_languages("all"));
    assert!(!is_all_languages("All"));
    assert_eq!(LOGIN_PAGE, "/login");
    assert_eq!(DICTIONARY_FIRST_PAGE, "/userspace/dictionary/p/1");
}

fn run(position: i32, deleted: i32, older: i32, newer: i32) -> DumpRepair {
    match repair_start(position, deleted) {
        DumpRepair::FindOlder => match repair_after_older(older) {
            DumpRepair::FindNewer => repair_after_newer(newer),
            other => other,
        },
        other => other,
    }
}

#[test]
fn export_position_repair() {
    assert!(matches!(run(5, 6, 4, 7), DumpRepair::Keep));
    assert!(matches!(run(6, 6, 4, 7), DumpRepair::MoveTo(4)));
    assert!(matches!(run(6, 6, -1, 7), DumpRepair::MoveTo(7)));
    assert!(matches!(run(6, 6, -1, -1), DumpRepair::Remove));
}

#[test]
fn position_for_new_sentence() {
    assert_eq!(new_sentence_position(-1, &vec![sentence(12), sentence(11)]), Some(12));
    assert_eq!(new_sentence_position(4, &vec![sentence(12)]), None);
    assert_eq!(new_sentence_position(4, &vec![]), None);
}

#[test]
fn position_after_an_export() {
    assert_eq!(position_after_export(&vec![sentence(30), sentence(29)]), 30);
}

#[test]
fn repair_never_keeps_the_deleted_sentence() {
    for (older, newer) in [(4, 7), (-1, 7), (4, -1), (-1, -1)] {
        match run(6, 6, older, newer) {
            DumpRepair::MoveTo(id) => assert!(id != 6),
            DumpRepair::Keep => panic!("kept the deleted sentence"),
            _ => {}
        }
    }
}
