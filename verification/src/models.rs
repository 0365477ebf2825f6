//! The records that the database holds, and the logic around the database:
//! the queries that are built as text, and what is made of the rows and
//! counts that come back.

use vstd::prelude::*;
use vstd::string::*;
use crate::globals::AppError;
use crate::text::{push_signed, signed_decimal};

verus! {

/// A registered user.
pub struct User {
    pub id: i32,
    pub user_name: String,
    pub password: String,
}

/// A dictionary of a user: one language that the user learns, at a level.
pub struct UserDictionary {
    pub id: i32,
    pub language_name: String,
    pub language_id: i32,
    pub language_level: String,
    pub language_level_id: i32,
}

/// A language that the service supports.
pub struct LanguageSupported {
    pub id: i32,
    pub language_name: String,
}

/// A level of language knowledge (A1 to C2).
pub struct LanguagesLevels {
    pub id: i32,
    pub level_name: String,
}

/// A saved translation, with the answers of each translation service.
pub struct Translated {
    pub id: i32,
    pub lang_from_translated_id: i32,
    pub lang_into_translated_id: i32,
    pub translated_text: String,
    pub context_text: String,
    pub deepl_translated: String,
    pub deepl_check_deepl: String,
    pub speak_gpt_translated: String,
    pub speak_deepl_check_gpt_translated: String,
    pub speak_explanation_gpt: String,
    pub formal_gpt_translated: String,
    pub formal_deepl_check_gpt_translated: String,
    pub formal_explanation_gpt: String,
    pub is_full: bool,
}

/// Names a saved translation.
pub struct TranslatedId {
    pub id: i32,
}

/// Names a dictionary sentence.
pub struct SentenceId {
    pub id: i32,
}

/// A sentence of a user's dictionary, with its translation and transcriptions.
#[allow(non_camel_case_types)]
pub struct Dictionary_Sentence {
    pub id: i32,
    pub user_dictionaries: i32,
    pub sentence_from: String,
    pub sentence_from_context: String,
    pub sentence_into: String,
    pub transcription_eng: String,
    pub transcription_ukr: String,
}

impl Translated {
    /// An empty translation: every id -1, every text empty, not full.
    pub fn new() -> (t: Self)
        ensures
            t.id == -1,
            t.lang_from_translated_id == -1,
            t.lang_into_translated_id == -1,
            t.translated_text@ == Seq::<char>::empty(),
            t.context_text@ == Seq::<char>::empty(),
            t.deepl_translated@ == Seq::<char>::empty(),
            t.deepl_check_deepl@ == Seq::<char>::empty(),
            t.speak_gpt_translated@ == Seq::<char>::empty(),
            t.speak_deepl_check_gpt_translated@ == Seq::<char>::empty(),
            t.speak_explanation_gpt@ == Seq::<char>::empty(),
            t.formal_gpt_translated@ == Seq::<char>::empty(),
            t.formal_deepl_check_gpt_translated@ == Seq::<char>::empty(),
            t.formal_explanation_gpt@ == Seq::<char>::empty(),
            !t.is_full,
    {
        Self {
            id: -1,
            lang_from_translated_id: -1,
            lang_into_translated_id: -1,
            translated_text: String::new(),
            context_text: String::new(),
            deepl_translated: String::new(),
            deepl_check_deepl: String::new(),
            speak_gpt_translated: String::new(),
            speak_deepl_check_gpt_translated: String::new(),
            speak_explanation_gpt: String::new(),
            formal_gpt_translated: String::new(),
            formal_deepl_check_gpt_translated: String::new(),
            formal_explanation_gpt: String::new(),
            is_full: false,
        }
    }
}

/// The id that a login attempt gives: the id of the first user found under
/// the name when the password matches, and -1 otherwise.
pub open spec fn login_result(users: Seq<User>, password: Seq<char>) -> i32 {
    if users.len() > 0 && users[0].password@ == password {
        users[0].id
    } else {
        -1i32
    }
}

/// Decides a login from the users found under the given name.
pub fn auth_user_id(users: &Vec<User>, password: &String) -> (id: i32)
    ensures
        id == login_result(users@, password@),
{
    if users.len() > 0 && users[0].password == *password {
        users[0].id
    } else {
        -1
    }
}

/// The first row of a lookup, or the error with the given message when the
/// lookup found nothing.
pub fn first_or_error<T>(rows: Vec<T>, message: &str) -> (r: Result<T, AppError>)
    ensures
        rows@.len() > 0 ==> r == Ok::<T, AppError>(rows@[0]),
        rows@.len() == 0 ==> (r matches Err(e) && e.0@ == message@),
{
    let mut rows = rows;
    if rows.len() == 0 {
        Err(AppError::new(message))
    } else {
        Ok(rows.remove(0))
    }
}

/// The first id of a lookup, or -1 when the lookup found nothing.
pub fn first_or_none(ids: &Vec<i32>) -> (id: i32)
    ensures
        id == (if ids@.len() > 0 { ids@[0] } else { -1i32 }),
{
    if ids.len() > 0 {
        ids[0]
    } else {
        -1
    }
}

/// A statement that had to change a row: `Ok(true)` when it changed some,
/// the error with the given message when it changed none.
pub fn require_affected(rows: u64, message: &str) -> (r: Result<bool, AppError>)
    ensures
        rows > 0 ==> r == Ok::<bool, AppError>(true),
        rows == 0 ==> (r matches Err(e) && e.0@ == message@),
{
    if rows == 0 {
        Err(AppError::new(message))
    } else {
        Ok(true)
    }
}

/// Reported when a language lookup finds nothing.
pub const LANGUAGE_NOT_FOUND: &'static str = "couldn't find the language";

/// Reported when a saved translation is not found.
pub const HISTORY_NOT_FOUND: &'static str = "couldn't find the history";

/// Reported when a saved translation could not be deleted.
pub const TRANSLATION_NOT_DELETED: &'static str =
    "No translation history found with the specified ID or you don't have permission to delete it";

/// Reported when a dictionary sentence could not be deleted.
pub const SENTENCE_NOT_DELETED: &'static str = "No dictionary entry found with the specified ID";

/// Reported when a dictionary has no export position.
pub const DUMP_NOT_FOUND: &'static str = "No anki dump found for the specified user dictionary";

/// Reported when an export position could not be recorded.
pub const DUMP_NOT_ADDED: &'static str = "Failed to add index dump record";

/// Reported when a dictionary sentence could not be added.
pub const SENTENCE_NOT_ADDED: &'static str = "Failed to add dictionary sentence";

/// The message reported when a dictionary could not be created.
pub open spec fn dictionary_insert_message(lang_id: i32, level_id: i32) -> Seq<char> {
    "Failed to insert dictionary with language ID "@ + signed_decimal(lang_id as int)
        + " and level "@ + signed_decimal(level_id as int)
}

/// The error reported when a dictionary could not be created.
pub fn dictionary_insert_error(lang_id: i32, level_id: i32) -> (e: AppError)
    ensures
        e.0@ == dictionary_insert_message(lang_id, level_id),
{
    let mut s = String::new();
    s.append("Failed to insert dictionary with language ID ");
    push_signed(&mut s, lang_id as i64);
    s.append(" and level ");
    push_signed(&mut s, level_id as i64);
    AppError(s)
}

/// The query for a page of a user's saved translations, newest first; with
/// `lang_id` -1 it covers every language, otherwise the translations into
/// that language.
pub open spec fn history_query(start: i32, size: i32, user_id: i32, lang_id: i32) -> Seq<char> {
    if lang_id != -1 {
        "SELECT * FROM translation_history WHERE user_id="@ + signed_decimal(user_id as int)
            + " AND lang_into_translated_id="@ + signed_decimal(lang_id as int)
            + " ORDER BY id DESC LIMIT "@ + signed_decimal(size as int) + " OFFSET "@
            + signed_decimal(start as int) + " ;"@
    } else {
        "SELECT * FROM translation_history WHERE user_id="@ + signed_decimal(user_id as int)
            + " ORDER BY id DESC LIMIT "@ + signed_decimal(size as int) + " OFFSET "@
            + signed_decimal(start as int) + " ;"@
    }
}

/// Builds `history_query`.
pub fn translated_history_query(start: i32, size: i32, user_id: i32, lang_id: i32) -> (q: String)
    ensures
        q@ == history_query(start, size, user_id, lang_id),
{
    let mut q = String::new();
    q.append("SELECT * FROM translation_history WHERE user_id=");
    push_signed(&mut q, user_id as i64);
    if lang_id != -1 {
        q.append(" AND lang_into_translated_id=");
        push_signed(&mut q, lang_id as i64);
    }
    q.append(" ORDER BY id DESC LIMIT ");
    push_signed(&mut q, size as i64);
    q.append(" OFFSET ");
    push_signed(&mut q, start as i64);
    q.append(" ;");
    q
}

/// The query for the sentences of a dictionary, newest first; a positive
/// `size` limits their number and a positive `start` skips that many.
pub open spec fn sentences_query(dict_id: i32, start: i32, size: i32) -> Seq<char> {
    "SELECT * FROM anki_sentences WHERE user_dictionaries="@ + signed_decimal(dict_id as int)
        + " ORDER BY id DESC"@
        + (if size > 0 { " LIMIT "@ + signed_decimal(size as int) } else { seq![] })
        + (if start > 0 { " OFFSET "@ + signed_decimal(start as int) } else { seq![] })
        + ";"@
}

/// Builds `sentences_query`.
pub fn dictionaries_query(dict_id: i32, start: i32, size: i32) -> (q: String)
    ensures
        q@ == sentences_query(dict_id, start, size),
{
    let mut q = String::new();
    q.append("SELECT * FROM anki_sentences WHERE user_dictionaries=");
    push_signed(&mut q, dict_id as i64);
    q.append(" ORDER BY id DESC");
    let ghost base = q@;
    if size > 0 {
        q.append(" LIMIT ");
        push_signed(&mut q, size as i64);
    }
    let ghost limited = q@;
    if start > 0 {
        q.append(" OFFSET ");
        push_signed(&mut q, start as i64);
    }
    let ghost skipped = q@;
    q.append(";");
    proof {
        let lim: Seq<char> = if size > 0 { " LIMIT "@ + signed_decimal(size as int) } else { seq![] };
        let off: Seq<char> = if start > 0 { " OFFSET "@ + signed_decimal(start as int) } else { seq![] };
        assert(limited =~= base + lim);
        assert(skipped =~= base + lim + off);
    }
    q
}

/// The query for one saved translation of a user.
pub open spec fn history_item_query(id_item: i32, user_id: i32) -> Seq<char> {
    "SELECT * FROM translation_history WHERE user_id="@ + signed_decimal(user_id as int)
        + " AND id="@ + signed_decimal(id_item as int) + ";"@
}

/// Builds `history_item_query`.
pub fn translated_item_query(id_item: i32, user_id: i32) -> (q: String)
    ensures
        q@ == history_item_query(id_item, user_id),
{
    let mut q = String::new();
    q.append("SELECT * FROM translation_history WHERE user_id=");
    push_signed(&mut q, user_id as i64);
    q.append(" AND id=");
    push_signed(&mut q, id_item as i64);
    q.append(";");
    q
}

/// The part of a history query that names the user.
pub open spec fn history_prefix(user_id: i32) -> Seq<char> {
    "SELECT * FROM translation_history WHERE user_id="@ + signed_decimal(user_id as int)
}

/// The language filter of a history query depends on the language alone:
/// for any language other than -1, the query is the query over every
/// language with " AND lang_into_translated_id=" and the language inserted
/// right after the user, whatever the page; the query over every language
/// starts with the user part and holds no filter after it.
pub proof fn lemma_history_language_filter(start: i32, size: i32, user_id: i32, lang_id: i32)
    ensures
        history_query(start, size, user_id, -1i32).take(history_prefix(user_id).len() as int)
            == history_prefix(user_id),
        history_query(start, size, user_id, -1i32).skip(history_prefix(user_id).len() as int)
            == " ORDER BY id DESC LIMIT "@ + signed_decimal(size as int) + " OFFSET "@
            + signed_decimal(start as int) + " ;"@,
        lang_id != -1 ==> history_query(start, size, user_id, lang_id) == history_prefix(user_id)
            + " AND lang_into_translated_id="@ + signed_decimal(lang_id as int)
            + history_query(start, size, user_id, -1i32).skip(history_prefix(user_id).len() as int),
{
    let p = history_prefix(user_id);
    let tail = " ORDER BY id DESC LIMIT "@ + signed_decimal(size as int) + " OFFSET "@
        + signed_decimal(start as int) + " ;"@;
    let all = history_query(start, size, user_id, -1i32);
    assert(all =~= p + tail);
    assert(all.take(p.len() as int) =~= p);
    assert(all.skip(p.len() as int) =~= tail);
    if lang_id != -1 {
        assert(history_query(start, size, user_id, lang_id) =~= p + " AND lang_into_translated_id="@
            + signed_decimal(lang_id as int) + tail);
    }
}

/// The query for all sentences of a dictionary, newest first.
pub open spec fn sentences_base(dict_id: i32) -> Seq<char> {
    "SELECT * FROM anki_sentences WHERE user_dictionaries="@ + signed_decimal(dict_id as int)
        + " ORDER BY id DESC"@
}

/// The limit and the offset of a sentences query each depend on their own
/// argument alone: with no limit and no offset it is the query for all
/// sentences; a positive size adds " LIMIT " and the size, whatever the
/// start; a positive start adds " OFFSET " and the start before the final
/// ';', whatever the size; a start or size that is not positive adds nothing.
pub proof fn lemma_sentences_limit_offset(dict_id: i32, start: i32, size: i32)
    ensures
        sentences_query(dict_id, 0i32, 0i32) == sentences_base(dict_id) + ";"@,
        size > 0 ==> sentences_query(dict_id, 0i32, size) == sentences_base(dict_id) + " LIMIT "@
            + signed_decimal(size as int) + ";"@,
        size <= 0 ==> sentences_query(dict_id, 0i32, size) == sentences_query(dict_id, 0i32, 0i32),
        start > 0 ==> sentences_query(dict_id, start, size) == sentences_query(dict_id, 0i32, size).drop_last()
            + " OFFSET "@ + signed_decimal(start as int) + ";"@,
        start <= 0 ==> sentences_query(dict_id, start, size) == sentences_query(dict_id, 0i32, size),
{
    let b = sentences_base(dict_id);
    let lim: Seq<char> = if size > 0 { " LIMIT "@ + signed_decimal(size as int) } else { seq![] };
    reveal_strlit(";");
    assert(sentences_query(dict_id, 0i32, 0i32) =~= b + ";"@);
    assert(sentences_query(dict_id, 0i32, size) =~= b + lim + ";"@);
    assert((b + lim + ";"@).drop_last() =~= b + lim);
    if start > 0 {
        assert(sentences_query(dict_id, start, size) =~= b + lim + " OFFSET "@ + signed_decimal(start as int) + ";"@);
    } else {
        assert(sentences_query(dict_id, start, size) =~= b + lim + ";"@);
    }
}

} // verus!
