//! The requests sent to the chat model: translation in a register and a
//! length, transcription, assessment of a learner's translation, and the
//! words of a sentence puzzle.

use vstd::prelude::*;
use vstd::string::*;
use crate::globals::AppError;
use crate::text::{decimal, push_decimal, split_words, texts, words};

verus! {

/// Opens a translation request: the teacher role.
pub const TRANSLATE_OPENING: &'static str =
    "Будь вчителем ";

/// The answer format of a translation request, up to the question.
pub const TRANSLATE_ANSWER_FORMAT: &'static str =
    " мови.\nВідповідайте лише у форматі JSON із такими даними:\n{\n      \"sentence:\"\",\n      \"explanation\":\"\"\n}\nЯк сказати моє речення ";

/// Asks for the conversational register.
pub const TRANSLATE_CONVERSATIONAL: &'static str =
    " мовою, розмовною ";

/// Asks for the formal register.
pub const TRANSLATE_FORMAL: &'static str =
    " мовою, формальною ";

/// Introduces the language of the sentence.
pub const TRANSLATE_SOURCE: &'static str =
    " мовою, щоб передати той самий зміст, та сенс. Моє речення написане ";

/// Introduces the sentence.
pub const TRANSLATE_SENTENCE: &'static str =
    " мовою: \"";

/// Introduces the meaning that the sentence should convey.
pub const TRANSLATE_MEANING: &'static str =
    "\".\nЯ також наведу вам значення речення, яке я хотів передати: \"";

/// Closes a request for a full translation, up to the language of the explanation.
pub const TRANSLATE_CLOSING_FULL: &'static str =
    "\".\nУ відповідь:\nПоле \"sentence\" має містити твоє речення яке ти створив. Поле \"explanation\" повинно містити коротке пояснення вашого стовреного речення, твоє поясення має бути написано ";

/// Closes a request for a shortened translation, up to the language of the explanation.
pub const TRANSLATE_CLOSING_SHORT: &'static str =
    "\".\nПо можливості скороти речення, але щоб зміст та сенс не втратився.\nУ відповідь:\nПоле \"sentence\" має містити твоє речення яке ти створив. Поле \"explanation\" повинно містити коротке пояснення вашого стовреного речення, твоє поясення має бути написано ";

/// Ends a translation request.
pub const TRANSLATE_END: &'static str =
    " мовою.";

/// Opens a transcription request, up to the language.
pub const TRANSCRIBE_OPENING: &'static str =
    "Напиши дві транскрипції для цього ";

/// Introduces the sentence to transcribe.
pub const TRANSCRIBE_SENTENCE: &'static str =
    " речення \"";

/// Closes a transcription request: the answer format.
pub const TRANSCRIBE_CLOSING: &'static str =
    "\". Одна траксрипція це звичайна IPA а друга це адаптована під укараїнську мову.Відповідь надай в JSON. У форматі об'єкту:{\n            \"ipa\":\"\",\n            \"ipa_ukr\":\"\",\n        }\n        ";

/// Opens a request about a learner's translation, up to the language.
pub const CHECK_OPENING: &'static str =
    " Я тобі надам українське речення з контекстом та ";

/// Introduces the Ukrainian sentence.
pub const CHECK_SOURCE: &'static str =
    ".\nУкраїнське речення: \"";

/// Introduces the context of the Ukrainian sentence.
pub const CHECK_CONTEXT: &'static str =
    "\"\nКонтекст українського речення: \"";

/// Ends the context line.
pub const CHECK_BEFORE_LANGUAGE: &'static str =
    "\"\n";

/// Introduces the learner's translation.
pub const CHECK_TRANSLATION: &'static str =
    " речення: \"";

/// Asks for the assessment, up to the language.
pub const ASSESS_TASK: &'static str =
    "\"\nТи маєш надати у відповді 2 параметри.\nПерший це \"assessment\" на скільки хорошиї переклад з українського в тому контексті на ";

/// Closes the assessment request: the answer format.
pub const ASSESS_CLOSING: &'static str =
    " від 0 до 100, це звісно приблизно.\nДругий це \"correct_translation\" відкорегований переклад мого речення на англійську мову.\n        Відповідь надай в JSON. У форматі об'єкту:\n        {\n            \"assessment\":,\n            \"correct_translation\":\"\",\n        }\n        ";

/// Asks for the puzzle words, up to the language.
pub const PUZZLE_TASK: &'static str =
    "\"\nТи маєш надати у відповдь 1 параметр.\nПерший — \"words_puzzle\", я хочу зібрати ";

/// Continues the puzzle request, up to the number of words.
pub const PUZZLE_COUNT: &'static str =
    " речень як пазли, для цього мені потрібно, щоб ти згенерував масив з ";

/// Continues the puzzle request, up to the language.
pub const PUZZLE_EXCLUDE: &'static str =
    " слів, які б мене заплутали, тільки не згадуйте ті, які вже є в реченні для ";

/// Closes the puzzle request: the answer format.
pub const PUZZLE_CLOSING: &'static str =
    " речень.\n        Відповідь надай в JSON. У форматі об'єкту:\n        {\n            \"words_puzzle\":[\"\"],\n        }\n        ";


/// The chat model that answers every request.
pub const CHAT_MODEL: &'static str = "gpt-4o";

/// The longest answer, in tokens, that a request allows.
pub const MAX_ANSWER_TOKENS: u16 = 512;

/// A request to translate a sentence with the chat model.
pub struct TranslateGpt {
    pub from_lang: String,
    pub into_lang: String,
    pub text: String,
    pub text_explain: String,
}

/// A learner's translation of a Ukrainian sentence into `lang_name`.
pub struct SentencesLang {
    pub lang_name: String,
    pub sentence_from: String,
    pub sentence_from_context: String,
    pub sentence_into: String,
}

/// The register that a translation is asked in.
pub enum Register {
    Conversational,
    Formal,
}

/// The text of a translation request: into `into` in the given register,
/// shortened or not, of `text` written in `from`, that should convey
/// `explain`, with the explanation asked in `from`.
pub open spec fn translation_text(
    register: Register,
    short: bool,
    from: Seq<char>,
    into: Seq<char>,
    text: Seq<char>,
    explain: Seq<char>,
) -> Seq<char> {
    TRANSLATE_OPENING@ + into + TRANSLATE_ANSWER_FORMAT@ + into
        + (match register {
        Register::Conversational => TRANSLATE_CONVERSATIONAL@,
        Register::Formal => TRANSLATE_FORMAL@,
    }) + into + TRANSLATE_SOURCE@ + from + TRANSLATE_SENTENCE@ + text + TRANSLATE_MEANING@
        + explain + (if short {
        TRANSLATE_CLOSING_SHORT@
    } else {
        TRANSLATE_CLOSING_FULL@
    }) + from + TRANSLATE_END@
}

/// Builds the translation request for the chat model.
pub fn translation_prompt(info: &TranslateGpt, register: Register, short: bool) -> (p: String)
    ensures
        p@ == translation_text(
            register,
            short,
            info.from_lang@,
            info.into_lang@,
            info.text@,
            info.text_explain@,
        ),
{
    let mut p = String::new();
    p.append(TRANSLATE_OPENING);
    p.append(info.into_lang.as_str());
    p.append(TRANSLATE_ANSWER_FORMAT);
    p.append(info.into_lang.as_str());
    match register {
        Register::Conversational => p.append(TRANSLATE_CONVERSATIONAL),
        Register::Formal => p.append(TRANSLATE_FORMAL),
    }
    p.append(info.into_lang.as_str());
    p.append(TRANSLATE_SOURCE);
    p.append(info.from_lang.as_str());
    p.append(TRANSLATE_SENTENCE);
    p.append(info.text.as_str());
    p.append(TRANSLATE_MEANING);
    p.append(info.text_explain.as_str());
    if short {
        p.append(TRANSLATE_CLOSING_SHORT);
    } else {
        p.append(TRANSLATE_CLOSING_FULL);
    }
    p.append(info.from_lang.as_str());
    p.append(TRANSLATE_END);
    p
}

/// The text of a transcription request for `sentence`, written in `lang`.
pub open spec fn transcription_text(lang: Seq<char>, sentence: Seq<char>) -> Seq<char> {
    TRANSCRIBE_OPENING@ + lang + TRANSCRIBE_SENTENCE@ + sentence + TRANSCRIBE_CLOSING@
}

/// Builds the request for the two transcriptions of a sentence.
pub fn transcription_prompt(lang: &str, sentence: &str) -> (p: String)
    ensures
        p@ == transcription_text(lang@, sentence@),
{
    let mut p = String::new();
    p.append(TRANSCRIBE_OPENING);
    p.append(lang);
    p.append(TRANSCRIBE_SENTENCE);
    p.append(sentence);
    p.append(TRANSCRIBE_CLOSING);
    p
}

/// The part that both requests about a learner's translation begin with,
/// where `translation` is the translation that they are about.
pub open spec fn check_header(s: SentencesLang, translation: Seq<char>) -> Seq<char> {
    CHECK_OPENING@ + s.lang_name@ + CHECK_SOURCE@ + s.sentence_from@ + CHECK_CONTEXT@
        + s.sentence_from_context@ + CHECK_BEFORE_LANGUAGE@ + s.lang_name@ + CHECK_TRANSLATION@
        + translation
}

fn push_check_header(p: &mut String, s: &SentencesLang, translation: &str)
    ensures
        final(p)@ == old(p)@ + check_header(*s, translation@),
{
    p.append(CHECK_OPENING);
    p.append(s.lang_name.as_str());
    p.append(CHECK_SOURCE);
    p.append(s.sentence_from.as_str());
    p.append(CHECK_CONTEXT);
    p.append(s.sentence_from_context.as_str());
    p.append(CHECK_BEFORE_LANGUAGE);
    p.append(s.lang_name.as_str());
    p.append(CHECK_TRANSLATION);
    p.append(translation);
}

/// The text of the request to assess a learner's translation.
pub open spec fn assessment_text(s: SentencesLang) -> Seq<char> {
    check_header(s, s.sentence_into@) + ASSESS_TASK@ + s.lang_name@ + ASSESS_CLOSING@
}

/// Builds the request to assess a learner's translation and correct it.
pub fn assessment_prompt(s: &SentencesLang) -> (p: String)
    ensures
        p@ == assessment_text(*s),
{
    let mut p = String::new();
    push_check_header(&mut p, s, s.sentence_into.as_str());
    p.append(ASSESS_TASK);
    p.append(s.lang_name.as_str());
    p.append(ASSESS_CLOSING);
    p
}

/// The text of the request for puzzle words: about the corrected
/// translation, asking for `count` words.
pub open spec fn puzzle_text(s: SentencesLang, corrected: Seq<char>, count: nat) -> Seq<char> {
    check_header(s, corrected) + PUZZLE_TASK@ + s.lang_name@ + PUZZLE_COUNT@ + decimal(count)
        + PUZZLE_EXCLUDE@ + s.lang_name@ + PUZZLE_CLOSING@
}

/// From the corrected translation, the words of the sentence puzzle and the
/// request for as many distracting words as twice their number.
pub fn puzzle_prompt(s: &SentencesLang, corrected: &str) -> (r: (Vec<String>, String))
    ensures
        texts(r.0@) == words(corrected@),
        r.1@ == puzzle_text(*s, corrected@, 2 * words(corrected@).len()),
{
    let ws = split_words(corrected);
    let count: u128 = (ws.len() as u128) * 2;
    let mut p = String::new();
    push_check_header(&mut p, s, corrected);
    p.append(PUZZLE_TASK);
    p.append(s.lang_name.as_str());
    p.append(PUZZLE_COUNT);
    proof {
        assert(texts(ws@).len() == ws@.len());
    }
    push_decimal(&mut p, count);
    p.append(PUZZLE_EXCLUDE);
    p.append(s.lang_name.as_str());
    p.append(PUZZLE_CLOSING);
    (ws, p)
}

/// Reported when the chat model's answer has no text.
pub const NO_ANSWER_TEXT: &'static str = "gpt string parsing error";

/// The text of the chat model's first answer, or the error when it has none.
pub fn answer_content(content: Option<String>) -> (r: Result<String, AppError>)
    ensures
        match content {
            Some(c) => r == Ok::<String, AppError>(c),
            None => r matches Err(e) && e.0@ == NO_ANSWER_TEXT@,
        },
{
    match content {
        Some(c) => Ok(c),
        None => Err(AppError::new(NO_ANSWER_TEXT)),
    }
}

} // verus!
