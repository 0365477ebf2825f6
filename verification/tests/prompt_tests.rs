use easy_lang::prompts::{
    answer_content, assessment_prompt, puzzle_prompt, transcription_prompt, translation_prompt,
    Register, SentencesLang, TranslateGpt,
};

fn request() -> TranslateGpt {
    TranslateGpt {
        from_lang: "Ukrainian".to_string(),
        into_lang: "English".to_string(),
        text: "Привіт".to_string(),
        text_explain: "вітання".to_string(),
    }
}

fn expected_translation(register: &str, short: bool, t: &TranslateGpt) -> String {
    let shorten = if short { "По можливості скороти речення, але щоб зміст та сенс не втратився.\n" } else { "" };
    format!("Будь вчителем {} мови.
Відповідайте лише у форматі JSON із такими даними:
{{
      \"sentence:\"\",
      \"explanation\":\"\"
}}
Як сказати моє речення {} мовою, {} {} мовою, щоб передати той самий зміст, та сенс. Моє речення написане {} мовою: \"{}\".
Я також наведу вам значення речення, яке я хотів передати: \"{}\".
{}У відповідь:
Поле \"sentence\" має містити твоє речення яке ти створив. Поле \"explanation\" повинно містити коротке пояснення вашого стовреного речення, твоє поясення має бути написано {} мовою.",
        t.into_lang, t.into_lang, register, t.into_lang, t.from_lang, t.text, t.text_explain, shorten, t.from_lang)
}

#[test]
fn translation_prompts() {
    let t = request();
    assert_eq!(translation_prompt(&t, Register::Conversational, false), expected_translation("розмовною", false, &t));
    assert_eq!(translation_prompt(&t, Register::Formal, false), expected_translation("формальною", false, &t));
    assert_eq!(translation_prompt(&t, Register::Conversational, true), expected_translation("розмовною", true, &t));
    assert_eq!(translation_prompt(&t, Register::Formal, true), expected_translation("формальною", true, &t));
}

#[test]
fn transcription_request() {
    let expected = format!("Напиши дві транскрипції для цього {} речення \"{}\". \
        Одна траксрипція це звичайна IPA а друга це адаптована під укараїнську мову.\
        Відповідь надай в JSON. У форматі об'єкту:\
        {{
            \"ipa\":\"\",
            \"ipa_ukr\":\"\",
        }}
        ", "English", "Hello there");
    assert_eq!(transcription_prompt("English", "Hello there"), expected);
}

fn learner() -> SentencesLang {
    SentencesLang {
        lang_name: "English".to_string(),
        sentence_from: "Я люблю чай".to_string(),
        sentence_from_context: "ранок".to_string(),
        sentence_into: "I love tea".to_string(),
    }
}

#[test]
fn assessment_request() {
    let text = learner();
    let expected = format!(r#" Я тобі надам українське речення з контекстом та {}.
Українське речення: "{}"
Контекст українського речення: "{}"
{} речення: "{}"
Ти маєш надати у відповді 2 параметри.
Перший це "assessment" на скільки хорошиї переклад з українського в тому контексті на {} від 0 до 100, це звісно приблизно.
Другий це "correct_translation" відкорегований переклад мого речення на англійську мову.
        Відповідь надай в JSON. У форматі об'єкту:
        {{
            "assessment":,
            "correct_translation":"",
        }}
        "#, text.lang_name, text.sentence_from, text.sentence_from_context, text.lang_name, text.sentence_into, text.lang_name);
    assert_eq!(assessment_prompt(&text), expected);
}

#[test]
fn puzzle_request() {
    let text = learner();
    let corrected = "I  really love\ttea";
    let (words, prompt) = puzzle_prompt(&text, corrected);
    assert_eq!(words, vec!["I", "really", "love", "tea"]);
    let expected = format!(r#" Я тобі надам українське речення з контекстом та {}.
Українське речення: "{}"
Контекст українського речення: "{}"
{} речення: "{}"
Ти маєш надати у відповдь 1 параметр.
Перший — "words_puzzle", я хочу зібрати {} речень як пазли, для цього мені потрібно, щоб ти згенерував масив з {} слів, які б мене заплутали, тільки не згадуйте ті, які вже є в реченні для {} речень.
        Відповідь надай в JSON. У форматі об'єкту:
        {{
            "words_puzzle":[""],
        }}
        "#, text.lang_name, text.sentence_from, text.sentence_from_context, text.lang_name, corrected, text.lang_name, 8, text.lang_name);
    assert_eq!(prompt, expected);
}

#[test]
fn answer_text_or_error() {
    assert_eq!(answer_content(Some("{}".to_string())).ok(), Some("{}".to_string()));
    let e = answer_content(None).err().unwrap();
    assert_eq!(e.0, "gpt string parsing error");
}

#[test]
fn chat_settings() {
    assert_eq!(easy_lang::prompts::CHAT_MODEL, "gpt-4o");
    assert_eq!(easy_lang::prompts::MAX_ANSWER_TOKENS, 512);
}
