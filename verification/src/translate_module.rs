//! The languages that DeepL translates, by the names the service shows.

use vstd::prelude::*;
use deepl::Lang;
use crate::text::same_text;

verus! {

#[verifier::external_type_specification]
#[verifier::external_body]
pub struct ExLang(deepl::Lang);

/// The DeepL code of a language, by its English name, for the languages
/// that the service offers.
pub open spec fn language_code(name: Seq<char>) -> Option<Seq<char>> {
    if name == "Arabic"@ {
        Some("AR"@)
    } else if name == "Bulgarian"@ {
        Some("BG"@)
    } else if name == "Czech"@ {
        Some("CS"@)
    } else if name == "Danish"@ {
        Some("DA"@)
    } else if name == "German"@ {
        Some("DE"@)
    } else if name == "Greek"@ {
        Some("EL"@)
    } else if name == "English"@ {
        Some("EN"@)
    } else if name == "Spanish"@ {
        Some("ES"@)
    } else if name == "Estonian"@ {
        Some("ET"@)
    } else if name == "Finnish"@ {
        Some("FI"@)
    } else if name == "French"@ {
        Some("FR"@)
    } else if name == "Hungarian"@ {
        Some("HU"@)
    } else if name == "Indonesian"@ {
        Some("ID"@)
    } else if name == "Italian"@ {
        Some("IT"@)
    } else if name == "Japanese"@ {
        Some("JA"@)
    } else if name == "Korean"@ {
        Some("KO"@)
    } else if name == "Lithuanian"@ {
        Some("LT"@)
    } else if name == "Latvian"@ {
        Some("LV"@)
    } else if name == "Norwegian"@ {
        Some("NB"@)
    } else if name == "Dutch"@ {
        Some("NL"@)
    } else if name == "Polish"@ {
        Some("PL"@)
    } else if name == "Portuguese"@ {
        Some("PT"@)
    } else if name == "Romanian"@ {
        Some("RO"@)
    } else if name == "Russian"@ {
        Some("RU"@)
    } else if name == "Slovak"@ {
        Some("SK"@)
    } else if name == "Slovenian"@ {
        Some("SL"@)
    } else if name == "Swedish"@ {
        Some("SV"@)
    } else if name == "Turkish"@ {
        Some("TR"@)
    } else if name == "Ukrainian"@ {
        Some("UK"@)
    } else if name == "Chinese"@ {
        Some("ZH"@)
    } else {
        None
    }
}

/// The language codes that DeepL's `Lang` knows.
pub open spec fn is_deepl_code(code: Seq<char>) -> bool {
    code == "AR"@ || code == "BG"@ || code == "CS"@ || code == "DA"@ || code == "DE"@ || code == "EL"@ || code == "EN"@ || code == "EN-GB"@ || code == "EN-US"@ || code == "ES"@ || code == "ET"@ || code == "FI"@ || code == "FR"@ || code == "HU"@ || code == "ID"@ || code == "IT"@ || code == "JA"@ || code == "KO"@ || code == "LT"@ || code == "LV"@ || code == "NB"@ || code == "NL"@ || code == "PL"@ || code == "PT"@ || code == "PT-BR"@ || code == "PT-PT"@ || code == "RO"@ || code == "RU"@ || code == "SK"@ || code == "SL"@ || code == "SV"@ || code == "TR"@ || code == "UK"@ || code == "ZH"@ || code == "ZH-HANS"@ || code == "ZH-HANT"@
}

/// The DeepL code of a language name.
pub fn code_for_name(name: &str) -> (r: Option<&'static str>)
    ensures
        match r {
            Some(c) => language_code(name@) == Some(c@),
            None => language_code(name@) is None,
        },
{
    if same_text(name, "Arabic") {
        Some("AR")
    } else if same_text(name, "Bulgarian") {
        Some("BG")
    } else if same_text(name, "Czech") {
        Some("CS")
    } else if same_text(name, "Danish") {
        Some("DA")
    } else if same_text(name, "German") {
        Some("DE")
    } else if same_text(name, "Greek") {
        Some("EL")
    } else if same_text(name, "English") {
        Some("EN")
    } else if same_text(name, "Spanish") {
        Some("ES")
    } else if same_text(name, "Estonian") {
        Some("ET")
    } else if same_text(name, "Finnish") {
        Some("FI")
    } else if same_text(name, "French") {
        Some("FR")
    } else if same_text(name, "Hungarian") {
        Some("HU")
    } else if same_text(name, "Indonesian") {
        Some("ID")
    } else if same_text(name, "Italian") {
        Some("IT")
    } else if same_text(name, "Japanese") {
        Some("JA")
    } else if same_text(name, "Korean") {
        Some("KO")
    } else if same_text(name, "Lithuanian") {
        Some("LT")
    } else if same_text(name, "Latvian") {
        Some("LV")
    } else if same_text(name, "Norwegian") {
        Some("NB")
    } else if same_text(name, "Dutch") {
        Some("NL")
    } else if same_text(name, "Polish") {
        Some("PL")
    } else if same_text(name, "Portuguese") {
        Some("PT")
    } else if same_text(name, "Romanian") {
        Some("RO")
    } else if same_text(name, "Russian") {
        Some("RU")
    } else if same_text(name, "Slovak") {
        Some("SK")
    } else if same_text(name, "Slovenian") {
        Some("SL")
    } else if same_text(name, "Swedish") {
        Some("SV")
    } else if same_text(name, "Turkish") {
        Some("TR")
    } else if same_text(name, "Ukrainian") {
        Some("UK")
    } else if same_text(name, "Chinese") {
        Some("ZH")
    } else {
        None
    }
}

/// The code of a DeepL language, as `Lang::as_ref` gives it.
pub uninterp spec fn lang_code(l: Lang) -> Seq<char>;

/// `Lang::try_from(&str)` of the `deepl` crate: the language with the given
/// code. Its source converts exactly the listed codes, each to the variant
/// whose code (`Lang::as_ref`) is that text, and refuses every other text.
#[verifier::external_body]
fn deepl_lang(code: &str) -> (r: Option<Lang>)
    ensures
        r is Some <==> is_deepl_code(code@),
        r matches Some(l) ==> lang_code(l) == code@,
{
    Lang::try_from(code).ok()
}

/// The DeepL language of a language name: found exactly for the names in
/// the table, and made from the code that the table gives.
pub fn lang_from_name(name: String) -> (r: Option<Lang>)
    ensures
        r is Some <==> language_code(name@) is Some,
        r matches Some(l) ==> language_code(name@) == Some(lang_code(l)),
{
    match code_for_name(name.as_str()) {
        Some(code) => deepl_lang(code),
        None => None,
    }
}

/// No two names of the table share a code.
pub proof fn lemma_language_code_injective(a: Seq<char>, b: Seq<char>)
    requires
        language_code(a) is Some,
        language_code(a) == language_code(b),
    ensures
        a == b,
{
    reveal_strlit("AR");
    assert("AR"@[0] == 'A' && "AR"@[1] == 'R');
    reveal_strlit("BG");
    assert("BG"@[0] == 'B' && "BG"@[1] == 'G');
    reveal_strlit("CS");
    assert("CS"@[0] == 'C' && "CS"@[1] == 'S');
    reveal_strlit("DA");
    assert("DA"@[0] == 'D' && "DA"@[1] == 'A');
    reveal_strlit("DE");
    assert("DE"@[0] == 'D' && "DE"@[1] == 'E');
    reveal_strlit("EL");
    assert("EL"@[0] == 'E' && "EL"@[1] == 'L');
    reveal_strlit("EN");
    assert("EN"@[0] == 'E' && "EN"@[1] == 'N');
    reveal_strlit("ES");
    assert("ES"@[0] == 'E' && "ES"@[1] == 'S');
    reveal_strlit("ET");
    assert("ET"@[0] == 'E' && "ET"@[1] == 'T');
    reveal_strlit("FI");
    assert("FI"@[0] == 'F' && "FI"@[1] == 'I');
    reveal_strlit("FR");
    assert("FR"@[0] == 'F' && "FR"@[1] == 'R');
    reveal_strlit("HU");
    assert("HU"@[0] == 'H' && "HU"@[1] == 'U');
    reveal_strlit("ID");
    assert("ID"@[0] == 'I' && "ID"@[1] == 'D');
    reveal_strlit("IT");
    assert("IT"@[0] == 'I' && "IT"@[1] == 'T');
    reveal_strlit("JA");
    assert("JA"@[0] == 'J' && "JA"@[1] == 'A');
    reveal_strlit("KO");
    assert("KO"@[0] == 'K' && "KO"@[1] == 'O');
    reveal_strlit("LT");
    assert("LT"@[0] == 'L' && "LT"@[1] == 'T');
    reveal_strlit("LV");
    assert("LV"@[0] == 'L' && "LV"@[1] == 'V');
    reveal_strlit("NB");
    assert("NB"@[0] == 'N' && "NB"@[1] == 'B');
    reveal_strlit("NL");
    assert("NL"@[0] == 'N' && "NL"@[1] == 'L');
    reveal_strlit("PL");
    assert("PL"@[0] == 'P' && "PL"@[1] == 'L');
    reveal_strlit("PT");
    assert("PT"@[0] == 'P' && "PT"@[1] == 'T');
    reveal_strlit("RO");
    assert("RO"@[0] == 'R' && "RO"@[1] == 'O');
    reveal_strlit("RU");
    assert("RU"@[0] == 'R' && "RU"@[1] == 'U');
    reveal_strlit("SK");
    assert("SK"@[0] == 'S' && "SK"@[1] == 'K');
    reveal_strlit("SL");
    assert("SL"@[0] == 'S' && "SL"@[1] == 'L');
    reveal_strlit("SV");
    assert("SV"@[0] == 'S' && "SV"@[1] == 'V');
    reveal_strlit("TR");
    assert("TR"@[0] == 'T' && "TR"@[1] == 'R');
    reveal_strlit("UK");
    assert("UK"@[0] == 'U' && "UK"@[1] == 'K');
    reveal_strlit("ZH");
    assert("ZH"@[0] == 'Z' && "ZH"@[1] == 'H');
}

/// No two names give the same DeepL language: languages found for two names
/// are equal only when the names are.
pub proof fn lemma_names_distinct_languages(a: Seq<char>, b: Seq<char>, la: Lang, lb: Lang)
    requires
        language_code(a) == Some(lang_code(la)),
        language_code(b) == Some(lang_code(lb)),
        la == lb,
    ensures
        a == b,
{
    lemma_language_code_injective(a, b);
}

/// The names of the service and their DeepL codes, one by one.
pub proof fn lemma_language_table()
    ensures
        language_code("Arabic"@) == Some("AR"@),
        language_code("Bulgarian"@) == Some("BG"@),
        language_code("Czech"@) == Some("CS"@),
        language_code("Danish"@) == Some("DA"@),
        language_code("German"@) == Some("DE"@),
        language_code("Greek"@) == Some("EL"@),
        language_code("English"@) == Some("EN"@),
        language_code("Spanish"@) == Some("ES"@),
        language_code("Estonian"@) == Some("ET"@),
        language_code("Finnish"@) == Some("FI"@),
        language_code("French"@) == Some("FR"@),
        language_code("Hungarian"@) == Some("HU"@),
        language_code("Indonesian"@) == Some("ID"@),
        language_code("Italian"@) == Some("IT"@),
        language_code("Japanese"@) == Some("JA"@),
        language_code("Korean"@) == Some("KO"@),
        language_code("Lithuanian"@) == Some("LT"@),
        language_code("Latvian"@) == Some("LV"@),
        language_code("Norwegian"@) == Some("NB"@),
        language_code("Dutch"@) == Some("NL"@),
        language_code("Polish"@) == Some("PL"@),
        language_code("Portuguese"@) == Some("PT"@),
        language_code("Romanian"@) == Some("RO"@),
        language_code("Russian"@) == Some("RU"@),
        language_code("Slovak"@) == Some("SK"@),
        language_code("Slovenian"@) == Some("SL"@),
        language_code("Swedish"@) == Some("SV"@),
        language_code("Turkish"@) == Some("TR"@),
        language_code("Ukrainian"@) == Some("UK"@),
        language_code("Chinese"@) == Some("ZH"@),
{
    reveal_strlit("Arabic");
    assert("Arabic"@[0] == 'A' && "Arabic"@[1] == 'r' && "Arabic"@[2] == 'a' && "Arabic"@[3] == 'b' && "Arabic"@[4] == 'i' && "Arabic"@[5] == 'c');
    reveal_strlit("Bulgarian");
    assert("Bulgarian"@[0] == 'B' && "Bulgarian"@[1] == 'u' && "Bulgarian"@[2] == 'l' && "Bulgarian"@[3] == 'g' && "Bulgarian"@[4] == 'a' && "Bulgarian"@[5] == 'r' && "Bulgarian"@[6] == 'i' && "Bulgarian"@[7] == 'a' && "Bulgarian"@[8] == 'n');
    reveal_strlit("Czech");
    assert("Czech"@[0] == 'C' && "Czech"@[1] == 'z' && "Czech"@[2] == 'e' && "Czech"@[3] == 'c' && "Czech"@[4] == 'h');
    reveal_strlit("Danish");
    assert("Danish"@[0] == 'D' && "Danish"@[1] == 'a' && "Danish"@[2] == 'n' && "Danish"@[3] == 'i' && "Danish"@[4] == 's' && "Danish"@[5] == 'h');
    reveal_strlit("German");
    assert("German"@[0] == 'G' && "German"@[1] == 'e' && "German"@[2] == 'r' && "German"@[3] == 'm' && "German"@[4] == 'a' && "German"@[5] == 'n');
    reveal_strlit("Greek");
    assert("Greek"@[0] == 'G' && "Greek"@[1] == 'r' && "Greek"@[2] == 'e' && "Greek"@[3] == 'e' && "Greek"@[4] == 'k');
    reveal_strlit("English");
    assert("English"@[0] == 'E' && "English"@[1] == 'n' && "English"@[2] == 'g' && "English"@[3] == 'l' && "English"@[4] == 'i' && "English"@[5] == 's' && "English"@[6] == 'h');
    reveal_strlit("Spanish");
    assert("Spanish"@[0] == 'S' && "Spanish"@[1] == 'p' && "Spanish"@[2] == 'a' && "Spanish"@[3] == 'n' && "Spanish"@[4] == 'i' && "Spanish"@[5] == 's' && "Spanish"@[6] == 'h');
    reveal_strlit("Estonian");
    assert("Estonian"@[0] == 'E' && "Estonian"@[1] == 's' && "Estonian"@[2] == 't' && "Estonian"@[3] == 'o' && "Estonian"@[4] == 'n' && "Estonian"@[5] == 'i' && "Estonian"@[6] == 'a' && "Estonian"@[7] == 'n');
    reveal_strlit("Finnish");
    assert("Finnish"@[0] == 'F' && "Finnish"@[1] == 'i' && "Finnish"@[2] == 'n' && "Finnish"@[3] == 'n' && "Finnish"@[4] == 'i' && "Finnish"@[5] == 's' && "Finnish"@[6] == 'h');
    reveal_strlit("French");
    assert("French"@[0] == 'F' && "French"@[1] == 'r' && "French"@[2] == 'e' && "French"@[3] == 'n' && "French"@[4] == 'c' && "French"@[5] == 'h');
    reveal_strlit("Hungarian");
    assert("Hungarian"@[0] == 'H' && "Hungarian"@[1] == 'u' && "Hungarian"@[2] == 'n' && "Hungarian"@[3] == 'g' && "Hungarian"@[4] == 'a' && "Hungarian"@[5] == 'r' && "Hungarian"@[6] == 'i' && "Hungarian"@[7] == 'a' && "Hungarian"@[8] == 'n');
    reveal_strlit("Indonesian");
    assert("Indonesian"@[0] == 'I' && "Indonesian"@[1] == 'n' && "Indonesian"@[2] == 'd' && "Indonesian"@[3] == 'o' && "Indonesian"@[4] == 'n' && "Indonesian"@[5] == 'e' && "Indonesian"@[6] == 's' && "Indonesian"@[7] == 'i' && "Indonesian"@[8] == 'a' && "Indonesian"@[9] == 'n');
    reveal_strlit("Italian");
    assert("Italian"@[0] == 'I' && "Italian"@[1] == 't' && "Italian"@[2] == 'a' && "Italian"@[3] == 'l' && "Italian"@[4] == 'i' && "Italian"@[5] == 'a' && "Italian"@[6] == 'n');
    reveal_strlit("Japanese");
    assert("Japanese"@[0] == 'J' && "Japanese"@[1] == 'a' && "Japanese"@[2] == 'p' && "Japanese"@[3] == 'a' && "Japanese"@[4] == 'n' && "Japanese"@[5] == 'e' && "Japanese"@[6] == 's' && "Japanese"@[7] == 'e');
    reveal_strlit("Korean");
    assert("Korean"@[0] == 'K' && "Korean"@[1] == 'o' && "Korean"@[2] == 'r' && "Korean"@[3] == 'e' && "Korean"@[4] == 'a' && "Korean"@[5] == 'n');
    reveal_strlit("Lithuanian");
    assert("Lithuanian"@[0] == 'L' && "Lithuanian"@[1] == 'i' && "Lithuanian"@[2] == 't' && "Lithuanian"@[3] == 'h' && "Lithuanian"@[4] == 'u' && "Lithuanian"@[5] == 'a' && "Lithuanian"@[6] == 'n' && "Lithuanian"@[7] == 'i' && "Lithuanian"@[8] == 'a' && "Lithuanian"@[9] == 'n');
    reveal_strlit("Latvian");
    assert("Latvian"@[0] == 'L' && "Latvian"@[1] == 'a' && "Latvian"@[2] == 't' && "Latvian"@[3] == 'v' && "Latvian"@[4] == 'i' && "Latvian"@[5] == 'a' && "Latvian"@[6] == 'n');
    reveal_strlit("Norwegian");
    assert("Norwegian"@[0] == 'N' && "Norwegian"@[1] == 'o' && "Norwegian"@[2] == 'r' && "Norwegian"@[3] == 'w' && "Norwegian"@[4] == 'e' && "Norwegian"@[5] == 'g' && "Norwegian"@[6] == 'i' && "Norwegian"@[7] == 'a' && "Norwegian"@[8] == 'n');
    reveal_strlit("Dutch");
    assert("Dutch"@[0] == 'D' && "Dutch"@[1] == 'u' && "Dutch"@[2] == 't' && "Dutch"@[3] == 'c' && "Dutch"@[4] == 'h');
    reveal_strlit("Polish");
    assert("Polish"@[0] == 'P' && "Polish"@[1] == 'o' && "Polish"@[2] == 'l' && "Polish"@[3] == 'i' && "Polish"@[4] == 's' && "Polish"@[5] == 'h');
    reveal_strlit("Portuguese");
    assert("Portuguese"@[0] == 'P' && "Portuguese"@[1] == 'o' && "Portuguese"@[2] == 'r' && "Portuguese"@[3] == 't' && "Portuguese"@[4] == 'u' && "Portuguese"@[5] == 'g' && "Portuguese"@[6] == 'u' && "Portuguese"@[7] == 'e' && "Portuguese"@[8] == 's' && "Portuguese"@[9] == 'e');
    reveal_strlit("Romanian");
    assert("Romanian"@[0] == 'R' && "Romanian"@[1] == 'o' && "Romanian"@[2] == 'm' && "Romanian"@[3] == 'a' && "Romanian"@[4] == 'n' && "Romanian"@[5] == 'i' && "Romanian"@[6] == 'a' && "Romanian"@[7] == 'n');
    reveal_strlit("Russian");
    assert("Russian"@[0] == 'R' && "Russian"@[1] == 'u' && "Russian"@[2] == 's' && "Russian"@[3] == 's' && "Russian"@[4] == 'i' && "Russian"@[5] == 'a' && "Russian"@[6] == 'n');
    reveal_strlit("Slovak");
    assert("Slovak"@[0] == 'S' && "Slovak"@[1] == 'l' && "Slovak"@[2] == 'o' && "Slovak"@[3] == 'v' && "Slovak"@[4] == 'a' && "Slovak"@[5] == 'k');
    reveal_strlit("Slovenian");
    assert("Slovenian"@[0] == 'S' && "Slovenian"@[1] == 'l' && "Slovenian"@[2] == 'o' && "Slovenian"@[3] == 'v' && "Slovenian"@[4] == 'e' && "Slovenian"@[5] == 'n' && "Slovenian"@[6] == 'i' && "Slovenian"@[7] == 'a' && "Slovenian"@[8] == 'n');
    reveal_strlit("Swedish");
    assert("Swedish"@[0] == 'S' && "Swedish"@[1] == 'w' && "Swedish"@[2] == 'e' && "Swedish"@[3] == 'd' && "Swedish"@[4] == 'i' && "Swedish"@[5] == 's' && "Swedish"@[6] == 'h');
    reveal_strlit("Turkish");
    assert("Turkish"@[0] == 'T' && "Turkish"@[1] == 'u' && "Turkish"@[2] == 'r' && "Turkish"@[3] == 'k' && "Turkish"@[4] == 'i' && "Turkish"@[5] == 's' && "Turkish"@[6] == 'h');
    reveal_strlit("Ukrainian");
    assert("Ukrainian"@[0] == 'U' && "Ukrainian"@[1] == 'k' && "Ukrainian"@[2] == 'r' && "Ukrainian"@[3] == 'a' && "Ukrainian"@[4] == 'i' && "Ukrainian"@[5] == 'n' && "Ukrainian"@[6] == 'i' && "Ukrainian"@[7] == 'a' && "Ukrainian"@[8] == 'n');
    reveal_strlit("Chinese");
    assert("Chinese"@[0] == 'C' && "Chinese"@[1] == 'h' && "Chinese"@[2] == 'i' && "Chinese"@[3] == 'n' && "Chinese"@[4] == 'e' && "Chinese"@[5] == 's' && "Chinese"@[6] == 'e');
}

} // verus!
