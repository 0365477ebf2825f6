//! Schema migrations: the list of migrations, the choice of those still to
//! apply, and the splitting of a migration script into the statements that
//! are executed one by one.

use vstd::prelude::*;
use crate::text::{
    chars_of, dollar_pair, ends_with_semicolon, has_dollar_pair, is_blank, is_space,
    lemma_lines_restore, lemma_trim_empty_iff_blank, lemma_trim_shape, lines, lines_of,
    no_carriage_return, strings_of, terminated, texts, trim, trimmed, views,
};

verus! {

/// One schema migration: it takes the schema from version `from` to version
/// `to` by running `script`.
#[derive(Clone, Copy)]
pub struct Migration {
    pub from: i32,
    pub to: i32,
    pub script: &'static str,
}

/// The statements that create the table holding the schema version and give it
/// its first row.
pub const CREATE_VERSION_TABLE: &'static str = r#"
            CREATE TABLE IF NOT EXISTS version_easy_lang(
                id SERIAL PRIMARY KEY,
                version_number INTEGER NOT NULL
            )
            "#;

/// Inserts version 0 when the version table is empty.
pub const INSERT_FIRST_VERSION: &'static str = r#"
            INSERT INTO version_easy_lang (version_number)
            SELECT 0
            WHERE NOT EXISTS (SELECT 1 FROM version_easy_lang)
            "#;

/// Reads the schema version.
pub const SELECT_VERSION: &'static str = "SELECT version_number FROM version_easy_lang LIMIT 1";

/// Records a new schema version (bound to `$1`).
pub const UPDATE_VERSION: &'static str = "UPDATE version_easy_lang SET version_number = $1";

/// The script of the first migration: the whole initial schema.
pub const SCHEMA_V1: &'static str = r#"
                CREATE TABLE IF NOT EXISTS users (
    id SERIAL PRIMARY KEY,
    user_name VARCHAR(255) NOT NULL UNIQUE,
    password VARCHAR(255) NOT NULL
);

CREATE TABLE IF NOT EXISTS languages_supported (
    id SERIAL PRIMARY KEY,
    language_name VARCHAR(50) NOT NULL UNIQUE
);

CREATE TABLE IF NOT EXISTS language_levels (
    id SERIAL PRIMARY KEY,
    level_name VARCHAR(20) NOT NULL UNIQUE
);

CREATE TABLE IF NOT EXISTS user_dictionaries (
    id SERIAL PRIMARY KEY,
    user_id INTEGER NOT NULL REFERENCES users(id) ON DELETE CASCADE,
    language_id INTEGER NOT NULL REFERENCES languages_supported(id) ON DELETE CASCADE,
    language_level INTEGER NOT NULL REFERENCES language_levels(id) ON DELETE CASCADE,
    UNIQUE(user_id, language_id)
);

CREATE TABLE IF NOT EXISTS translation_history (
    id SERIAL PRIMARY KEY,
    user_id INTEGER NOT NULL REFERENCES users(id) ON DELETE CASCADE,
    lang_from_translated_id INTEGER NOT NULL REFERENCES languages_supported(id),
    lang_into_translated_id INTEGER NOT NULL REFERENCES languages_supported(id),
    translated_text TEXT NOT NULL,
    context_text TEXT,
    deepl_translated TEXT,
    deepl_check_deepl TEXT,
    speak_gpt_translated TEXT,
    speak_deepl_check_gpt_translated TEXT,
    speak_explanation_gpt TEXT,
    formal_gpt_translated TEXT,
    formal_deepl_check_gpt_translated TEXT,
    formal_explanation_gpt TEXT,
    is_full BOOLEAN DEFAULT FALSE,
    created_at TIMESTAMP DEFAULT CURRENT_TIMESTAMP
);

CREATE TABLE IF NOT EXISTS anki_sentences (
    id SERIAL PRIMARY KEY,
    user_dictionaries INTEGER NOT NULL REFERENCES user_dictionaries(id) ON DELETE CASCADE,
    sentence_from TEXT NOT NULL,
    sentence_from_context TEXT,
    sentence_into TEXT NOT NULL,
    transcription_eng TEXT,
    transcription_ukr TEXT,
    created_at TIMESTAMP DEFAULT CURRENT_TIMESTAMP
);

CREATE TABLE IF NOT EXISTS anki_dump (
    id SERIAL PRIMARY KEY,
    user_dictionaries INTEGER NOT NULL REFERENCES user_dictionaries(id) ON DELETE CASCADE,
    sentences_id INTEGER NOT NULL,
    UNIQUE(user_dictionaries)
);

-- Insert some default language levels if they don't exist
INSERT INTO language_levels (level_name)
SELECT 'A1' WHERE NOT EXISTS (SELECT 1 FROM language_levels WHERE level_name = 'A1');

INSERT INTO language_levels (level_name)
SELECT 'A2' WHERE NOT EXISTS (SELECT 1 FROM language_levels WHERE level_name = 'A2');

INSERT INTO language_levels (level_name)
SELECT 'B1' WHERE NOT EXISTS (SELECT 1 FROM language_levels WHERE level_name = 'B1');

INSERT INTO language_levels (level_name)
SELECT 'B2' WHERE NOT EXISTS (SELECT 1 FROM language_levels WHERE level_name = 'B2');

INSERT INTO language_levels (level_name)
SELECT 'C1' WHERE NOT EXISTS (SELECT 1 FROM language_levels WHERE level_name = 'C1');

INSERT INTO language_levels (level_name)
SELECT 'C2' WHERE NOT EXISTS (SELECT 1 FROM language_levels WHERE level_name = 'C2');

-- Insert some common languages if they don't exist
INSERT INTO languages_supported (language_name)
SELECT 'English' WHERE NOT EXISTS (SELECT 1 FROM languages_supported WHERE language_name = 'English');

INSERT INTO languages_supported (language_name)
SELECT 'Ukrainian' WHERE NOT EXISTS (SELECT 1 FROM languages_supported WHERE language_name = 'Ukrainian');

INSERT INTO languages_supported (language_name)
SELECT 'German' WHERE NOT EXISTS (SELECT 1 FROM languages_supported WHERE language_name = 'German');

INSERT INTO languages_supported (language_name)
SELECT 'French' WHERE NOT EXISTS (SELECT 1 FROM languages_supported WHERE language_name = 'French');

INSERT INTO languages_supported (language_name)
SELECT 'Spanish' WHERE NOT EXISTS (SELECT 1 FROM languages_supported WHERE language_name = 'Spanish');
            "#;

/// The statements that prepare the version table, in the order they run.
pub fn version_table_commands() -> (v: Vec<&'static str>)
    ensures
        v@.len() == 2,
        v@[0] == CREATE_VERSION_TABLE,
        v@[1] == INSERT_FIRST_VERSION,
{
    vec![CREATE_VERSION_TABLE, INSERT_FIRST_VERSION]
}

/// Each migration raises the version, and a later one starts where an
/// earlier one ends or above.
pub open spec fn is_chain(migs: Seq<Migration>) -> bool {
    &&& forall|i: int| 0 <= i < migs.len() ==> (#[trigger] migs[i]).from < migs[i].to
    &&& forall|i: int, j: int| 0 <= i < j < migs.len() ==> (#[trigger] migs[i]).to <= (#[trigger] migs[j]).from
}

/// All migrations, oldest first.
pub fn migrations() -> (v: Vec<Migration>)
    ensures
        is_chain(v@),
        v@.len() == 1,
        v@[0] == (Migration { from: 0, to: 1, script: SCHEMA_V1 }),
{
    vec![Migration { from: 0, to: 1, script: SCHEMA_V1 }]
}

/// A migration still has to run on a database at version `current`.
pub open spec fn is_pending(m: Migration, current: i32) -> bool {
    m.from >= current
}

/// The migrations, in order, that still have to run on a database at
/// version `current`.
pub open spec fn pending(migs: Seq<Migration>, current: i32) -> Seq<Migration>
    decreases migs.len(),
{
    if migs.len() == 0 {
        seq![]
    } else if is_pending(migs.last(), current) {
        pending(migs.drop_last(), current).push(migs.last())
    } else {
        pending(migs.drop_last(), current)
    }
}

/// Selects the migrations that still have to run, keeping their order.
pub fn pending_migrations(migs: &Vec<Migration>, current: i32) -> (res: Vec<Migration>)
    ensures
        res@ == pending(migs@, current),
{
    let mut res: Vec<Migration> = Vec::new();
    let mut i: usize = 0;
    while i < migs.len()
        invariant
            i <= migs.len(),
            res@ == pending(migs@.take(i as int), current),
        decreases migs.len() - i,
    {
        let m = migs[i];
        assert(migs@.take(i as int + 1).drop_last() =~= migs@.take(i as int));
        if m.from >= current {
            res.push(m);
        }
        i = i + 1;
    }
    assert(migs@.take(migs.len() as int) =~= migs@);
    res
}

/// The version that the schema has once every migration has run: the
/// target of the last one.
pub fn latest_version(migs: &Vec<Migration>) -> (v: i32)
    requires
        migs@.len() > 0,
    ensures
        v == migs@.last().to,
{
    migs[migs.len() - 1].to
}

/// What the splitter holds after some lines: the statements completed so
/// far, the text gathered for the next one, and whether a "$$" block is
/// open.
pub struct SplitState {
    pub statements: Seq<Seq<char>>,
    pub pending_text: Seq<char>,
    pub in_block: bool,
}

/// Reads one more line: a line whose trimmed text holds "$$" opens or closes
/// a block; the line and a '\n' join the gathered text; outside a block, a
/// line whose trimmed text ends with ';' completes the statement.
pub open spec fn split_step(st: SplitState, line: Seq<char>) -> SplitState {
    let t = trim(line);
    let in_block = if has_dollar_pair(t) { !st.in_block } else { st.in_block };
    let text = st.pending_text + line.push('\n');
    if !in_block && ends_with_semicolon(t) {
        SplitState { statements: st.statements.push(text), pending_text: seq![], in_block }
    } else {
        SplitState { statements: st.statements, pending_text: text, in_block }
    }
}

/// The state after reading all of `ls`.
pub open spec fn split_lines(ls: Seq<Seq<char>>) -> SplitState
    decreases ls.len(),
{
    if ls.len() == 0 {
        SplitState { statements: seq![], pending_text: seq![], in_block: false }
    } else {
        split_step(split_lines(ls.drop_last()), ls.last())
    }
}

/// The statements of a migration script: those that the lines complete, and
/// then the remaining text if it is not all white space.
pub open spec fn script_statements(script: Seq<char>) -> Seq<Seq<char>> {
    let st = split_lines(lines(script));
    if trim(st.pending_text).len() == 0 {
        st.statements
    } else {
        st.statements.push(st.pending_text)
    }
}

/// The text that the splitter drops: the remainder after the last statement
/// when it is all white space.
pub open spec fn script_leftover(script: Seq<char>) -> Seq<char> {
    let st = split_lines(lines(script));
    if trim(st.pending_text).len() == 0 {
        st.pending_text
    } else {
        seq![]
    }
}

/// Splits a migration script into the statements that are executed one by
/// one.
pub fn split_script(script: &str) -> (res: Vec<String>)
    ensures
        texts(res@) == script_statements(script@),
{
    let chars = chars_of(script);
    let ls = lines_of(&chars);
    let mut statements: Vec<Vec<char>> = Vec::new();
    let mut text: Vec<char> = Vec::new();
    let mut in_block = false;
    let mut i: usize = 0;
    assert(views(statements@) =~= Seq::<Seq<char>>::empty());
    assert(text@ =~= Seq::<char>::empty());
    while i < ls.len()
        invariant
            i <= ls.len(),
            views(ls@) == lines(script@),
            (SplitState { statements: views(statements@), pending_text: text@, in_block })
                == split_lines(views(ls@).take(i as int)),
        decreases ls.len() - i,
    {
        let line = &ls[i];
        let t = trimmed(line);
        if dollar_pair(&t) {
            in_block = !in_block;
        }
        let mut j: usize = 0;
        let ghost before = text@;
        while j < line.len()
            invariant
                j <= line.len(),
                text@ == before + line@.take(j as int),
            decreases line.len() - j,
        {
            text.push(line[j]);
            j = j + 1;
            assert(text@ =~= before + line@.take(j as int));
        }
        text.push('\n');
        assert(line@.take(line.len() as int) =~= line@);
        assert(views(ls@).take(i as int + 1).drop_last() =~= views(ls@).take(i as int));
        assert(views(ls@)[i as int] == line@);
        if !in_block && t.len() > 0 && t[t.len() - 1] == ';' {
            statements.push(text);
            text = Vec::new();
            assert(views(statements@) =~= split_lines(views(ls@).take(i as int + 1)).statements);
            assert(text@ =~= split_lines(views(ls@).take(i as int + 1)).pending_text);
        }
        i = i + 1;
    }
    assert(views(ls@).take(ls.len() as int) =~= views(ls@));
    let t = trimmed(&text);
    if t.len() > 0 {
        statements.push(text);
        assert(views(statements@) =~= script_statements(script@));
    }
    strings_of(&statements)
}

/// The parts written one after another.
pub open spec fn joined(parts: Seq<Seq<char>>) -> Seq<char>
    decreases parts.len(),
{
    if parts.len() == 0 {
        seq![]
    } else {
        joined(parts.drop_last()) + parts.last()
    }
}

proof fn lemma_split_lines_keeps_text(ls: Seq<Seq<char>>)
    ensures
        joined(split_lines(ls).statements) + split_lines(ls).pending_text == terminated(ls),
    decreases ls.len(),
{
    if ls.len() == 0 {
        assert(joined(seq![]) + Seq::<char>::empty() =~= Seq::<char>::empty());
    } else {
        let prev = split_lines(ls.drop_last());
        lemma_split_lines_keeps_text(ls.drop_last());
        let line = ls.last();
        let text = prev.pending_text + line.push('\n');
        let st = split_lines(ls);
        if st.statements.len() == prev.statements.len() + 1 {
            assert(st.statements == prev.statements.push(text));
            assert(st.statements.drop_last() =~= prev.statements);
            assert(joined(st.statements) + st.pending_text =~= joined(prev.statements) + text);
        } else {
            assert(joined(st.statements) + st.pending_text =~= joined(prev.statements) + text);
        }
        assert(joined(prev.statements) + text =~= terminated(ls.drop_last()) + line.push('\n'));
    }
}

/// Splitting loses no text: the statements written one after another,
/// followed by the dropped remainder, give back the script's lines each ended
/// by '\n', and the dropped remainder is all white space.
pub proof fn lemma_split_keeps_text(script: Seq<char>)
    ensures
        joined(script_statements(script)) + script_leftover(script) == terminated(lines(script)),
        is_blank(script_leftover(script)),
{
    let st = split_lines(lines(script));
    lemma_split_lines_keeps_text(lines(script));
    lemma_trim_empty_iff_blank(st.pending_text);
    if trim(st.pending_text).len() == 0 {
        assert(joined(script_statements(script)) + script_leftover(script)
            =~= joined(st.statements) + st.pending_text);
    } else {
        let all = st.statements.push(st.pending_text);
        assert(all.drop_last() =~= st.statements);
        assert(joined(all) + Seq::<char>::empty() =~= joined(st.statements) + st.pending_text);
    }
}

proof fn lemma_semicolon_line_not_blank(line: Seq<char>)
    requires
        ends_with_semicolon(trim(line)),
    ensures
        !is_blank(line),
{
    let r = lemma_trim_shape(line);
    assert(line[r.1 - 1] == trim(line).last());
}

proof fn lemma_split_lines_not_blank(ls: Seq<Seq<char>>)
    ensures
        forall|i: int| 0 <= i < split_lines(ls).statements.len()
            ==> !is_blank(#[trigger] split_lines(ls).statements[i]),
    decreases ls.len(),
{
    if ls.len() > 0 {
        let prev = split_lines(ls.drop_last());
        lemma_split_lines_not_blank(ls.drop_last());
        let line = ls.last();
        let text = prev.pending_text + line.push('\n');
        let st = split_lines(ls);
        if st.statements.len() == prev.statements.len() + 1 {
            lemma_semicolon_line_not_blank(line);
            let j = choose|j: int| 0 <= j < line.len() && !is_space(line[j]);
            assert(text[prev.pending_text.len() + j] == line[j]);
            assert forall|i: int| 0 <= i < st.statements.len() implies !is_blank(#[trigger] st.statements[i]) by {
                if i < prev.statements.len() {
                    assert(st.statements[i] == prev.statements[i]);
                } else {
                    assert(st.statements[i] == text);
                    assert(!is_space(text[prev.pending_text.len() + j]));
                }
            }
        }
    }
}

/// No statement that splitting yields is all white space.
pub proof fn lemma_statements_not_blank(script: Seq<char>)
    ensures
        forall|i: int| 0 <= i < script_statements(script).len()
            ==> !is_blank(#[trigger] script_statements(script)[i]),
{
    let st = split_lines(lines(script));
    lemma_split_lines_not_blank(lines(script));
    lemma_trim_empty_iff_blank(st.pending_text);
}

/// For a script without '\r', the statements written one after another,
/// followed by the dropped white-space remainder, give back the script
/// itself, ended by a '\n' when it did not end with one.
pub proof fn lemma_split_restores_script(script: Seq<char>)
    requires
        no_carriage_return(script),
    ensures
        joined(script_statements(script)) + script_leftover(script) == (if script.len() == 0
            || script.last() == '\n' {
            script
        } else {
            script.push('\n')
        }),
{
    lemma_split_keeps_text(script);
    lemma_lines_restore(script);
}

/// The version stored after a run that starts at version `current`: the
/// target of the last migration that ran, or `current` when none ran.
pub open spec fn version_after(migs: Seq<Migration>, current: i32) -> i32 {
    if pending(migs, current).len() == 0 {
        current
    } else {
        pending(migs, current).last().to
    }
}

proof fn lemma_pending_members(migs: Seq<Migration>, current: i32)
    ensures
        forall|k: int| 0 <= k < pending(migs, current).len() ==> is_pending(
            #[trigger] pending(migs, current)[k],
            current,
        ) && migs.contains(pending(migs, current)[k]),
    decreases migs.len(),
{
    if migs.len() > 0 {
        let p = migs.drop_last();
        lemma_pending_members(p, current);
        assert forall|k: int| 0 <= k < pending(migs, current).len() implies is_pending(
            #[trigger] pending(migs, current)[k],
            current,
        ) && migs.contains(pending(migs, current)[k]) by {
            if k < pending(p, current).len() {
                assert(pending(migs, current)[k] == pending(p, current)[k]);
                let m = pending(p, current)[k];
                let w = choose|w: int| 0 <= w < p.len() && p[w] == m;
                assert(migs[w] == m);
            } else {
                assert(migs[migs.len() - 1] == migs.last());
            }
        }
    }
}

proof fn lemma_pending_bounds(migs: Seq<Migration>, current: i32)
    requires
        is_chain(migs),
        pending(migs, current).len() > 0,
    ensures
        forall|i: int| 0 <= i < migs.len() ==> (#[trigger] migs[i]).from < pending(migs, current).last().to,
    decreases migs.len(),
{
    let p = migs.drop_last();
    let x = migs.last();
    assert(migs[migs.len() - 1] == x);
    assert(is_chain(p)) by {
        assert forall|i: int, j: int| 0 <= i < j < p.len() implies (#[trigger] p[i]).to <= (#[trigger] p[j]).from by {
            assert(p[i] == migs[i] && p[j] == migs[j]);
        }
        assert forall|i: int| 0 <= i < p.len() implies (#[trigger] p[i]).from < p[i].to by {
            assert(p[i] == migs[i]);
        }
    }
    if is_pending(x, current) {
        assert forall|i: int| 0 <= i < migs.len() implies (#[trigger] migs[i]).from < pending(migs, current).last().to by {
            if i < migs.len() - 1 {
                assert(migs[i].to <= migs[migs.len() - 1].from);
            }
        }
    } else {
        lemma_pending_bounds(p, current);
        lemma_pending_members(p, current);
        let last = pending(p, current).last();
        assert(pending(p, current)[pending(p, current).len() - 1] == last);
        assert forall|i: int| 0 <= i < migs.len() implies (#[trigger] migs[i]).from < pending(migs, current).last().to by {
            if i < migs.len() - 1 {
                assert(migs[i] == p[i]);
            } else {
                let w = choose|w: int| 0 <= w < p.len() && p[w] == last;
                assert(p[w] == migs[w]);
            }
        }
    }
}

/// Running the migrations twice does no more than running them once: after a
/// run from version `current`, which stores `version_after(migs, current)`,
/// no migration is pending.
pub proof fn lemma_rerun_applies_nothing(migs: Seq<Migration>, current: i32)
    requires
        is_chain(migs),
    ensures
        pending(migs, version_after(migs, current)).len() == 0,
{
    if pending(migs, current).len() > 0 {
        let v = version_after(migs, current);
        lemma_pending_bounds(migs, current);
        lemma_pending_members(migs, v);
        if pending(migs, v).len() > 0 {
            let m = pending(migs, v)[0];
            let w = choose|w: int| 0 <= w < migs.len() && migs[w] == m;
            assert(migs[w].from < v);
        }
    }
}

/// How many of the lines hold "$$" in their trimmed text.
pub open spec fn dollar_lines(ls: Seq<Seq<char>>) -> nat
    decreases ls.len(),
{
    if ls.len() == 0 {
        0
    } else {
        dollar_lines(ls.drop_last()) + if has_dollar_pair(trim(ls.last())) { 1nat } else { 0nat }
    }
}

/// The last line ends a statement: its trimmed text ends with ';' and, this
/// line counted, an even number of lines hold "$$".
pub open spec fn ends_statement(ls: Seq<Seq<char>>) -> bool {
    ls.len() > 0 && ends_with_semicolon(trim(ls.last())) && dollar_lines(ls) % 2 == 0
}

/// How many of the prefixes of `ls` end a statement.
pub open spec fn statement_ends(ls: Seq<Seq<char>>) -> nat
    decreases ls.len(),
{
    if ls.len() == 0 {
        0
    } else {
        statement_ends(ls.drop_last()) + if ends_statement(ls) { 1nat } else { 0nat }
    }
}

/// A statement ends exactly at each line whose trimmed text ends with ';'
/// when, that line counted, an even number of lines hold "$$": the splitter
/// is inside a "$$" block exactly after an odd number of such lines, it
/// completes as many statements as there are such ending lines, and nothing
/// is left gathered exactly when the last line ended a statement.
pub proof fn lemma_statements_end_at_semicolons(ls: Seq<Seq<char>>)
    ensures
        split_lines(ls).in_block == (dollar_lines(ls) % 2 == 1),
        split_lines(ls).statements.len() == statement_ends(ls),
        split_lines(ls).pending_text.len() == 0 <==> (ls.len() == 0 || ends_statement(ls)),
    decreases ls.len(),
{
    if ls.len() > 0 {
        lemma_statements_end_at_semicolons(ls.drop_last());
    }
}

/// For a script whose last line ends a statement, the statements are exactly
/// as many as the lines that end one.
pub proof fn lemma_statement_count(script: Seq<char>)
    requires
        ends_statement(lines(script)),
    ensures
        script_statements(script).len() == statement_ends(lines(script)),
{
    lemma_statements_end_at_semicolons(lines(script));
}

} // verus!
