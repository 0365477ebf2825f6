//! The decisions that the web handlers make: which dictionary is chosen,
//! where a user is sent, which page of a list is shown, and how the export
//! position of a dictionary is kept valid.

use vstd::prelude::*;
use vstd::string::*;
use crate::models::{Dictionary_Sentence, UserDictionary};
use crate::text::same_text;

verus! {

/// Where unknown paths and logged-out users are sent.
pub const LOGIN_PAGE: &'static str = "/login";

/// The first page of the dictionary view.
pub const DICTIONARY_FIRST_PAGE: &'static str = "/userspace/dictionary/p/1";

/// How many entries a page of the dictionary or of the history shows.
pub const PAGE_SIZE: i32 = 10;

/// The dictionaries that a new user picks: language ids and, at the same
/// positions, level ids.
pub struct DictionariesInfo {
    pub dictionaries_ids: Vec<i32>,
    pub dictionaries_level_ids: Vec<i32>,
}

/// The rows (user id, language id, level id) that create a new user's
/// dictionaries, one per chosen language, in order.
pub fn dictionary_rows(info: &DictionariesInfo, user_id: i32) -> (rows: Vec<(i32, i32, i32)>)
    requires
        info.dictionaries_level_ids@.len() >= info.dictionaries_ids@.len(),
    ensures
        rows@.len() == info.dictionaries_ids@.len(),
        forall|i: int| 0 <= i < rows@.len() ==> #[trigger] rows@[i] == (
            user_id,
            info.dictionaries_ids@[i],
            info.dictionaries_level_ids@[i],
        ),
{
    let mut rows: Vec<(i32, i32, i32)> = Vec::new();
    let mut i: usize = 0;
    while i < info.dictionaries_ids.len()
        invariant
            i <= info.dictionaries_ids@.len(),
            info.dictionaries_level_ids@.len() >= info.dictionaries_ids@.len(),
            rows@.len() == i,
            forall|j: int| 0 <= j < i ==> #[trigger] rows@[j] == (
                user_id,
                info.dictionaries_ids@[j],
                info.dictionaries_level_ids@[j],
            ),
        decreases info.dictionaries_ids@.len() - i,
    {
        rows.push((user_id, info.dictionaries_ids[i], info.dictionaries_level_ids[i]));
        i = i + 1;
    }
    rows
}

/// The dictionary that a language name selects: the first one of that
/// language, or the first dictionary when none is.
pub fn dictionary_index_by_name(dicts: &Vec<UserDictionary>, name: &str) -> (r: usize)
    ensures
        (r < dicts@.len() && dicts@[r as int].language_name@ == name@
            && forall|i: int| 0 <= i < r ==> (#[trigger] dicts@[i]).language_name@ != name@)
        || (r == 0 && forall|i: int| 0 <= i < dicts@.len() ==> (#[trigger] dicts@[i]).language_name@ != name@),
{
    let mut i: usize = 0;
    while i < dicts.len()
        invariant
            i <= dicts@.len(),
            forall|j: int| 0 <= j < i ==> (#[trigger] dicts@[j]).language_name@ != name@,
        decreases dicts@.len() - i,
    {
        if same_text(dicts[i].language_name.as_str(), name) {
            return i;
        }
        i = i + 1;
    }
    0
}

/// The offset of the first entry of a page, pages counted from 1.
pub fn page_offset(page: i32) -> (offset: i32)
    requires
        i32::MIN < page,
        i32::MIN <= (page - 1) * 10 <= i32::MAX,
    ensures
        offset == (page - 1) * 10,
{
    (page - 1) * PAGE_SIZE
}

/// Where the translation history of a language starts.
pub open spec fn history_location_text(lang: Seq<char>) -> Seq<char> {
    "/userspace/translate/history/"@ + lang + "/p/1"@
}

/// Builds `history_location_text`.
pub fn history_location(lang: &str) -> (loc: String)
    ensures
        loc@ == history_location_text(lang@),
{
    let mut loc = String::new();
    loc.append("/userspace/translate/history/");
    loc.append(lang);
    loc.append("/p/1");
    loc
}

/// The history is asked for every language at once.
pub fn is_all_languages(lang: &str) -> (r: bool)
    ensures
        r == (lang@ == "all"@),
{
    same_text(lang, "all")
}

/// The next step in keeping a dictionary's export position on an existing
/// sentence after a sentence is deleted.
pub enum DumpRepair {
    /// The position is elsewhere: nothing changes.
    Keep,
    /// Ask for the closest older sentence (the answer is -1 when there is none).
    FindOlder,
    /// Ask for the closest newer sentence (the answer is -1 when there is none).
    FindNewer,
    /// Move the position to this sentence.
    MoveTo(i32),
    /// Remove the position: the dictionary has no other sentence.
    Remove,
}

/// The first step: only a position on the deleted sentence needs repair.
pub fn repair_start(position: i32, deleted: i32) -> (step: DumpRepair)
    ensures
        step == first_repair_step(position, deleted),
{
    if position == deleted {
        DumpRepair::FindOlder
    } else {
        DumpRepair::Keep
    }
}

/// After the older sentence is known: move there, or look for a newer one.
pub fn repair_after_older(older: i32) -> (step: DumpRepair)
    ensures
        step == repair_step_after_older(older),
{
    if older == -1 {
        DumpRepair::FindNewer
    } else {
        DumpRepair::MoveTo(older)
    }
}

/// After the newer sentence is known: move there, or remove the position.
pub fn repair_after_newer(newer: i32) -> (step: DumpRepair)
    ensures
        step == repair_step_after_newer(newer),
{
    if newer == -1 {
        DumpRepair::Remove
    } else {
        DumpRepair::MoveTo(newer)
    }
}

/// Where a repair ends, given the answers to both questions.
pub open spec fn repair_outcome(position: i32, deleted: i32, older: i32, newer: i32) -> DumpRepair {
    if position != deleted {
        DumpRepair::Keep
    } else if older != -1 {
        DumpRepair::MoveTo(older)
    } else if newer != -1 {
        DumpRepair::MoveTo(newer)
    } else {
        DumpRepair::Remove
    }
}

/// The result of running the steps one after another.
pub open spec fn run_repair(position: i32, deleted: i32, older: i32, newer: i32) -> DumpRepair {
    match first_repair_step(position, deleted) {
        DumpRepair::FindOlder => match repair_step_after_older(older) {
            DumpRepair::FindNewer => repair_step_after_newer(newer),
            other => other,
        },
        other => other,
    }
}

/// The step that `repair_start` takes.
pub open spec fn first_repair_step(position: i32, deleted: i32) -> DumpRepair {
    if position == deleted { DumpRepair::FindOlder } else { DumpRepair::Keep }
}

/// The step that `repair_after_older` takes.
pub open spec fn repair_step_after_older(older: i32) -> DumpRepair {
    if older == -1 { DumpRepair::FindNewer } else { DumpRepair::MoveTo(older) }
}

/// The step that `repair_after_newer` takes.
pub open spec fn repair_step_after_newer(newer: i32) -> DumpRepair {
    if newer == -1 { DumpRepair::Remove } else { DumpRepair::MoveTo(newer) }
}

/// The steps end in a final action: a position on the deleted sentence moves
/// to the closest older sentence, else to the closest newer one, else it is
/// removed; any other position is kept; and it is never moved to -1.
pub proof fn lemma_repair_outcome(position: i32, deleted: i32, older: i32, newer: i32)
    ensures
        run_repair(position, deleted, older, newer) == repair_outcome(position, deleted, older, newer),
        run_repair(position, deleted, older, newer) matches DumpRepair::MoveTo(id) ==> id != -1,
        !(run_repair(position, deleted, older, newer) is FindOlder),
        !(run_repair(position, deleted, older, newer) is FindNewer),
{
}

/// A repair never leaves the position on the deleted sentence, given answers
/// that mean what their questions ask: an older sentence has a smaller id and
/// a newer one a larger id (or the answer is -1).
pub proof fn lemma_repair_leaves_deleted(position: i32, deleted: i32, older: i32, newer: i32)
    requires
        older == -1 || older < deleted,
        newer == -1 || newer > deleted,
    ensures
        run_repair(position, deleted, older, newer) matches DumpRepair::MoveTo(id) ==> id != deleted,
        run_repair(position, deleted, older, newer) is Keep ==> position != deleted,
{
}

/// The export position after a dictionary is exported: its newest sentence.
pub fn position_after_export(newest: &Vec<Dictionary_Sentence>) -> (id: i32)
    requires
        newest@.len() > 0,
    ensures
        id == newest@[0].id,
{
    newest[0].id
}

/// The export position that a newly added sentence starts: when the
/// dictionary had none (-1), the newest sentence; otherwise none is made.
pub fn new_sentence_position(position: i32, newest: &Vec<Dictionary_Sentence>) -> (r: Option<i32>)
    requires
        position == -1 ==> newest@.len() > 0,
    ensures
        r == (if position == -1 { Some(newest@[0].id) } else { None::<i32> }),
{
    if position == -1 {
        Some(newest[0].id)
    } else {
        None
    }
}

} // verus!
