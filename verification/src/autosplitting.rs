//! The timer decisions: what a tick's readings do to the watchers, and what
//! the watchers and the user's settings say the timer should do.

use vstd::prelude::*;
use vstd::string::StringSliceAdditionalSpecFns;
use crate::bytes::{byte_strings, in_bounds, le_u32, same_bytes, u32_at, window};
use crate::memory::{Memory, Readings, ReadingsView};
use crate::scene_manager::{get_scene_name, scene_name};
use crate::settings::{Collection, Settings};
use crate::watcher::WatcherPair;

verus! {

/// A quest or an achievement, as the game's list records it.
#[derive(Copy, Clone, Hash, PartialEq, Eq, Structural, Debug)]
pub struct QuestData {
    pub quest_id: u32,
    pub complete: bool,
}

/// A span of game time.
#[derive(Copy, Clone, PartialEq, Eq, Structural, Debug)]
pub struct Duration {
    pub seconds: i64,
    pub nanoseconds: i32,
}

/// The values the timer reacts to, each with its value of the tick before.
#[derive(Clone, Debug, PartialEq, Eq)]
pub struct Watchers {
    pub start_trigger: WatcherPair<bool>,
    pub end_trigger: WatcherPair<bool>,
    pub is_loading: WatcherPair<bool>,
    pub quest_list: WatcherPair<Vec<QuestData>>,
    pub quest_secondary_list: WatcherPair<Vec<QuestData>>,
    pub is_post_eating: WatcherPair<bool>,
    pub allow_player_shake: WatcherPair<bool>,
}

/// A pair of lists as a pair of sequences.
pub open spec fn lists_view(pair: WatcherPair<Vec<QuestData>>) -> WatcherPair<Seq<QuestData>> {
    WatcherPair {
        old: match pair.old {
            Some(list) => Some(list@),
            None => None,
        },
        current: match pair.current {
            Some(list) => Some(list@),
            None => None,
        },
    }
}

/// The watchers as plain values.
pub struct WatchersView {
    pub start_trigger: WatcherPair<bool>,
    pub end_trigger: WatcherPair<bool>,
    pub is_loading: WatcherPair<bool>,
    pub quest_list: WatcherPair<Seq<QuestData>>,
    pub quest_secondary_list: WatcherPair<Seq<QuestData>>,
    pub is_post_eating: WatcherPair<bool>,
    pub allow_player_shake: WatcherPair<bool>,
}

impl View for Watchers {
    type V = WatchersView;

    open spec fn view(&self) -> WatchersView {
        WatchersView {
            start_trigger: self.start_trigger,
            end_trigger: self.end_trigger,
            is_loading: self.is_loading,
            quest_list: lists_view(self.quest_list),
            quest_secondary_list: lists_view(self.quest_secondary_list),
            is_post_eating: self.is_post_eating,
            allow_player_shake: self.allow_player_shake,
        }
    }
}

impl Default for Watchers {
    /// Watchers that have seen nothing.
    fn default() -> (watchers: Watchers)
        ensures
            watchers@ == (WatchersView {
                start_trigger: WatcherPair::spec_new(),
                end_trigger: WatcherPair::spec_new(),
                is_loading: WatcherPair::spec_new(),
                quest_list: WatcherPair::spec_new(),
                quest_secondary_list: WatcherPair::spec_new(),
                is_post_eating: WatcherPair::spec_new(),
                allow_player_shake: WatcherPair::spec_new(),
            }),
    {
        Watchers {
            start_trigger: WatcherPair::new(),
            end_trigger: WatcherPair::new(),
            is_loading: WatcherPair::new(),
            quest_list: WatcherPair::new(),
            quest_secondary_list: WatcherPair::new(),
            is_post_eating: WatcherPair::new(),
            allow_player_shake: WatcherPair::new(),
        }
    }
}

/// The name of the scene in which a run begins.
pub open spec fn entry_scene() -> Seq<u8> {
    "Level_X".spec_bytes()
}

/// The name of the scene that is shown while the game loads.
pub open spec fn loading_scene() -> Seq<u8> {
    "Loading".spec_bytes()
}

/// The name of the scene of the main menu.
pub open spec fn menu_scene() -> Seq<u8> {
    "MainMenu_LKBC".spec_bytes()
}

/// Whether a flag was read and is set. A flag that could not be read counts
/// as not set.
pub open spec fn is_set(reading: Option<u8>) -> bool {
    reading matches Some(value) && value != 0
}

/// Whether the active scene could be read and has the given name.
pub open spec fn scene_is(path: Option<Seq<u8>>, name: Seq<u8>) -> bool {
    path matches Some(path) && scene_name(path) == name
}

/// The quest that a record holds, if the record reaches as far as both
/// offsets: its identifier is a 32-bit number, and it is complete if the
/// byte of the flag is not zero.
pub open spec fn decode_quest(record: Seq<u8>, offset_id: int, offset_completed: int) -> Option<
    QuestData,
> {
    if in_bounds(record.len() as int, offset_id, 4) && 0 <= offset_completed < record.len() {
        Some(
            QuestData {
                quest_id: le_u32(window(record, offset_id, 4)) as u32,
                complete: record[offset_completed] != 0,
            },
        )
    } else {
        None
    }
}

/// The quests that a list of records holds, in the order of the records. A
/// record that is too short for the offsets holds none.
pub open spec fn decode_quests(records: Seq<Seq<u8>>, offset_id: int, offset_completed: int)
    -> Seq<QuestData>
    decreases records.len(),
{
    if records.len() == 0 {
        Seq::empty()
    } else {
        let before = decode_quests(records.drop_last(), offset_id, offset_completed);
        match decode_quest(records.last(), offset_id, offset_completed) {
            Some(quest) => before.push(quest),
            None => before,
        }
    }
}

/// The quests of a list that may not have been read. A list that could not
/// be read counts as empty.
pub open spec fn quests_of(
    records: Option<Seq<Seq<u8>>>,
    offset_id: int,
    offset_completed: int,
) -> Seq<QuestData> {
    match records {
        Some(records) => decode_quests(records, offset_id, offset_completed),
        None => Seq::empty(),
    }
}

/// What a tick's readings make of the watchers. Every watcher takes one new
/// value. The start trigger looks at the shake watcher as it is after its
/// own update.
pub open spec fn spec_update(
    watchers: WatchersView,
    readings: ReadingsView,
    offset_id: int,
    offset_completed: int,
) -> WatchersView {
    let allow_player_shake = watchers.allow_player_shake.spec_update(
        is_set(readings.allow_player_shake),
    );
    WatchersView {
        is_post_eating: watchers.is_post_eating.spec_update(is_set(readings.post_eat)),
        allow_player_shake,
        start_trigger: watchers.start_trigger.spec_update(
            scene_is(readings.current_scene, entry_scene()) && allow_player_shake.spec_changed_to(
                true,
            ),
        ),
        end_trigger: watchers.end_trigger.spec_update(is_set(readings.is_outro)),
        is_loading: watchers.is_loading.spec_update(
            scene_is(readings.current_scene, loading_scene()) || scene_is(
                readings.current_scene,
                menu_scene(),
            ) || is_set(readings.is_loading_save) || is_set(readings.is_teleporting),
        ),
        quest_list: watchers.quest_list.spec_update(
            quests_of(readings.quest_list, offset_id, offset_completed),
        ),
        quest_secondary_list: watchers.quest_secondary_list.spec_update(
            quests_of(readings.quest_secondary_list, offset_id, offset_completed),
        ),
    }
}

fn flag_is_set(reading: Option<u8>) -> (set: bool)
    ensures
        set == is_set(reading),
{
    match reading {
        Some(value) => value != 0,
        None => false,
    }
}

/// What a flag's byte says, where the byte was read.
fn flag_reading(reading: Option<u8>) -> (flag: Option<bool>)
    ensures
        flag == match reading {
            Some(value) => Some(value != 0),
            None => None,
        },
{
    match reading {
        Some(value) => Some(value != 0),
        None => None,
    }
}

fn scene_has_name(path: &Option<Vec<u8>>, name: &str) -> (same: bool)
    ensures
        same == scene_is(
            match *path {
                Some(path) => Some(path@),
                None => None,
            },
            name.spec_bytes(),
        ),
{
    match path {
        Some(path) => same_bytes(get_scene_name(path.as_slice()), name.as_bytes()),
        None => false,
    }
}

/// Reads the quest that a record holds.
pub fn quest_from_record(record: &[u8], offset_id: usize, offset_completed: usize) -> (quest:
    Option<QuestData>)
    ensures
        quest == decode_quest(record@, offset_id as int, offset_completed as int),
{
    if offset_completed >= record.len() {
        return None;
    }
    match u32_at(record, offset_id) {
        None => None,
        Some(quest_id) => Some(QuestData { quest_id, complete: record[offset_completed] != 0 }),
    }
}

/// Reads the quests that a list of records holds.
pub fn quests_from_records(records: &[Vec<u8>], offset_id: usize, offset_completed: usize) -> (quests:
    Vec<QuestData>)
    ensures
        quests@ == decode_quests(
            byte_strings(records@),
            offset_id as int,
            offset_completed as int,
        ),
{
    let mut quests: Vec<QuestData> = Vec::new();
    let ghost all = byte_strings(records@);
    let mut i: usize = 0;
    assert(all.take(0) =~= Seq::<Seq<u8>>::empty());
    while i < records.len()
        invariant
            i <= records@.len(),
            all == byte_strings(records@),
            quests@ == decode_quests(all.take(i as int), offset_id as int, offset_completed as int),
        decreases records@.len() - i,
    {
        assert(all.take(i + 1).drop_last() =~= all.take(i as int));
        assert(all.take(i + 1).last() == records@[i as int]@);
        match quest_from_record(records[i].as_slice(), offset_id, offset_completed) {
            Some(quest) => {
                quests.push(quest);
            },
            None => {},
        }
        i += 1;
    }
    assert(all.take(i as int) =~= all);
    quests
}

/// The quests of a list, where the list was read.
fn quests_reading(records: &Option<Vec<Vec<u8>>>, offset_id: usize, offset_completed: usize) -> (quests:
    Option<Vec<QuestData>>)
    ensures
        match (quests, *records) {
            (Some(quests), Some(records)) => quests@ == decode_quests(
                byte_strings(records@),
                offset_id as int,
                offset_completed as int,
            ),
            (None, None) => true,
            _ => false,
        },
{
    match records {
        Some(records) => Some(quests_from_records(records.as_slice(), offset_id, offset_completed)),
        None => None,
    }
}

/// Feeds a tick's readings to the watchers.
pub fn update(readings: &Readings, memory: &Memory, watchers: &mut Watchers)
    ensures
        final(watchers)@ == spec_update(
            old(watchers)@,
            readings@,
            memory.offset_achievement_id as int,
            memory.offset_achievement_completed as int,
        ),
{
    watchers.is_post_eating.update_infallible(flag_reading(readings.post_eat), false);
    watchers.allow_player_shake.update_infallible(flag_reading(readings.allow_player_shake), false);
    let shaken = watchers.allow_player_shake.changed_to(&true);
    watchers.start_trigger.update(scene_has_name(&readings.current_scene, "Level_X") && shaken);
    watchers.end_trigger.update_infallible(flag_reading(readings.is_outro), false);
    watchers.is_loading.update(
        scene_has_name(&readings.current_scene, "Loading") || scene_has_name(
            &readings.current_scene,
            "MainMenu_LKBC",
        ) || flag_is_set(readings.is_loading_save) || flag_is_set(readings.is_teleporting),
    );
    watchers.quest_list.update_infallible(
        quests_reading(
            &readings.quest_list,
            memory.offset_achievement_id,
            memory.offset_achievement_completed,
        ),
        Vec::new(),
    );
    watchers.quest_secondary_list.update_infallible(
        quests_reading(
            &readings.quest_secondary_list,
            memory.offset_achievement_id,
            memory.offset_achievement_completed,
        ),
        Vec::new(),
    );
}

/// Whether the first entry of `list` that has the given identifier is
/// complete. A list without such an entry says no.
pub open spec fn was_complete(list: Seq<QuestData>, quest_id: u32) -> bool {
    exists|at: int|
        {
            &&& 0 <= at < list.len()
            &&& (#[trigger] list[at]).quest_id == quest_id
            &&& list[at].complete
            &&& forall|before: int| 0 <= before < at ==> (#[trigger] list[before]).quest_id != quest_id
        }
}

/// Whether the entry at `at` of `current` is worth a split: the user wants
/// splits for it, it is complete, and it was not complete in `old`.
pub open spec fn entry_splits(
    settings: Settings,
    collection: Collection,
    old: Seq<QuestData>,
    current: Seq<QuestData>,
    at: int,
) -> bool {
    &&& 0 <= at < current.len()
    &&& settings.spec_toggle(collection, current[at].quest_id)
    &&& current[at].complete
    &&& !was_complete(old, current[at].quest_id)
}

/// Whether some entry of `current` is worth a split.
pub open spec fn list_splits(
    settings: Settings,
    collection: Collection,
    old: Seq<QuestData>,
    current: Seq<QuestData>,
) -> bool {
    exists|at: int| entry_splits(settings, collection, old, current, at)
}

/// Whether a watched list is worth a split. A list that has been seen once
/// only has nothing to compare with and is not.
pub open spec fn collection_splits(
    settings: Settings,
    collection: Collection,
    pair: WatcherPair<Seq<QuestData>>,
) -> bool {
    &&& pair.old is Some
    &&& pair.current is Some
    &&& list_splits(settings, collection, pair.old->0, pair.current->0)
}

/// Whether the timer should start: the user wants it to, and the start
/// trigger has just become true.
pub open spec fn spec_start(watchers: WatchersView, settings: Settings) -> bool {
    settings.start && watchers.start_trigger.spec_changed_to(true)
}

/// Whether the timer should split: the game has just ended, a quest or an
/// achievement has just been completed, or the fish has just been eaten,
/// and the user wants a split for it.
pub open spec fn spec_split(watchers: WatchersView, settings: Settings) -> bool {
    ||| settings.got_home && watchers.end_trigger.spec_changed_to(true)
    ||| collection_splits(settings, Collection::Quests, watchers.quest_list)
    ||| collection_splits(settings, Collection::Catchievements, watchers.quest_secondary_list)
    ||| settings.eat_fish && watchers.is_post_eating.spec_changed_to(true)
}

/// Whether the first entry of `list` with the given identifier is complete.
fn completed_before(list: &Vec<QuestData>, quest_id: u32) -> (complete: bool)
    ensures
        complete == was_complete(list@, quest_id),
{
    let mut at: usize = 0;
    while at < list.len()
        invariant
            at <= list@.len(),
            forall|before: int| 0 <= before < at ==> (#[trigger] list@[before]).quest_id != quest_id,
        decreases list@.len() - at,
    {
        if list[at].quest_id == quest_id {
            return list[at].complete;
        }
        at += 1;
    }
    false
}

/// Whether some entry of `current` is worth a split.
fn any_entry_splits(
    settings: &Settings,
    collection: Collection,
    old: &Vec<QuestData>,
    current: &Vec<QuestData>,
) -> (splits: bool)
    ensures
        splits == list_splits(*settings, collection, old@, current@),
{
    let mut at: usize = 0;
    while at < current.len()
        invariant
            at <= current@.len(),
            forall|before: int|
                0 <= before < at ==> !entry_splits(*settings, collection, old@, current@, before),
        decreases current@.len() - at,
    {
        let entry = current[at];
        if settings.toggle(collection, entry.quest_id) && entry.complete && !completed_before(
            old,
            entry.quest_id,
        ) {
            assert(entry_splits(*settings, collection, old@, current@, at as int));
            return true;
        }
        at += 1;
    }
    false
}

/// Whether a watched list is worth a split.
fn watched_list_splits(
    settings: &Settings,
    collection: Collection,
    pair: &WatcherPair<Vec<QuestData>>,
) -> (splits: bool)
    ensures
        splits == collection_splits(*settings, collection, lists_view(*pair)),
{
    match (&pair.old, &pair.current) {
        (Some(old), Some(current)) => any_entry_splits(settings, collection, old, current),
        _ => false,
    }
}

/// Whether the timer should start.
pub fn start(watchers: &Watchers, settings: &Settings) -> (go: bool)
    ensures
        go == spec_start(watchers@, *settings),
{
    settings.start && watchers.start_trigger.changed_to(&true)
}

/// Whether the timer should split.
pub fn split(watchers: &Watchers, settings: &Settings) -> (go: bool)
    ensures
        go == spec_split(watchers@, *settings),
{
    let end_trigger = settings.got_home && watchers.end_trigger.changed_to(&true);
    let quest_list = watched_list_splits(settings, Collection::Quests, &watchers.quest_list);
    let catchievements = watched_list_splits(
        settings,
        Collection::Catchievements,
        &watchers.quest_secondary_list,
    );
    let post_eating = settings.eat_fish && watchers.is_post_eating.changed_to(&true);
    end_trigger || quest_list || catchievements || post_eating
}

/// Whether the timer should reset. Nothing in this game resets a run, so the
/// answer is no, whatever the watchers and the settings hold.
pub fn reset(watchers: &Watchers, settings: &Settings) -> (go: bool)
    ensures
        !go,
{
    false
}

/// Whether the game is loading, in which case game time stands still. There
/// is always an answer: the game is loading if the loading watcher's current
/// value is true.
pub fn is_loading(watchers: &Watchers, settings: &Settings) -> (loading: Option<bool>)
    ensures
        loading == Some(watchers@.is_loading.spec_holds(true)),
{
    Some(watchers.is_loading.holds(&true))
}

/// The game time to show in place of the timer's own. There is none: the
/// timer's clock decides.
pub fn game_time(watchers: &Watchers, settings: &Settings, addresses: &Memory) -> (time: Option<
    Duration,
>)
    ensures
        time is None,
{
    None
}

/// Whatever else is read, the game counts as loading in the tick in which
/// the loading scene or the main menu is active, a save is being loaded, or
/// the player is being teleported, and in no other tick.
pub proof fn lemma_loading_follows_the_readings(
    watchers: WatchersView,
    readings: ReadingsView,
    offset_id: int,
    offset_completed: int,
)
    ensures
        spec_update(watchers, readings, offset_id, offset_completed).is_loading.spec_holds(true)
            <==> {
            ||| scene_is(readings.current_scene, loading_scene())
            ||| scene_is(readings.current_scene, menu_scene())
            ||| is_set(readings.is_loading_save)
            ||| is_set(readings.is_teleporting)
        },
{
}

/// The timer starts in the tick after which the start trigger has turned
/// from false to true: the user wants the start, the entry scene is active
/// and the shake has just been allowed, and in the tick before not all of
/// this was so.
pub proof fn lemma_start_follows_the_readings(
    watchers: WatchersView,
    readings: ReadingsView,
    settings: Settings,
    offset_id: int,
    offset_completed: int,
)
    ensures
        spec_start(spec_update(watchers, readings, offset_id, offset_completed), settings) <==> {
            &&& settings.start
            &&& watchers.start_trigger.current == Some(false)
            &&& scene_is(readings.current_scene, entry_scene())
            &&& watchers.allow_player_shake.current == Some(false)
            &&& is_set(readings.allow_player_shake)
        },
{
}

/// A quest that the user wants a split for, that is complete now and whose
/// first entry in the list of the tick before was not, makes the timer
/// split. With its switch off, and nothing else to split on, it does not.
pub proof fn lemma_completed_quest_splits(
    watchers: WatchersView,
    settings: Settings,
    quest_id: u32,
)
    requires
        watchers.quest_list.old == Some(seq![QuestData { quest_id, complete: false }]),
        watchers.quest_list.current == Some(seq![QuestData { quest_id, complete: true }]),
        !watchers.end_trigger.spec_changed_to(true),
        !watchers.is_post_eating.spec_changed_to(true),
        watchers.quest_secondary_list.old is None,
    ensures
        spec_split(watchers, settings) == settings.spec_quest(quest_id),
{
    let old = watchers.quest_list.old->0;
    let current = watchers.quest_list.current->0;
    assert(!was_complete(old, quest_id));
    if settings.spec_quest(quest_id) {
        assert(entry_splits(settings, Collection::Quests, old, current, 0));
    }
}

} // verus!
