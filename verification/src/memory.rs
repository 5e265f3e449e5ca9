//! Everything the library reads from the game in one tick, and where it
//! finds it.

use vstd::prelude::*;
use vstd::string::StringSliceAdditionalSpecFns;
use crate::bytes::{byte_strings, le_u64, u64_at, window};
use crate::csharp::{CSharpList, ListLayout};
use crate::oracle::{OracleQuery, OracleTable, QueryView};
use crate::pointer_path::{cached_view, PathView, Progress, UnityPointer};
use crate::remote::{Fetch, MemoryImage, ReadRequest};
use crate::scene_manager::SceneManager;

verus! {

/// The most bytes that are read of a scene's asset path.
pub const SCENE_PATH_LEN: usize = 128;

/// The size of the record that the game keeps for each quest or achievement.
pub const RECORD_SIZE: usize = 0x68;

/// The read or the question that holds a tick's readings up.
pub enum Blocker {
    Read(ReadRequest),
    Ask(QueryView),
}

/// What holds `progress` up, if anything does.
pub open spec fn blocker_of<T>(progress: Progress<T, QueryView>) -> Option<Blocker> {
    match progress {
        Progress::Done(_) => None,
        Progress::Read(request) => Some(Blocker::Read(request)),
        Progress::Ask(query) => Some(Blocker::Ask(query)),
    }
}

/// The first of two blockers.
pub open spec fn first_of(first: Option<Blocker>, second: Option<Blocker>) -> Option<Blocker> {
    if first is Some {
        first
    } else {
        second
    }
}

/// The path that starts at the first static slot of `class` and goes on
/// through `fields`.
pub open spec fn path_of(class: &str, fields: Seq<&str>) -> PathView {
    PathView {
        root_class: class.spec_bytes(),
        static_field_slot: 0,
        segments: Seq::new(fields.len(), |i: int| fields[i].spec_bytes()),
    }
}

/// Where the game keeps what the timer reacts to.
#[derive(Clone, Debug, PartialEq, Eq)]
pub struct Memory {
    pub scene_manager: SceneManager,
    pub list_layout: ListLayout,
    pub trashcan_allow_shake: UnityPointer,
    pub is_loading_save: UnityPointer,
    pub is_teleporting: UnityPointer,
    pub is_outro: UnityPointer,
    pub quest_list: UnityPointer,
    pub quest_secondary_list: UnityPointer,
    pub post_eat: UnityPointer,
    /// In the record of a quest or achievement: its 32-bit identifier.
    pub offset_achievement_id: usize,
    /// In the record of a quest or achievement: the byte that is not zero
    /// once it is complete.
    pub offset_achievement_completed: usize,
}

/// What was read from the game in one tick. `None` stands for a value that
/// could not be read.
#[derive(Clone, Debug, PartialEq, Eq)]
pub struct Readings {
    /// The asset path of the active scene.
    pub current_scene: Option<Vec<u8>>,
    pub post_eat: Option<u8>,
    pub allow_player_shake: Option<u8>,
    pub is_outro: Option<u8>,
    pub is_loading_save: Option<u8>,
    pub is_teleporting: Option<u8>,
    /// The records of the quests, in the order of the game's list.
    pub quest_list: Option<Vec<Vec<u8>>>,
    /// The records of the achievements, in the order of the game's list.
    pub quest_secondary_list: Option<Vec<Vec<u8>>>,
}

/// A tick's readings as plain sequences.
pub struct ReadingsView {
    pub current_scene: Option<Seq<u8>>,
    pub post_eat: Option<u8>,
    pub allow_player_shake: Option<u8>,
    pub is_outro: Option<u8>,
    pub is_loading_save: Option<u8>,
    pub is_teleporting: Option<u8>,
    pub quest_list: Option<Seq<Seq<u8>>>,
    pub quest_secondary_list: Option<Seq<Seq<u8>>>,
}

impl View for Readings {
    type V = ReadingsView;

    open spec fn view(&self) -> ReadingsView {
        ReadingsView {
            current_scene: match self.current_scene {
                Some(path) => Some(path@),
                None => None,
            },
            post_eat: self.post_eat,
            allow_player_shake: self.allow_player_shake,
            is_outro: self.is_outro,
            is_loading_save: self.is_loading_save,
            is_teleporting: self.is_teleporting,
            quest_list: match self.quest_list {
                Some(records) => Some(byte_strings(records@)),
                None => None,
            },
            quest_secondary_list: match self.quest_secondary_list {
                Some(records) => Some(byte_strings(records@)),
                None => None,
            },
        }
    }
}

/// The byte at the end of a path, or `None` where the path leads nowhere.
pub open spec fn spec_flag(
    pointer: UnityPointer,
    oracle: Map<QueryView, Option<u64>>,
    image: MemoryImage,
    layout: ListLayout,
) -> Progress<Option<u8>, QueryView> {
    match pointer.spec_deref(oracle, image, layout, 1) {
        Progress::Done(Ok(bytes)) => Progress::Done(Some(bytes[0])),
        Progress::Done(Err(_)) => Progress::Done(None),
        Progress::Read(request) => Progress::Read(request),
        Progress::Ask(query) => Progress::Ask(query),
    }
}

/// The records of the list whose address stands at the end of a path, or
/// `None` where the path leads nowhere.
pub open spec fn spec_records(
    pointer: UnityPointer,
    oracle: Map<QueryView, Option<u64>>,
    image: MemoryImage,
    layout: ListLayout,
) -> Progress<Option<Seq<Seq<u8>>>, QueryView> {
    match pointer.spec_deref(oracle, image, layout, 8) {
        Progress::Done(Ok(bytes)) => match (CSharpList { address: le_u64(bytes) as u64 }).spec_iter(
            image,
            layout,
            RECORD_SIZE,
        ) {
            Fetch::Need(request) => Progress::Read(request),
            Fetch::Ready(records) => Progress::Done(Some(records)),
        },
        Progress::Done(Err(_)) => Progress::Done(None),
        Progress::Read(request) => Progress::Read(request),
        Progress::Ask(query) => Progress::Ask(query),
    }
}

/// A flag's progress, as plain sequences.
pub open spec fn flag_view(outcome: Progress<Option<u8>, OracleQuery>) -> Progress<
    Option<u8>,
    QueryView,
> {
    match outcome {
        Progress::Done(value) => Progress::Done(value),
        Progress::Read(request) => Progress::Read(request),
        Progress::Ask(query) => Progress::Ask(query@),
    }
}

/// A list's progress, as plain sequences.
pub open spec fn records_view(outcome: Progress<Option<Vec<Vec<u8>>>, OracleQuery>) -> Progress<
    Option<Seq<Seq<u8>>>,
    QueryView,
> {
    match outcome {
        Progress::Done(Some(records)) => Progress::Done(Some(byte_strings(records@))),
        Progress::Done(None) => Progress::Done(None),
        Progress::Read(request) => Progress::Read(request),
        Progress::Ask(query) => Progress::Ask(query@),
    }
}

/// Whether `after` is `before` with its chain resolved, as far as `oracle`
/// allows.
pub open spec fn settled(
    after: UnityPointer,
    before: UnityPointer,
    oracle: Map<QueryView, Option<u64>>,
) -> bool {
    &&& after.path == before.path
    &&& cached_view(after.resolved) == before.spec_cache_after(oracle)
}

/// Whether `after` is `before`, or `before` with its chain resolved.
pub open spec fn kept_or_settled(
    after: UnityPointer,
    before: UnityPointer,
    oracle: Map<QueryView, Option<u64>>,
) -> bool {
    &&& after.path == before.path
    &&& (cached_view(after.resolved) == cached_view(before.resolved) || cached_view(
        after.resolved,
    ) == before.spec_cache_after(oracle))
}

/// Reads the byte at the end of a path.
pub fn read_flag(
    pointer: &mut UnityPointer,
    oracle: &OracleTable,
    image: &MemoryImage,
    layout: &ListLayout,
) -> (outcome: Progress<Option<u8>, OracleQuery>)
    ensures
        flag_view(outcome) == spec_flag(*old(pointer), oracle@, *image, *layout),
        settled(*final(pointer), *old(pointer), oracle@),
        outcome matches Progress::Read(request) ==> !image.knows(request),
        outcome matches Progress::Ask(query) ==> !oracle@.contains_key(query@),
{
    match pointer.deref(oracle, image, layout, 1) {
        Progress::Done(Ok(bytes)) => Progress::Done(Some(bytes[0])),
        Progress::Done(Err(_)) => Progress::Done(None),
        Progress::Read(request) => Progress::Read(request),
        Progress::Ask(query) => Progress::Ask(query),
    }
}

/// Reads the records of the list whose address stands at the end of a path.
pub fn read_records(
    pointer: &mut UnityPointer,
    oracle: &OracleTable,
    image: &MemoryImage,
    layout: &ListLayout,
) -> (outcome: Progress<Option<Vec<Vec<u8>>>, OracleQuery>)
    ensures
        records_view(outcome) == spec_records(*old(pointer), oracle@, *image, *layout),
        settled(*final(pointer), *old(pointer), oracle@),
        outcome matches Progress::Read(request) ==> !image.knows(request),
        outcome matches Progress::Ask(query) ==> !oracle@.contains_key(query@),
{
    match pointer.deref(oracle, image, layout, 8) {
        Progress::Done(Ok(bytes)) => {
            assert(window(bytes@, 0, 8) =~= bytes@);
            let address = match u64_at(bytes.as_slice(), 0) {
                Some(address) => address,
                None => 0,
            };
            match (CSharpList { address }).iter(image, layout, RECORD_SIZE) {
                Fetch::Need(request) => Progress::Read(request),
                Fetch::Ready(records) => Progress::Done(Some(records)),
            }
        },
        Progress::Done(Err(_)) => Progress::Done(None),
        Progress::Read(request) => Progress::Read(request),
        Progress::Ask(query) => Progress::Ask(query),
    }
}

impl Memory {
    /// Declares where the game keeps its state. `scene_manager` has been
    /// located, and the two offsets have been asked of the oracle, before.
    pub fn init(
        scene_manager: SceneManager,
        offset_achievement_id: usize,
        offset_achievement_completed: usize,
    ) -> (memory: Memory)
        ensures
            memory.scene_manager == scene_manager,
            memory.list_layout == ListLayout::spec_mono_64(),
            memory.offset_achievement_id == offset_achievement_id,
            memory.offset_achievement_completed == offset_achievement_completed,
            memory.trashcan_allow_shake.path@ == path_of(
                "CatPlayer",
                seq!["_instance", "trashDive_TrashCan", "allowPlayerShake"],
            ),
            memory.is_loading_save.path@ == path_of(
                "CatSaveSystemManager",
                seq!["_instance", "_isLoading"],
            ),
            memory.is_teleporting.path@ == path_of("CatPlayer", seq!["_instance", "isTeleporting"]),
            memory.is_outro.path@ == path_of("CatGameManager", seq!["_instance", "isInOutro"]),
            memory.quest_list.path@ == path_of("Journal", seq!["achievementMaster"]),
            memory.quest_secondary_list.path@ == path_of("Journal", seq!["achievementSecondary"]),
            memory.post_eat.path@ == path_of("CatPlayer", seq!["_instance", "isPostEating"]),
            memory.trashcan_allow_shake.resolved is None,
            memory.is_loading_save.resolved is None,
            memory.is_teleporting.resolved is None,
            memory.is_outro.resolved is None,
            memory.quest_list.resolved is None,
            memory.quest_secondary_list.resolved is None,
            memory.post_eat.resolved is None,
    {
        let shake: [&str; 3] = ["_instance", "trashDive_TrashCan", "allowPlayerShake"];
        let loading: [&str; 2] = ["_instance", "_isLoading"];
        let teleporting: [&str; 2] = ["_instance", "isTeleporting"];
        let outro: [&str; 2] = ["_instance", "isInOutro"];
        let master: [&str; 1] = ["achievementMaster"];
        let secondary: [&str; 1] = ["achievementSecondary"];
        let eating: [&str; 2] = ["_instance", "isPostEating"];
        assert(shake@ =~= seq!["_instance", "trashDive_TrashCan", "allowPlayerShake"]);
        assert(loading@ =~= seq!["_instance", "_isLoading"]);
        assert(teleporting@ =~= seq!["_instance", "isTeleporting"]);
        assert(outro@ =~= seq!["_instance", "isInOutro"]);
        assert(master@ =~= seq!["achievementMaster"]);
        assert(secondary@ =~= seq!["achievementSecondary"]);
        assert(eating@ =~= seq!["_instance", "isPostEating"]);
        Memory {
            scene_manager,
            list_layout: ListLayout::mono_64(),
            trashcan_allow_shake: UnityPointer::new("CatPlayer", 0, shake.as_slice()),
            is_loading_save: UnityPointer::new("CatSaveSystemManager", 0, loading.as_slice()),
            is_teleporting: UnityPointer::new("CatPlayer", 0, teleporting.as_slice()),
            is_outro: UnityPointer::new("CatGameManager", 0, outro.as_slice()),
            quest_list: UnityPointer::new("Journal", 0, master.as_slice()),
            quest_secondary_list: UnityPointer::new("Journal", 0, secondary.as_slice()),
            post_eat: UnityPointer::new("CatPlayer", 0, eating.as_slice()),
            offset_achievement_id,
            offset_achievement_completed,
        }
    }

    /// The asset path of the active scene, as far as `image` can tell.
    pub open spec fn spec_scene(self, image: MemoryImage) -> Progress<Option<Seq<u8>>, QueryView> {
        match self.scene_manager.spec_current_scene_path(image, SCENE_PATH_LEN) {
            Fetch::Need(request) => Progress::Read(request),
            Fetch::Ready(path) => Progress::Done(path),
        }
    }

    /// What holds a tick's readings up: the first, in the order in which the
    /// values are read, of the reads and questions that are still open.
    pub open spec fn spec_blocker(self, oracle: Map<QueryView, Option<u64>>, image: MemoryImage)
        -> Option<Blocker> {
        let layout = self.list_layout;
        first_of(
            blocker_of(self.spec_scene(image)),
            first_of(
                blocker_of(spec_flag(self.post_eat, oracle, image, layout)),
                first_of(
                    blocker_of(spec_flag(self.trashcan_allow_shake, oracle, image, layout)),
                    first_of(
                        blocker_of(spec_flag(self.is_outro, oracle, image, layout)),
                        first_of(
                            blocker_of(spec_flag(self.is_loading_save, oracle, image, layout)),
                            first_of(
                                blocker_of(spec_flag(self.is_teleporting, oracle, image, layout)),
                                first_of(
                                    blocker_of(
                                        spec_records(self.quest_list, oracle, image, layout),
                                    ),
                                    blocker_of(
                                        spec_records(
                                            self.quest_secondary_list,
                                            oracle,
                                            image,
                                            layout,
                                        ),
                                    ),
                                ),
                            ),
                        ),
                    ),
                ),
            ),
        )
    }

    /// A tick's readings, where nothing holds them up.
    pub open spec fn spec_values(self, oracle: Map<QueryView, Option<u64>>, image: MemoryImage)
        -> ReadingsView
        recommends
            self.spec_blocker(oracle, image) is None,
    {
        let layout = self.list_layout;
        ReadingsView {
            current_scene: self.spec_scene(image)->Done_0,
            post_eat: spec_flag(self.post_eat, oracle, image, layout)->Done_0,
            allow_player_shake: spec_flag(self.trashcan_allow_shake, oracle, image, layout)->Done_0,
            is_outro: spec_flag(self.is_outro, oracle, image, layout)->Done_0,
            is_loading_save: spec_flag(self.is_loading_save, oracle, image, layout)->Done_0,
            is_teleporting: spec_flag(self.is_teleporting, oracle, image, layout)->Done_0,
            quest_list: spec_records(self.quest_list, oracle, image, layout)->Done_0,
            quest_secondary_list: spec_records(
                self.quest_secondary_list,
                oracle,
                image,
                layout,
            )->Done_0,
        }
    }

    /// Whether `self` is `before` with some of its chains resolved: nothing
    /// else ever changes.
    pub open spec fn evolved_from(self, before: Memory, oracle: Map<QueryView, Option<u64>>)
        -> bool {
        &&& self.scene_manager == before.scene_manager
        &&& self.list_layout == before.list_layout
        &&& self.offset_achievement_id == before.offset_achievement_id
        &&& self.offset_achievement_completed == before.offset_achievement_completed
        &&& kept_or_settled(self.trashcan_allow_shake, before.trashcan_allow_shake, oracle)
        &&& kept_or_settled(self.is_loading_save, before.is_loading_save, oracle)
        &&& kept_or_settled(self.is_teleporting, before.is_teleporting, oracle)
        &&& kept_or_settled(self.is_outro, before.is_outro, oracle)
        &&& kept_or_settled(self.quest_list, before.quest_list, oracle)
        &&& kept_or_settled(self.quest_secondary_list, before.quest_secondary_list, oracle)
        &&& kept_or_settled(self.post_eat, before.post_eat, oracle)
    }

    /// Whether `self` is `before` with each of its chains resolved as far as
    /// `oracle` allows.
    pub open spec fn settled_from(self, before: Memory, oracle: Map<QueryView, Option<u64>>)
        -> bool {
        &&& settled(self.trashcan_allow_shake, before.trashcan_allow_shake, oracle)
        &&& settled(self.is_loading_save, before.is_loading_save, oracle)
        &&& settled(self.is_teleporting, before.is_teleporting, oracle)
        &&& settled(self.is_outro, before.is_outro, oracle)
        &&& settled(self.quest_list, before.quest_list, oracle)
        &&& settled(self.quest_secondary_list, before.quest_secondary_list, oracle)
        &&& settled(self.post_eat, before.post_eat, oracle)
    }

    /// Gathers a tick's readings from what `oracle` and `image` hold: the
    /// active scene, the five flags, and the two lists, in that order. As
    /// long as a read or an answer is lacking, the first that is lacking
    /// comes back in place of the readings. Paths are resolved on the way;
    /// nothing else of `self` changes.
    pub fn read(&mut self, oracle: &OracleTable, image: &MemoryImage) -> (outcome: Progress<
        Readings,
        OracleQuery,
    >)
        ensures
            match outcome {
                Progress::Done(readings) => {
                    &&& old(self).spec_blocker(oracle@, *image) is None
                    &&& readings@ == old(self).spec_values(oracle@, *image)
                    &&& final(self).settled_from(*old(self), oracle@)
                },
                Progress::Read(request) => {
                    &&& old(self).spec_blocker(oracle@, *image) == Some(Blocker::Read(request))
                    &&& !image.knows(request)
                },
                Progress::Ask(query) => {
                    &&& old(self).spec_blocker(oracle@, *image) == Some(Blocker::Ask(query@))
                    &&& !oracle@.contains_key(query@)
                },
            },
            final(self).evolved_from(*old(self), oracle@),
    {
        let layout = self.list_layout;
        let current_scene = match self.scene_manager.get_current_scene_path(image, SCENE_PATH_LEN) {
            Fetch::Need(request) => {
                return Progress::Read(request);
            },
            Fetch::Ready(path) => path,
        };
        let post_eat = match read_flag(&mut self.post_eat, oracle, image, &layout) {
            Progress::Read(request) => {
                return Progress::Read(request);
            },
            Progress::Ask(query) => {
                return Progress::Ask(query);
            },
            Progress::Done(value) => value,
        };
        let allow_player_shake = match read_flag(
            &mut self.trashcan_allow_shake,
            oracle,
            image,
            &layout,
        ) {
            Progress::Read(request) => {
                return Progress::Read(request);
            },
            Progress::Ask(query) => {
                return Progress::Ask(query);
            },
            Progress::Done(value) => value,
        };
        let is_outro = match read_flag(&mut self.is_outro, oracle, image, &layout) {
            Progress::Read(request) => {
                return Progress::Read(request);
            },
            Progress::Ask(query) => {
                return Progress::Ask(query);
            },
            Progress::Done(value) => value,
        };
        let is_loading_save = match read_flag(&mut self.is_loading_save, oracle, image, &layout) {
            Progress::Read(request) => {
                return Progress::Read(request);
            },
            Progress::Ask(query) => {
                return Progress::Ask(query);
            },
            Progress::Done(value) => value,
        };
        let is_teleporting = match read_flag(&mut self.is_teleporting, oracle, image, &layout) {
            Progress::Read(request) => {
                return Progress::Read(request);
            },
            Progress::Ask(query) => {
                return Progress::Ask(query);
            },
            Progress::Done(value) => value,
        };
        let quest_list = match read_records(&mut self.quest_list, oracle, image, &layout) {
            Progress::Read(request) => {
                return Progress::Read(request);
            },
            Progress::Ask(query) => {
                return Progress::Ask(query);
            },
            Progress::Done(value) => value,
        };
        let quest_secondary_list = match read_records(
            &mut self.quest_secondary_list,
            oracle,
            image,
            &layout,
        ) {
            Progress::Read(request) => {
                return Progress::Read(request);
            },
            Progress::Ask(query) => {
                return Progress::Ask(query);
            },
            Progress::Done(value) => value,
        };
        Progress::Done(
            Readings {
                current_scene,
                post_eat,
                allow_player_shake,
                is_outro,
                is_loading_save,
                is_teleporting,
                quest_list,
                quest_secondary_list,
            },
        )
    }
}

} // verus!
