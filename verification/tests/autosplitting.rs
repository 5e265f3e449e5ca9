use lkbc_autosplitter::autosplitting::{
    game_time, is_loading, quest_from_record, quests_from_records, reset, split, start, update,
    QuestData, Watchers,
};
use lkbc_autosplitter::memory::{Memory, Readings};
use lkbc_autosplitter::remote::PointerSize;
use lkbc_autosplitter::scene_manager::{Offsets, SceneManager};
use lkbc_autosplitter::settings::Settings;
use lkbc_autosplitter::watcher::WatcherPair;

fn quest(quest_id: u32, complete: bool) -> QuestData {
    QuestData { quest_id, complete }
}

fn memory() -> Memory {
    let scene_manager = SceneManager {
        pointer_size: PointerSize::Bit64,
        address: 0x1_0000,
        offsets: Offsets::new(PointerSize::Bit64),
    };
    Memory::init(scene_manager, 0x10, 0x14)
}

fn record(quest_id: u32, complete: u8) -> Vec<u8> {
    let mut bytes = vec![0xEEu8; 0x68];
    bytes[0x10..0x14].copy_from_slice(&quest_id.to_le_bytes());
    bytes[0x14] = complete;
    bytes
}

fn quiet() -> Readings {
    Readings {
        current_scene: Some(b"Assets/Scenes/City.unity".to_vec()),
        post_eat: Some(0),
        allow_player_shake: Some(0),
        is_outro: Some(0),
        is_loading_save: Some(0),
        is_teleporting: Some(0),
        quest_list: Some(vec![]),
        quest_secondary_list: Some(vec![]),
    }
}

fn flags(values: &[bool]) -> WatcherPair<bool> {
    let mut pair = WatcherPair::new();
    for value in values {
        pair.update(*value);
    }
    pair
}

fn lists(values: &[Vec<QuestData>]) -> WatcherPair<Vec<QuestData>> {
    let mut pair = WatcherPair::new();
    for value in values {
        pair.update(value.clone());
    }
    pair
}

#[test]
fn fresh_watchers_have_seen_nothing() {
    let watchers = Watchers::default();
    assert_eq!(watchers.start_trigger, WatcherPair::new());
    assert_eq!(watchers.end_trigger, WatcherPair::new());
    assert_eq!(watchers.is_loading, WatcherPair::new());
    assert_eq!(watchers.quest_list, WatcherPair::new());
    assert_eq!(watchers.quest_secondary_list, WatcherPair::new());
    assert_eq!(watchers.is_post_eating, WatcherPair::new());
    assert_eq!(watchers.allow_player_shake, WatcherPair::new());
}

#[test]
fn fresh_watchers_decide_nothing() {
    let watchers = Watchers::default();
    let settings = Settings::default();
    assert!(!start(&watchers, &settings));
    assert!(!split(&watchers, &settings));
    assert!(!reset(&watchers, &settings));
    assert_eq!(is_loading(&watchers, &settings), Some(false));
    assert_eq!(game_time(&watchers, &settings, &memory()), None);
}

#[test]
fn quest_is_decoded_from_its_record() {
    assert_eq!(quest_from_record(&record(32, 1), 0x10, 0x14), Some(quest(32, true)));
    assert_eq!(quest_from_record(&record(32, 0), 0x10, 0x14), Some(quest(32, false)));
    assert_eq!(quest_from_record(&record(0x0102_0304, 0xFF), 0x10, 0x14), Some(quest(0x0102_0304, true)));
}

#[test]
fn quest_identifier_may_stand_at_an_odd_offset() {
    let mut bytes = vec![0u8; 0x68];
    bytes[0x11..0x15].copy_from_slice(&56u32.to_le_bytes());
    bytes[0x67] = 2;
    assert_eq!(quest_from_record(&bytes, 0x11, 0x67), Some(quest(56, true)));
}

#[test]
fn record_that_is_too_short_holds_no_quest() {
    assert_eq!(quest_from_record(&record(32, 1), 0x65, 0x14), None);
    assert_eq!(quest_from_record(&record(32, 1), 0x10, 0x68), None);
    assert_eq!(quest_from_record(&record(32, 1), usize::MAX, 0x14), None);
    assert_eq!(quest_from_record(&record(32, 1), 0x64, 0x67), Some(quest(0xEEEE_EEEE, true)));
    assert_eq!(quest_from_record(&[], 0, 0), None);
}

#[test]
fn quests_keep_the_order_of_their_records() {
    let records = vec![record(8, 0), record(32, 1), record(12, 0)];
    assert_eq!(
        quests_from_records(&records, 0x10, 0x14),
        vec![quest(8, false), quest(32, true), quest(12, false)]
    );
}

#[test]
fn empty_list_holds_no_quests() {
    assert_eq!(quests_from_records(&[], 0x10, 0x14), vec![]);
}

#[test]
fn implausible_offsets_leave_the_list_empty() {
    let records = vec![record(8, 0), record(32, 1)];
    assert_eq!(quests_from_records(&records, 0x68, 0x14), vec![]);
    assert_eq!(quests_from_records(&records, 0x10, 0x100), vec![]);
}

#[test]
fn short_records_are_left_out() {
    let records = vec![record(8, 0), vec![0u8; 4], record(32, 1)];
    assert_eq!(quests_from_records(&records, 0x10, 0x14), vec![quest(8, false), quest(32, true)]);
}

#[test]
fn update_gives_every_watcher_one_new_value() {
    let mut watchers = Watchers::default();
    let readings = Readings {
        current_scene: Some(b"Assets/Scenes/City.unity".to_vec()),
        post_eat: Some(1),
        allow_player_shake: Some(0),
        is_outro: Some(7),
        is_loading_save: Some(0),
        is_teleporting: Some(0),
        quest_list: Some(vec![record(32, 0)]),
        quest_secondary_list: Some(vec![record(1, 1), record(2, 0)]),
    };
    update(&readings, &memory(), &mut watchers);
    assert_eq!(watchers.is_post_eating, flags(&[true]));
    assert_eq!(watchers.allow_player_shake, flags(&[false]));
    assert_eq!(watchers.start_trigger, flags(&[false]));
    assert_eq!(watchers.end_trigger, flags(&[true]));
    assert_eq!(watchers.is_loading, flags(&[false]));
    assert_eq!(watchers.quest_list, lists(&[vec![quest(32, false)]]));
    assert_eq!(watchers.quest_secondary_list, lists(&[vec![quest(1, true), quest(2, false)]]));
    update(&quiet(), &memory(), &mut watchers);
    assert_eq!(watchers.is_post_eating, flags(&[true, false]));
    assert_eq!(watchers.end_trigger, flags(&[true, false]));
    assert_eq!(watchers.quest_list, lists(&[vec![quest(32, false)], vec![]]));
    assert_eq!(watchers.quest_secondary_list, lists(&[vec![quest(1, true), quest(2, false)], vec![]]));
}

#[test]
fn failed_reads_count_as_unset_and_empty() {
    let mut watchers = Watchers::default();
    let readings = Readings {
        current_scene: None,
        post_eat: None,
        allow_player_shake: None,
        is_outro: None,
        is_loading_save: None,
        is_teleporting: None,
        quest_list: None,
        quest_secondary_list: None,
    };
    update(&readings, &memory(), &mut watchers);
    assert_eq!(watchers.is_post_eating, flags(&[false]));
    assert_eq!(watchers.allow_player_shake, flags(&[false]));
    assert_eq!(watchers.start_trigger, flags(&[false]));
    assert_eq!(watchers.end_trigger, flags(&[false]));
    assert_eq!(watchers.is_loading, flags(&[false]));
    assert_eq!(watchers.quest_list, lists(&[vec![]]));
    assert_eq!(watchers.quest_secondary_list, lists(&[vec![]]));
}

#[test]
fn loading_scene_means_loading() {
    let mut watchers = Watchers::default();
    let settings = Settings::default();
    update(&quiet(), &memory(), &mut watchers);
    assert_eq!(is_loading(&watchers, &settings), Some(false));
    let readings = Readings { current_scene: Some(b"Assets/Scenes/Loading.unity".to_vec()), ..quiet() };
    update(&readings, &memory(), &mut watchers);
    assert_eq!(is_loading(&watchers, &settings), Some(true));
    update(&quiet(), &memory(), &mut watchers);
    assert_eq!(is_loading(&watchers, &settings), Some(false));
}

#[test]
fn loading_on_the_very_first_tick_is_loading() {
    let mut watchers = Watchers::default();
    let readings = Readings { current_scene: Some(b"Loading".to_vec()), ..quiet() };
    update(&readings, &memory(), &mut watchers);
    assert_eq!(is_loading(&watchers, &Settings::default()), Some(true));
}

#[test]
fn main_menu_save_loading_and_teleporting_mean_loading() {
    let settings = Settings::default();
    let cases = [
        Readings { current_scene: Some(b"Assets/MainMenu_LKBC.unity".to_vec()), ..quiet() },
        Readings { is_loading_save: Some(1), ..quiet() },
        Readings { is_teleporting: Some(1), ..quiet() },
        Readings { current_scene: None, is_teleporting: Some(0x80), ..quiet() },
    ];
    for readings in cases {
        let mut watchers = Watchers::default();
        update(&readings, &memory(), &mut watchers);
        assert_eq!(is_loading(&watchers, &settings), Some(true));
    }
}

#[test]
fn scene_names_must_match_exactly() {
    let settings = Settings::default();
    for path in ["Assets/Loading2.unity", "Assets/loading.unity", "Loading/City.unity", "Assets/MainMenu.unity"] {
        let mut watchers = Watchers::default();
        let readings = Readings { current_scene: Some(path.as_bytes().to_vec()), ..quiet() };
        update(&readings, &memory(), &mut watchers);
        assert_eq!(is_loading(&watchers, &settings), Some(false), "{}", path);
    }
}

#[test]
fn entering_the_first_level_with_a_shake_starts_the_run() {
    let mut watchers = Watchers::default();
    let settings = Settings::default();
    let level = Readings { current_scene: Some(b"Assets/Scenes/Level_X.unity".to_vec()), ..quiet() };
    update(&quiet(), &memory(), &mut watchers);
    assert!(!start(&watchers, &settings));
    update(&level, &memory(), &mut watchers);
    assert!(!start(&watchers, &settings));
    let shaken = Readings { allow_player_shake: Some(1), ..level.clone() };
    update(&shaken, &memory(), &mut watchers);
    assert!(start(&watchers, &settings));
    update(&shaken, &memory(), &mut watchers);
    assert!(!start(&watchers, &settings));
}

#[test]
fn no_start_with_auto_start_switched_off() {
    let mut watchers = Watchers::default();
    let mut settings = Settings::default();
    settings.start = false;
    let level = Readings { current_scene: Some(b"Assets/Scenes/Level_X.unity".to_vec()), ..quiet() };
    update(&level, &memory(), &mut watchers);
    update(&Readings { allow_player_shake: Some(1), ..level }, &memory(), &mut watchers);
    assert!(!start(&watchers, &settings));
    settings.start = true;
    assert!(start(&watchers, &settings));
}

#[test]
fn no_start_in_another_scene() {
    let mut watchers = Watchers::default();
    update(&quiet(), &memory(), &mut watchers);
    update(&Readings { allow_player_shake: Some(1), ..quiet() }, &memory(), &mut watchers);
    assert!(!start(&watchers, &Settings::default()));
}

#[test]
fn no_start_when_the_shake_was_already_allowed() {
    let mut watchers = Watchers::default();
    let shaken = Readings { allow_player_shake: Some(1), ..quiet() };
    update(&shaken, &memory(), &mut watchers);
    let level = Readings { current_scene: Some(b"Level_X".to_vec()), ..shaken };
    update(&level, &memory(), &mut watchers);
    assert!(!start(&watchers, &Settings::default()));
}

#[test]
fn no_start_when_the_shake_comes_with_the_first_tick() {
    let mut watchers = Watchers::default();
    let readings = Readings {
        current_scene: Some(b"Level_X".to_vec()),
        allow_player_shake: Some(1),
        ..quiet()
    };
    update(&readings, &memory(), &mut watchers);
    assert!(!start(&watchers, &Settings::default()));
}

#[test]
fn completed_quest_splits_when_its_switch_is_on() {
    let mut watchers = Watchers::default();
    watchers.quest_list = lists(&[vec![quest(32, false)], vec![quest(32, true)]]);
    let mut settings = Settings::default();
    assert!(split(&watchers, &settings));
    settings.find_crow = false;
    assert!(!split(&watchers, &settings));
}

#[test]
fn quest_that_stays_as_it_was_does_not_split() {
    let settings = Settings::default();
    let mut watchers = Watchers::default();
    watchers.quest_list = lists(&[vec![quest(32, true)], vec![quest(32, true)]]);
    assert!(!split(&watchers, &settings));
    watchers.quest_list = lists(&[vec![quest(32, false)], vec![quest(32, false)]]);
    assert!(!split(&watchers, &settings));
    watchers.quest_list = lists(&[vec![quest(32, true)], vec![quest(32, false)]]);
    assert!(!split(&watchers, &settings));
}

#[test]
fn quest_seen_for_the_first_time_does_not_split() {
    let mut watchers = Watchers::default();
    watchers.quest_list = lists(&[vec![quest(32, true)]]);
    assert!(!split(&watchers, &Settings::default()));
}

#[test]
fn quest_that_was_absent_counts_as_not_complete_before() {
    let mut watchers = Watchers::default();
    watchers.quest_list = lists(&[vec![quest(8, false)], vec![quest(8, false), quest(32, true)]]);
    assert!(split(&watchers, &Settings::default()));
    watchers.quest_list = lists(&[vec![], vec![quest(32, false)]]);
    assert!(!split(&watchers, &Settings::default()));
}

#[test]
fn quest_without_a_switch_never_splits() {
    let mut watchers = Watchers::default();
    watchers.quest_list = lists(&[vec![quest(40, false)], vec![quest(40, true)]]);
    assert!(!split(&watchers, &Settings::default()));
}

#[test]
fn any_quest_of_the_list_can_split() {
    let mut watchers = Watchers::default();
    watchers.quest_list = lists(&[
        vec![quest(8, true), quest(12, false), quest(19, false)],
        vec![quest(8, true), quest(12, false), quest(19, true)],
    ]);
    let mut settings = Settings::default();
    assert!(split(&watchers, &settings));
    settings.bring_crow_25_shinies = false;
    assert!(!split(&watchers, &settings));
}

#[test]
fn first_entry_of_an_identifier_decides_what_was_before() {
    let mut watchers = Watchers::default();
    watchers.quest_list = lists(&[
        vec![quest(32, true), quest(32, false)],
        vec![quest(32, true)],
    ]);
    assert!(!split(&watchers, &Settings::default()));
    watchers.quest_list = lists(&[
        vec![quest(32, false), quest(32, true)],
        vec![quest(32, true)],
    ]);
    assert!(split(&watchers, &Settings::default()));
}

#[test]
fn achievements_split_by_their_own_switches() {
    let mut watchers = Watchers::default();
    watchers.quest_secondary_list = lists(&[vec![quest(8, false)], vec![quest(8, true)]]);
    let mut settings = Settings::default();
    assert!(!split(&watchers, &settings));
    settings.world_traveler = true;
    assert!(split(&watchers, &settings));
    settings.world_traveler = false;
    settings.catch_a_bird = true;
    assert!(!split(&watchers, &settings));
}

#[test]
fn quests_do_not_split_by_achievement_switches() {
    let mut watchers = Watchers::default();
    watchers.quest_list = lists(&[vec![quest(1, false)], vec![quest(1, true)]]);
    let mut settings = Settings::default();
    settings.hello_everyone = true;
    assert!(!split(&watchers, &settings));
}

#[test]
fn end_of_the_game_splits_when_wanted() {
    let mut watchers = Watchers::default();
    watchers.end_trigger = flags(&[false, true]);
    let mut settings = Settings::default();
    assert!(split(&watchers, &settings));
    settings.got_home = false;
    assert!(!split(&watchers, &settings));
    watchers.end_trigger = flags(&[true, true]);
    settings.got_home = true;
    assert!(!split(&watchers, &settings));
    watchers.end_trigger = flags(&[true]);
    assert!(!split(&watchers, &settings));
}

#[test]
fn eating_the_fish_splits_when_wanted() {
    let mut watchers = Watchers::default();
    watchers.is_post_eating = flags(&[false, true]);
    let mut settings = Settings::default();
    assert!(split(&watchers, &settings));
    settings.eat_fish = false;
    assert!(!split(&watchers, &settings));
    settings.eat_fish = true;
    watchers.is_post_eating = flags(&[true, false]);
    assert!(!split(&watchers, &settings));
}

#[test]
fn one_reason_is_enough_to_split() {
    let mut watchers = Watchers::default();
    watchers.end_trigger = flags(&[false, false]);
    watchers.is_post_eating = flags(&[false, true]);
    watchers.quest_list = lists(&[vec![quest(32, true)], vec![quest(32, true)]]);
    assert!(split(&watchers, &Settings::default()));
}

#[test]
fn reset_is_always_false() {
    let mut settings = Settings::default();
    let mut watchers = Watchers::default();
    assert!(!reset(&watchers, &settings));
    watchers.start_trigger = flags(&[false, true]);
    watchers.end_trigger = flags(&[false, true]);
    watchers.is_loading = flags(&[false, true]);
    watchers.is_post_eating = flags(&[false, true]);
    watchers.allow_player_shake = flags(&[false, true]);
    watchers.quest_list = lists(&[vec![quest(32, false)], vec![quest(32, true)]]);
    watchers.quest_secondary_list = lists(&[vec![quest(1, false)], vec![quest(1, true)]]);
    assert!(!reset(&watchers, &settings));
    settings.start = false;
    settings.got_home = false;
    settings.hello_everyone = true;
    assert!(!reset(&watchers, &settings));
}

#[test]
fn game_time_is_never_overridden() {
    let mut watchers = Watchers::default();
    watchers.is_loading = flags(&[false, true]);
    assert_eq!(game_time(&watchers, &Settings::default(), &memory()), None);
}

#[test]
fn is_loading_looks_at_the_current_value_only() {
    let settings = Settings::default();
    let mut watchers = Watchers::default();
    watchers.is_loading = flags(&[true]);
    assert_eq!(is_loading(&watchers, &settings), Some(true));
    watchers.is_loading = flags(&[true, true]);
    assert_eq!(is_loading(&watchers, &settings), Some(true));
    watchers.is_loading = flags(&[true, false]);
    assert_eq!(is_loading(&watchers, &settings), Some(false));
    watchers.is_loading = flags(&[false, true]);
    assert_eq!(is_loading(&watchers, &settings), Some(true));
}
