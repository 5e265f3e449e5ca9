use lkbc_autosplitter::settings::{Collection, Settings};

const QUESTS: [u32; 21] =
    [8, 12, 19, 21, 24, 28, 29, 32, 34, 36, 37, 38, 39, 41, 42, 43, 44, 45, 47, 49, 56];

const CATCHIEVEMENTS: [u32; 34] = [
    1, 2, 3, 7, 8, 9, 10, 11, 12, 13, 14, 15, 16, 17, 19, 23, 24, 26, 27, 30, 31, 32, 33, 34, 36,
    37, 38, 39, 41, 42, 43, 44, 45, 46,
];

#[test]
fn defaults_start_and_split_on_quests_only() {
    let settings = Settings::default();
    assert!(settings.start);
    assert!(settings.eat_fish);
    assert!(settings.got_home);
    for id in 0..100 {
        assert_eq!(settings.quest(id), QUESTS.contains(&id), "quest {}", id);
        assert!(!settings.catchievement(id), "achievement {}", id);
    }
}

#[test]
fn quest_switches_are_keyed_by_identifier() {
    let mut settings = Settings::default();
    settings.find_crow = false;
    assert!(!settings.quest(32));
    assert!(settings.quest(19));
    settings.find_crow = true;
    settings.catch_a_bird = false;
    assert!(settings.quest(32));
    assert!(!settings.quest(8));
    settings.catch_a_bird = true;
    settings.pose_for_beetle = false;
    assert!(!settings.quest(49));
    settings.pose_for_beetle = true;
    settings.sunbeam = false;
    assert!(!settings.quest(39));
    settings.sunbeam = true;
    settings.catch_yellow_bird = false;
    assert!(!settings.quest(56));
    settings.catch_yellow_bird = true;
    settings.find_chameleon_4 = false;
    assert!(!settings.quest(41));
    assert!(settings.quest(42));
}

#[test]
fn achievement_switches_are_keyed_by_identifier() {
    let mut settings = Settings::default();
    settings.hello_everyone = true;
    settings.capped_crusader = true;
    settings.papa_cat_zi = true;
    settings.dumpster_diving = true;
    settings.to_me_to_you = true;
    for id in 0..100 {
        assert_eq!(settings.catchievement(id), [1, 7, 19, 32, 46].contains(&id), "id {}", id);
    }
}

#[test]
fn every_achievement_has_its_own_switch() {
    let mut settings = Settings::default();
    settings.hello_everyone = true;
    settings.quack_troops = true;
    settings.snap_happy = true;
    settings.capped_crusader = true;
    settings.world_traveler = true;
    settings.cat_napper = true;
    settings.bird_botherer = true;
    settings.if_i_fits_i_sits = true;
    settings.litter_picker = true;
    settings.smash_hit = true;
    settings.sticky_business = true;
    settings.give_a_dog_a_bone = true;
    settings.cult_of_purrsonality = true;
    settings.local_celebrity = true;
    settings.papa_cat_zi = true;
    settings.cat_like_reflexes = true;
    settings.back_of_the_net = true;
    settings.surprise = true;
    settings.fruit_fall = true;
    settings.industrial_artist = true;
    settings.checkmate = true;
    settings.to_me_to_you = true;
    settings.no_parking = true;
    settings.rub_a_dub_dub = true;
    settings.and_stay_out = true;
    settings.killer_kitty = true;
    settings.who_needs_cash = true;
    settings.little_kitty_big_city = true;
    settings.cant_stop_the_feelings = true;
    settings.what_sweet_music = true;
    settings.trip_hazard = true;
    settings.splish = true;
    settings.decluttering = true;
    settings.dumpster_diving = true;
    for id in 0..100 {
        assert_eq!(settings.catchievement(id), CATCHIEVEMENTS.contains(&id), "id {}", id);
    }
}

#[test]
fn identifiers_without_a_switch_are_off() {
    let settings = Settings::default();
    for id in [0u32, 1, 40, 46, 48, 57, 1000, u32::MAX] {
        assert!(!settings.quest(id));
    }
}

#[test]
fn toggle_picks_the_table_of_the_collection() {
    let mut settings = Settings::default();
    settings.world_traveler = true;
    settings.catch_a_bird = false;
    assert!(!settings.toggle(Collection::Quests, 8));
    assert!(settings.toggle(Collection::Catchievements, 8));
    assert!(settings.toggle(Collection::Quests, 12));
    assert!(!settings.toggle(Collection::Catchievements, 12));
}
