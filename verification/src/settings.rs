//! The user's choices: when to start the timer and which events to split on.

use vstd::prelude::*;

verus! {

/// One of the two lists of goals that the game keeps.
#[derive(Clone, Copy, PartialEq, Eq, Structural, Debug)]
pub enum Collection {
    /// The quests of the journal.
    Quests,
    /// The achievements.
    Catchievements,
}

/// One switch for each event the timer can react to. A quest or achievement
/// without a switch is never split on.
#[derive(Clone, Copy, PartialEq, Eq, Structural, Debug)]
pub struct Settings {
    /// Start the timer when the run begins.
    pub start: bool,
    /// Split after eating the fish.
    pub eat_fish: bool,
    /// Split when the game ends.
    pub got_home: bool,
    /// Quest 32: Find the crow
    pub find_crow: bool,
    /// Quest 19: Bring crow 25 shinies
    pub bring_crow_25_shinies: bool,
    /// Quest 34: Become an artist
    pub become_artist: bool,
    /// Quest 8: Catch a bird
    pub catch_a_bird: bool,
    /// Quest 29: Help the Mayor get some sleep
    pub help_mayor: bool,
    /// Quest 21: Rescue the tanuki from the pipe
    pub rescue_tanuki: bool,
    /// Quest 28: Reunite the duckling family
    pub reunite_the_family: bool,
    /// Quest 24: Fetch 3 feathers for the tanuki
    pub fetch_3_feathers: bool,
    /// Quest 49: Pose for Beetle
    pub pose_for_beetle: bool,
    /// Quest 12: Fetch the dog's balls
    pub fetch_dog_balls: bool,
    /// Quest 36: Find Chameleon
    pub find_chameleon_1: bool,
    /// Quest 37: Find Chameleon... again!
    pub find_chameleon_2: bool,
    /// Quest 38: Find Chameleon, part III
    pub find_chameleon_3: bool,
    /// Quest 41: Find Chameleon: Episode 4
    pub find_chameleon_4: bool,
    /// Quest 42: Find Chameleon: 5IVE!
    pub find_chameleon_5: bool,
    /// Quest 43: Chameleon 6: Find and Furious
    pub find_chameleon_6: bool,
    /// Quest 44: Find Chameleon: Chapter 7
    pub find_chameleon_7: bool,
    /// Quest 45: Find Chameleon: The Return of Chaml
    pub find_chameleon_8: bool,
    /// Quest 47: Steal the gardener's lunch
    pub steal_lunch: bool,
    /// Quest 56: Boss Cat vs. Ramune!
    pub catch_yellow_bird: bool,
    /// Quest 39: Waiting on a sunbeam
    pub sunbeam: bool,
    /// Achievement 1: Hello Everyone! (meet all characters)
    pub hello_everyone: bool,
    /// Achievement 2: Quack Troops! (collect all ducklings)
    pub quack_troops: bool,
    /// Achievement 3: Snap Happy! (got photo mode)
    pub snap_happy: bool,
    /// Achievement 7: Capped Crusader (collect all hats)
    pub capped_crusader: bool,
    /// Achievement 8: World Traveler (open all portals)
    pub world_traveler: bool,
    /// Achievement 9: Cat Napper (nap in all spots)
    pub cat_napper: bool,
    /// Achievement 10: Bird Botherer (catch 20 birds)
    pub bird_botherer: bool,
    /// Achievement 11: If I Fits, I Sits (climb in 5 boxes)
    pub if_i_fits_i_sits: bool,
    /// Achievement 12: Litter Picker (recycle 100 items)
    pub litter_picker: bool,
    /// Achievement 13: Smash Hit (break 100 objects)
    pub smash_hit: bool,
    /// Achievement 14: Sticky Business (bust all bird nests)
    pub sticky_business: bool,
    /// Achievement 15: Give A Dog A Bone (bring bone to all dogs)
    pub give_a_dog_a_bone: bool,
    /// Achievement 16: Cult of Purr-sonality (be pet 10 times)
    pub cult_of_purrsonality: bool,
    /// Achievement 17: Local Celebrity (be photographed 20 times)
    pub local_celebrity: bool,
    /// Achievement 19: Papa-cat-zi (take 20 photos)
    pub papa_cat_zi: bool,
    /// Achievement 23: Cat-Like Reflexes (catch a bird in mid-air)
    pub cat_like_reflexes: bool,
    /// Achievement 24: Back Of The Net (score all soccer goals)
    pub back_of_the_net: bool,
    /// Achievement 26: Surprise! (knock over a human)
    pub surprise: bool,
    /// Achievement 27: Fruit Fall (make a human slip on a banana)
    pub fruit_fall: bool,
    /// Achievement 30: Industrial Artist (concrete artist)
    pub industrial_artist: bool,
    /// Achievement 31: Checkmate!
    pub checkmate: bool,
    /// Achievement 32: To Me, To You (human kick ball to you)
    pub to_me_to_you: bool,
    /// Achievement 33: No Parking! (paint fancy car)
    pub no_parking: bool,
    /// Achievement 34: Rub-A-Dub-Dub! (put rubber duck in the pond)
    pub rub_a_dub_dub: bool,
    /// Achievement 36: And Stay Out! (get kicked out of a store)
    pub and_stay_out: bool,
    /// Achievement 37: Killer Kitty! (chase human danger item)
    pub killer_kitty: bool,
    /// Achievement 38: Who Needs Cash? (bonk soda machine)
    pub who_needs_cash: bool,
    /// Achievement 39: Little Kitty, Big City
    pub little_kitty_big_city: bool,
    /// Achievement 41: Can't Stop The Feelings (use an emote)
    pub cant_stop_the_feelings: bool,
    /// Achievement 42: What Sweet Music (meow 10 times)
    pub what_sweet_music: bool,
    /// Achievement 43: Trip Hazard (make humans trip 20 times)
    pub trip_hazard: bool,
    /// Achievement 44: Splish! (portapotty mischief)
    pub splish: bool,
    /// Achievement 45: Decluttering (smash items)
    pub decluttering: bool,
    /// Achievement 46: Dumpster Diving (dive trash)
    pub dumpster_diving: bool,
}

impl Settings {
    /// The choices of a user who has changed nothing: the timer starts by
    /// itself and splits on the fish, on the end of the game and on every
    /// quest, and on no achievement.
    pub open spec fn spec_default() -> Settings {
        Settings {
            start: true,
            eat_fish: true,
            got_home: true,
            find_crow: true,
            bring_crow_25_shinies: true,
            become_artist: true,
            catch_a_bird: true,
            help_mayor: true,
            rescue_tanuki: true,
            reunite_the_family: true,
            fetch_3_feathers: true,
            pose_for_beetle: true,
            fetch_dog_balls: true,
            find_chameleon_1: true,
            find_chameleon_2: true,
            find_chameleon_3: true,
            find_chameleon_4: true,
            find_chameleon_5: true,
            find_chameleon_6: true,
            find_chameleon_7: true,
            find_chameleon_8: true,
            steal_lunch: true,
            catch_yellow_bird: true,
            sunbeam: true,
            hello_everyone: false,
            quack_troops: false,
            snap_happy: false,
            capped_crusader: false,
            world_traveler: false,
            cat_napper: false,
            bird_botherer: false,
            if_i_fits_i_sits: false,
            litter_picker: false,
            smash_hit: false,
            sticky_business: false,
            give_a_dog_a_bone: false,
            cult_of_purrsonality: false,
            local_celebrity: false,
            papa_cat_zi: false,
            cat_like_reflexes: false,
            back_of_the_net: false,
            surprise: false,
            fruit_fall: false,
            industrial_artist: false,
            checkmate: false,
            to_me_to_you: false,
            no_parking: false,
            rub_a_dub_dub: false,
            and_stay_out: false,
            killer_kitty: false,
            who_needs_cash: false,
            little_kitty_big_city: false,
            cant_stop_the_feelings: false,
            what_sweet_music: false,
            trip_hazard: false,
            splish: false,
            decluttering: false,
            dumpster_diving: false,
        }
    }

    /// The switch for the quest with the given identifier.
    pub open spec fn spec_quest(self, quest_id: u32) -> bool {
        match quest_id {
            8 => self.catch_a_bird,
            12 => self.fetch_dog_balls,
            19 => self.bring_crow_25_shinies,
            21 => self.rescue_tanuki,
            24 => self.fetch_3_feathers,
            28 => self.reunite_the_family,
            29 => self.help_mayor,
            32 => self.find_crow,
            34 => self.become_artist,
            36 => self.find_chameleon_1,
            37 => self.find_chameleon_2,
            38 => self.find_chameleon_3,
            39 => self.sunbeam,
            41 => self.find_chameleon_4,
            42 => self.find_chameleon_5,
            43 => self.find_chameleon_6,
            44 => self.find_chameleon_7,
            45 => self.find_chameleon_8,
            47 => self.steal_lunch,
            49 => self.pose_for_beetle,
            56 => self.catch_yellow_bird,
            _ => false,
        }
    }

    #[verifier::when_used_as_spec(spec_quest)]
    pub fn quest(self, quest_id: u32) -> (enabled: bool)
        ensures
            enabled == self.spec_quest(quest_id),
    {
        match quest_id {
            8 => self.catch_a_bird,
            12 => self.fetch_dog_balls,
            19 => self.bring_crow_25_shinies,
            21 => self.rescue_tanuki,
            24 => self.fetch_3_feathers,
            28 => self.reunite_the_family,
            29 => self.help_mayor,
            32 => self.find_crow,
            34 => self.become_artist,
            36 => self.find_chameleon_1,
            37 => self.find_chameleon_2,
            38 => self.find_chameleon_3,
            39 => self.sunbeam,
            41 => self.find_chameleon_4,
            42 => self.find_chameleon_5,
            43 => self.find_chameleon_6,
            44 => self.find_chameleon_7,
            45 => self.find_chameleon_8,
            47 => self.steal_lunch,
            49 => self.pose_for_beetle,
            56 => self.catch_yellow_bird,
            _ => false,
        }
    }

    /// The switch for the achievement with the given identifier.
    pub open spec fn spec_catchievement(self, quest_id: u32) -> bool {
        match quest_id {
            1 => self.hello_everyone,
            2 => self.quack_troops,
            3 => self.snap_happy,
            7 => self.capped_crusader,
            8 => self.world_traveler,
            9 => self.cat_napper,
            10 => self.bird_botherer,
            11 => self.if_i_fits_i_sits,
            12 => self.litter_picker,
            13 => self.smash_hit,
            14 => self.sticky_business,
            15 => self.give_a_dog_a_bone,
            16 => self.cult_of_purrsonality,
            17 => self.local_celebrity,
            19 => self.papa_cat_zi,
            23 => self.cat_like_reflexes,
            24 => self.back_of_the_net,
            26 => self.surprise,
            27 => self.fruit_fall,
            30 => self.industrial_artist,
            31 => self.checkmate,
            32 => self.to_me_to_you,
            33 => self.no_parking,
            34 => self.rub_a_dub_dub,
            36 => self.and_stay_out,
            37 => self.killer_kitty,
            38 => self.who_needs_cash,
            39 => self.little_kitty_big_city,
            41 => self.cant_stop_the_feelings,
            42 => self.what_sweet_music,
            43 => self.trip_hazard,
            44 => self.splish,
            45 => self.decluttering,
            46 => self.dumpster_diving,
            _ => false,
        }
    }

    #[verifier::when_used_as_spec(spec_catchievement)]
    pub fn catchievement(self, quest_id: u32) -> (enabled: bool)
        ensures
            enabled == self.spec_catchievement(quest_id),
    {
        match quest_id {
            1 => self.hello_everyone,
            2 => self.quack_troops,
            3 => self.snap_happy,
            7 => self.capped_crusader,
            8 => self.world_traveler,
            9 => self.cat_napper,
            10 => self.bird_botherer,
            11 => self.if_i_fits_i_sits,
            12 => self.litter_picker,
            13 => self.smash_hit,
            14 => self.sticky_business,
            15 => self.give_a_dog_a_bone,
            16 => self.cult_of_purrsonality,
            17 => self.local_celebrity,
            19 => self.papa_cat_zi,
            23 => self.cat_like_reflexes,
            24 => self.back_of_the_net,
            26 => self.surprise,
            27 => self.fruit_fall,
            30 => self.industrial_artist,
            31 => self.checkmate,
            32 => self.to_me_to_you,
            33 => self.no_parking,
            34 => self.rub_a_dub_dub,
            36 => self.and_stay_out,
            37 => self.killer_kitty,
            38 => self.who_needs_cash,
            39 => self.little_kitty_big_city,
            41 => self.cant_stop_the_feelings,
            42 => self.what_sweet_music,
            43 => self.trip_hazard,
            44 => self.splish,
            45 => self.decluttering,
            46 => self.dumpster_diving,
            _ => false,
        }
    }

    /// The switch for a goal of the given list.
    pub open spec fn spec_toggle(self, collection: Collection, quest_id: u32) -> bool {
        match collection {
            Collection::Quests => self.spec_quest(quest_id),
            Collection::Catchievements => self.spec_catchievement(quest_id),
        }
    }

    #[verifier::when_used_as_spec(spec_toggle)]
    pub fn toggle(self, collection: Collection, quest_id: u32) -> (enabled: bool)
        ensures
            enabled == self.spec_toggle(collection, quest_id),
    {
        match collection {
            Collection::Quests => self.quest(quest_id),
            Collection::Catchievements => self.catchievement(quest_id),
        }
    }
}

impl Default for Settings {
    fn default() -> (settings: Settings)
        ensures
            settings == Settings::spec_default(),
    {
        Settings {
            start: true,
            eat_fish: true,
            got_home: true,
            find_crow: true,
            bring_crow_25_shinies: true,
            become_artist: true,
            catch_a_bird: true,
            help_mayor: true,
            rescue_tanuki: true,
            reunite_the_family: true,
            fetch_3_feathers: true,
            pose_for_beetle: true,
            fetch_dog_balls: true,
            find_chameleon_1: true,
            find_chameleon_2: true,
            find_chameleon_3: true,
            find_chameleon_4: true,
            find_chameleon_5: true,
            find_chameleon_6: true,
            find_chameleon_7: true,
            find_chameleon_8: true,
            steal_lunch: true,
            catch_yellow_bird: true,
            sunbeam: true,
            hello_everyone: false,
            quack_troops: false,
            snap_happy: false,
            capped_crusader: false,
            world_traveler: false,
            cat_napper: false,
            bird_botherer: false,
            if_i_fits_i_sits: false,
            litter_picker: false,
            smash_hit: false,
            sticky_business: false,
            give_a_dog_a_bone: false,
            cult_of_purrsonality: false,
            local_celebrity: false,
            papa_cat_zi: false,
            cat_like_reflexes: false,
            back_of_the_net: false,
            surprise: false,
            fruit_fall: false,
            industrial_artist: false,
            checkmate: false,
            to_me_to_you: false,
            no_parking: false,
            rub_a_dub_dub: false,
            and_stay_out: false,
            killer_kitty: false,
            who_needs_cash: false,
            little_kitty_big_city: false,
            cant_stop_the_feelings: false,
            what_sweet_music: false,
            trip_hazard: false,
            splish: false,
            decluttering: false,
            dumpster_diving: false,
        }
    }
}

} // verus!
