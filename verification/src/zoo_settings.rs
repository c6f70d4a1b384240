//! The zoo status tracker's integer settings: the defaults it starts from and how the values read
//! from the game's configuration replace them.
use vstd::prelude::*;

verus! {

/// An integer setting of the zoo status tracker that the configuration can override, in the order
/// in which the tracker reads them.
#[derive(Clone, Copy, Debug, PartialEq, Eq, Structural)]
pub enum IntSetting {
    RatingCheckInterval,
    MessageCheckInterval,
    NewguestCheckInterval,
    AngryAnimalsSickChange,
    AngryHungryGuestsChange,
    AngryThirstyGuestsChange,
    AngryBathroomGuestsChange,
    AngrySouvenirGuestsChange,
    AngryRemoveAnimalChange,
    AngryTiredGuestsChange,
    AngryTrashGuestsChange,
    CreateGuestChanceVeryLow,
    CreateGuestChanceLow,
    CreateGuestChanceMed,
    CreateGuestChanceHigh,
    CreateGuestChanceVeryHigh,
    LoanAvailable,
    HighZooValueChange,
    LowZooValueChange,
    HighSpeciesThreshold,
    HappyDiverseAnimalsChange,
    LowSpeciesThreshold,
    AngryDiverseAnimalsChange,
    HighAvgAnimalHappyThreshold,
    HappyAnimalsChange,
    LowAvgAnimalHappyThreshold,
    AngryAnimalsChange,
    HighAvgGuestHappyThreshold,
    HappyGuestChange,
    LowAvgGuestHappyThreshold,
    AngryGuestChange,
    HighZooEstheticChange,
    LowZooEstheticChange,
    DonationsAvail,
    DonationLow,
    DonationHigh,
    DonationChance,
    SpeciesAvailable,
    MembershipJoinFactor,
    MembershipJoinHappiness,
    EndowmentGiftLow,
    EndowmentGiftHigh,
    MembershipJoinChance,
}

/// The integer settings of the zoo status tracker.
#[derive(Clone, Copy, Debug, PartialEq, Eq, Structural)]
pub struct ZooSettings {
    pub rating_check_interval: i32,
    pub message_check_interval: i32,
    pub newguest_check_interval: i32,
    pub angry_animals_sick_change: i32,
    pub angry_hungry_guests_change: i32,
    pub angry_thirsty_guests_change: i32,
    pub angry_bathroom_guests_change: i32,
    pub angry_souvenir_guests_change: i32,
    pub angry_remove_animal_change: i32,
    pub angry_tired_guests_change: i32,
    pub angry_trash_guests_change: i32,
    pub create_guest_chance_very_low: i32,
    pub create_guest_chance_low: i32,
    pub create_guest_chance_med: i32,
    pub create_guest_chance_high: i32,
    pub create_guest_chance_very_high: i32,
    pub loan_available: i32,
    pub high_zoo_value_change: i32,
    pub low_zoo_value_change: i32,
    pub high_species_threshold: i32,
    pub happy_diverse_animals_change: i32,
    pub low_species_threshold: i32,
    pub angry_diverse_animals_change: i32,
    pub high_avg_animal_happy_threshold: i32,
    pub happy_animals_change: i32,
    pub low_avg_animal_happy_threshold: i32,
    pub angry_animals_change: i32,
    pub high_avg_guest_happy_threshold: i32,
    pub happy_guest_change: i32,
    pub low_avg_guest_happy_threshold: i32,
    pub angry_guest_change: i32,
    pub high_zoo_esthetic_change: i32,
    pub low_zoo_esthetic_change: i32,
    pub donation_count_bound: i32,
    pub donation_amount_min: i32,
    pub donation_amount_max: i32,
    pub donation_chance_percent: i32,
    pub species_rating_cap: i32,
    pub membership_join_factor: i32,
    pub membership_join_happiness: i32,
    pub endowment_gift_low: i32,
    pub endowment_gift_high: i32,
    pub membership_join_chance: i32,
    /// The most guests the zoo holds; not read from the configuration.
    pub max_guests: i32,
}

/// The settings a freshly initialised tracker holds before any configuration is read.
pub open spec fn default_settings() -> ZooSettings {
    ZooSettings {
        rating_check_interval: 10000,
        message_check_interval: 10000,
        newguest_check_interval: 10000,
        angry_animals_sick_change: 0,
        angry_hungry_guests_change: 0,
        angry_thirsty_guests_change: 0,
        angry_bathroom_guests_change: 0,
        angry_souvenir_guests_change: 0,
        angry_remove_animal_change: 0,
        angry_tired_guests_change: 0,
        angry_trash_guests_change: 0,
        create_guest_chance_very_low: 1,
        create_guest_chance_low: 1,
        create_guest_chance_med: 1,
        create_guest_chance_high: 1,
        create_guest_chance_very_high: 1,
        loan_available: 0,
        high_zoo_value_change: 0,
        low_zoo_value_change: 0,
        high_species_threshold: 10,
        happy_diverse_animals_change: 0,
        low_species_threshold: 2,
        angry_diverse_animals_change: 0,
        high_avg_animal_happy_threshold: 90,
        happy_animals_change: 10,
        low_avg_animal_happy_threshold: 0,
        angry_animals_change: 0,
        high_avg_guest_happy_threshold: 90,
        happy_guest_change: 10,
        low_avg_guest_happy_threshold: 0,
        angry_guest_change: 0,
        high_zoo_esthetic_change: 0,
        low_zoo_esthetic_change: 0,
        donation_count_bound: 3,
        donation_amount_min: 10000,
        donation_amount_max: 20000,
        donation_chance_percent: 0,
        species_rating_cap: 44,
        membership_join_factor: 10,
        membership_join_happiness: 80,
        endowment_gift_low: 10000,
        endowment_gift_high: 20000,
        membership_join_chance: 50,
        max_guests: 1000,
    }
}

impl ZooSettings {
    /// The value of setting `k`.
    pub open spec fn value(self, k: IntSetting) -> i32 {
        match k {
            IntSetting::RatingCheckInterval => self.rating_check_interval,
            IntSetting::MessageCheckInterval => self.message_check_interval,
            IntSetting::NewguestCheckInterval => self.newguest_check_interval,
            IntSetting::AngryAnimalsSickChange => self.angry_animals_sick_change,
            IntSetting::AngryHungryGuestsChange => self.angry_hungry_guests_change,
            IntSetting::AngryThirstyGuestsChange => self.angry_thirsty_guests_change,
            IntSetting::AngryBathroomGuestsChange => self.angry_bathroom_guests_change,
            IntSetting::AngrySouvenirGuestsChange => self.angry_souvenir_guests_change,
            IntSetting::AngryRemoveAnimalChange => self.angry_remove_animal_change,
            IntSetting::AngryTiredGuestsChange => self.angry_tired_guests_change,
            IntSetting::AngryTrashGuestsChange => self.angry_trash_guests_change,
            IntSetting::CreateGuestChanceVeryLow => self.create_guest_chance_very_low,
            IntSetting::CreateGuestChanceLow => self.create_guest_chance_low,
            IntSetting::CreateGuestChanceMed => self.create_guest_chance_med,
            IntSetting::CreateGuestChanceHigh => self.create_guest_chance_high,
            IntSetting::CreateGuestChanceVeryHigh => self.create_guest_chance_very_high,
            IntSetting::LoanAvailable => self.loan_available,
            IntSetting::HighZooValueChange => self.high_zoo_value_change,
            IntSetting::LowZooValueChange => self.low_zoo_value_change,
            IntSetting::HighSpeciesThreshold => self.high_species_threshold,
            IntSetting::HappyDiverseAnimalsChange => self.happy_diverse_animals_change,
            IntSetting::LowSpeciesThreshold => self.low_species_threshold,
            IntSetting::AngryDiverseAnimalsChange => self.angry_diverse_animals_change,
            IntSetting::HighAvgAnimalHappyThreshold => self.high_avg_animal_happy_threshold,
            IntSetting::HappyAnimalsChange => self.happy_animals_change,
            IntSetting::LowAvgAnimalHappyThreshold => self.low_avg_animal_happy_threshold,
            IntSetting::AngryAnimalsChange => self.angry_animals_change,
            IntSetting::HighAvgGuestHappyThreshold => self.high_avg_guest_happy_threshold,
            IntSetting::HappyGuestChange => self.happy_guest_change,
            IntSetting::LowAvgGuestHappyThreshold => self.low_avg_guest_happy_threshold,
            IntSetting::AngryGuestChange => self.angry_guest_change,
            IntSetting::HighZooEstheticChange => self.high_zoo_esthetic_change,
            IntSetting::LowZooEstheticChange => self.low_zoo_esthetic_change,
            IntSetting::DonationsAvail => self.donation_count_bound,
            IntSetting::DonationLow => self.donation_amount_min,
            IntSetting::DonationHigh => self.donation_amount_max,
            IntSetting::DonationChance => self.donation_chance_percent,
            IntSetting::SpeciesAvailable => self.species_rating_cap,
            IntSetting::MembershipJoinFactor => self.membership_join_factor,
            IntSetting::MembershipJoinHappiness => self.membership_join_happiness,
            IntSetting::EndowmentGiftLow => self.endowment_gift_low,
            IntSetting::EndowmentGiftHigh => self.endowment_gift_high,
            IntSetting::MembershipJoinChance => self.membership_join_chance,
        }
    }

    /// These settings with setting `k` replaced by `v`.
    pub open spec fn with(self, k: IntSetting, v: i32) -> ZooSettings {
        match k {
            IntSetting::RatingCheckInterval => ZooSettings { rating_check_interval: v, ..self },
            IntSetting::MessageCheckInterval => ZooSettings { message_check_interval: v, ..self },
            IntSetting::NewguestCheckInterval => ZooSettings { newguest_check_interval: v, ..self },
            IntSetting::AngryAnimalsSickChange => ZooSettings { angry_animals_sick_change: v, ..self },
            IntSetting::AngryHungryGuestsChange => ZooSettings { angry_hungry_guests_change: v, ..self },
            IntSetting::AngryThirstyGuestsChange => ZooSettings { angry_thirsty_guests_change: v, ..self },
            IntSetting::AngryBathroomGuestsChange => ZooSettings { angry_bathroom_guests_change: v, ..self },
            IntSetting::AngrySouvenirGuestsChange => ZooSettings { angry_souvenir_guests_change: v, ..self },
            IntSetting::AngryRemoveAnimalChange => ZooSettings { angry_remove_animal_change: v, ..self },
            IntSetting::AngryTiredGuestsChange => ZooSettings { angry_tired_guests_change: v, ..self },
            IntSetting::AngryTrashGuestsChange => ZooSettings { angry_trash_guests_change: v, ..self },
            IntSetting::CreateGuestChanceVeryLow => ZooSettings { create_guest_chance_very_low: v, ..self },
            IntSetting::CreateGuestChanceLow => ZooSettings { create_guest_chance_low: v, ..self },
            IntSetting::CreateGuestChanceMed => ZooSettings { create_guest_chance_med: v, ..self },
            IntSetting::CreateGuestChanceHigh => ZooSettings { create_guest_chance_high: v, ..self },
            IntSetting::CreateGuestChanceVeryHigh => ZooSettings { create_guest_chance_very_high: v, ..self },
            IntSetting::LoanAvailable => ZooSettings { loan_available: v, ..self },
            IntSetting::HighZooValueChange => ZooSettings { high_zoo_value_change: v, ..self },
            IntSetting::LowZooValueChange => ZooSettings { low_zoo_value_change: v, ..self },
            IntSetting::HighSpeciesThreshold => ZooSettings { high_species_threshold: v, ..self },
            IntSetting::HappyDiverseAnimalsChange => ZooSettings { happy_diverse_animals_change: v, ..self },
            IntSetting::LowSpeciesThreshold => ZooSettings { low_species_threshold: v, ..self },
            IntSetting::AngryDiverseAnimalsChange => ZooSettings { angry_diverse_animals_change: v, ..self },
            IntSetting::HighAvgAnimalHappyThreshold => ZooSettings { high_avg_animal_happy_threshold: v, ..self },
            IntSetting::HappyAnimalsChange => ZooSettings { happy_animals_change: v, ..self },
            IntSetting::LowAvgAnimalHappyThreshold => ZooSettings { low_avg_animal_happy_threshold: v, ..self },
            IntSetting::AngryAnimalsChange => ZooSettings { angry_animals_change: v, ..self },
            IntSetting::HighAvgGuestHappyThreshold => ZooSettings { high_avg_guest_happy_threshold: v, ..self },
            IntSetting::HappyGuestChange => ZooSettings { happy_guest_change: v, ..self },
            IntSetting::LowAvgGuestHappyThreshold => ZooSettings { low_avg_guest_happy_threshold: v, ..self },
            IntSetting::AngryGuestChange => ZooSettings { angry_guest_change: v, ..self },
            IntSetting::HighZooEstheticChange => ZooSettings { high_zoo_esthetic_change: v, ..self },
            IntSetting::LowZooEstheticChange => ZooSettings { low_zoo_esthetic_change: v, ..self },
            IntSetting::DonationsAvail => ZooSettings { donation_count_bound: v, ..self },
            IntSetting::DonationLow => ZooSettings { donation_amount_min: v, ..self },
            IntSetting::DonationHigh => ZooSettings { donation_amount_max: v, ..self },
            IntSetting::DonationChance => ZooSettings { donation_chance_percent: v, ..self },
            IntSetting::SpeciesAvailable => ZooSettings { species_rating_cap: v, ..self },
            IntSetting::MembershipJoinFactor => ZooSettings { membership_join_factor: v, ..self },
            IntSetting::MembershipJoinHappiness => ZooSettings { membership_join_happiness: v, ..self },
            IntSetting::EndowmentGiftLow => ZooSettings { endowment_gift_low: v, ..self },
            IntSetting::EndowmentGiftHigh => ZooSettings { endowment_gift_high: v, ..self },
            IntSetting::MembershipJoinChance => ZooSettings { membership_join_chance: v, ..self },
        }
    }

    /// The value of setting `k`.
    pub fn get(&self, k: IntSetting) -> (r: i32)
        ensures
            r == self.value(k),
    {
        match k {
            IntSetting::RatingCheckInterval => self.rating_check_interval,
            IntSetting::MessageCheckInterval => self.message_check_interval,
            IntSetting::NewguestCheckInterval => self.newguest_check_interval,
            IntSetting::AngryAnimalsSickChange => self.angry_animals_sick_change,
            IntSetting::AngryHungryGuestsChange => self.angry_hungry_guests_change,
            IntSetting::AngryThirstyGuestsChange => self.angry_thirsty_guests_change,
            IntSetting::AngryBathroomGuestsChange => self.angry_bathroom_guests_change,
            IntSetting::AngrySouvenirGuestsChange => self.angry_souvenir_guests_change,
            IntSetting::AngryRemoveAnimalChange => self.angry_remove_animal_change,
            IntSetting::AngryTiredGuestsChange => self.angry_tired_guests_change,
            IntSetting::AngryTrashGuestsChange => self.angry_trash_guests_change,
            IntSetting::CreateGuestChanceVeryLow => self.create_guest_chance_very_low,
            IntSetting::CreateGuestChanceLow => self.create_guest_chance_low,
            IntSetting::CreateGuestChanceMed => self.create_guest_chance_med,
            IntSetting::CreateGuestChanceHigh => self.create_guest_chance_high,
            IntSetting::CreateGuestChanceVeryHigh => self.create_guest_chance_very_high,
            IntSetting::LoanAvailable => self.loan_available,
            IntSetting::HighZooValueChange => self.high_zoo_value_change,
            IntSetting::LowZooValueChange => self.low_zoo_value_change,
            IntSetting::HighSpeciesThreshold => self.high_species_threshold,
            IntSetting::HappyDiverseAnimalsChange => self.happy_diverse_animals_change,
            IntSetting::LowSpeciesThreshold => self.low_species_threshold,
            IntSetting::AngryDiverseAnimalsChange => self.angry_diverse_animals_change,
            IntSetting::HighAvgAnimalHappyThreshold => self.high_avg_animal_happy_threshold,
            IntSetting::HappyAnimalsChange => self.happy_animals_change,
            IntSetting::LowAvgAnimalHappyThreshold => self.low_avg_animal_happy_threshold,
            IntSetting::AngryAnimalsChange => self.angry_animals_change,
            IntSetting::HighAvgGuestHappyThreshold => self.high_avg_guest_happy_threshold,
            IntSetting::HappyGuestChange => self.happy_guest_change,
            IntSetting::LowAvgGuestHappyThreshold => self.low_avg_guest_happy_threshold,
            IntSetting::AngryGuestChange => self.angry_guest_change,
            IntSetting::HighZooEstheticChange => self.high_zoo_esthetic_change,
            IntSetting::LowZooEstheticChange => self.low_zoo_esthetic_change,
            IntSetting::DonationsAvail => self.donation_count_bound,
            IntSetting::DonationLow => self.donation_amount_min,
            IntSetting::DonationHigh => self.donation_amount_max,
            IntSetting::DonationChance => self.donation_chance_percent,
            IntSetting::SpeciesAvailable => self.species_rating_cap,
            IntSetting::MembershipJoinFactor => self.membership_join_factor,
            IntSetting::MembershipJoinHappiness => self.membership_join_happiness,
            IntSetting::EndowmentGiftLow => self.endowment_gift_low,
            IntSetting::EndowmentGiftHigh => self.endowment_gift_high,
            IntSetting::MembershipJoinChance => self.membership_join_chance,
        }
    }

    /// Replaces setting `k` by `v`, leaving every other setting as it was.
    pub fn set(&mut self, k: IntSetting, v: i32)
        ensures
            *final(self) == old(self).with(k, v),
    {
        match k {
            IntSetting::RatingCheckInterval => self.rating_check_interval = v,
            IntSetting::MessageCheckInterval => self.message_check_interval = v,
            IntSetting::NewguestCheckInterval => self.newguest_check_interval = v,
            IntSetting::AngryAnimalsSickChange => self.angry_animals_sick_change = v,
            IntSetting::AngryHungryGuestsChange => self.angry_hungry_guests_change = v,
            IntSetting::AngryThirstyGuestsChange => self.angry_thirsty_guests_change = v,
            IntSetting::AngryBathroomGuestsChange => self.angry_bathroom_guests_change = v,
            IntSetting::AngrySouvenirGuestsChange => self.angry_souvenir_guests_change = v,
            IntSetting::AngryRemoveAnimalChange => self.angry_remove_animal_change = v,
            IntSetting::AngryTiredGuestsChange => self.angry_tired_guests_change = v,
            IntSetting::AngryTrashGuestsChange => self.angry_trash_guests_change = v,
            IntSetting::CreateGuestChanceVeryLow => self.create_guest_chance_very_low = v,
            IntSetting::CreateGuestChanceLow => self.create_guest_chance_low = v,
            IntSetting::CreateGuestChanceMed => self.create_guest_chance_med = v,
            IntSetting::CreateGuestChanceHigh => self.create_guest_chance_high = v,
            IntSetting::CreateGuestChanceVeryHigh => self.create_guest_chance_very_high = v,
            IntSetting::LoanAvailable => self.loan_available = v,
            IntSetting::HighZooValueChange => self.high_zoo_value_change = v,
            IntSetting::LowZooValueChange => self.low_zoo_value_change = v,
            IntSetting::HighSpeciesThreshold => self.high_species_threshold = v,
            IntSetting::HappyDiverseAnimalsChange => self.happy_diverse_animals_change = v,
            IntSetting::LowSpeciesThreshold => self.low_species_threshold = v,
            IntSetting::AngryDiverseAnimalsChange => self.angry_diverse_animals_change = v,
            IntSetting::HighAvgAnimalHappyThreshold => self.high_avg_animal_happy_threshold = v,
            IntSetting::HappyAnimalsChange => self.happy_animals_change = v,
            IntSetting::LowAvgAnimalHappyThreshold => self.low_avg_animal_happy_threshold = v,
            IntSetting::AngryAnimalsChange => self.angry_animals_change = v,
            IntSetting::HighAvgGuestHappyThreshold => self.high_avg_guest_happy_threshold = v,
            IntSetting::HappyGuestChange => self.happy_guest_change = v,
            IntSetting::LowAvgGuestHappyThreshold => self.low_avg_guest_happy_threshold = v,
            IntSetting::AngryGuestChange => self.angry_guest_change = v,
            IntSetting::HighZooEstheticChange => self.high_zoo_esthetic_change = v,
            IntSetting::LowZooEstheticChange => self.low_zoo_esthetic_change = v,
            IntSetting::DonationsAvail => self.donation_count_bound = v,
            IntSetting::DonationLow => self.donation_amount_min = v,
            IntSetting::DonationHigh => self.donation_amount_max = v,
            IntSetting::DonationChance => self.donation_chance_percent = v,
            IntSetting::SpeciesAvailable => self.species_rating_cap = v,
            IntSetting::MembershipJoinFactor => self.membership_join_factor = v,
            IntSetting::MembershipJoinHappiness => self.membership_join_happiness = v,
            IntSetting::EndowmentGiftLow => self.endowment_gift_low = v,
            IntSetting::EndowmentGiftHigh => self.endowment_gift_high = v,
            IntSetting::MembershipJoinChance => self.membership_join_chance = v,
        }
    }
}

/// The settings `s` after applying, in order, each configuration value in `reads`.
pub open spec fn spec_override(s: ZooSettings, reads: Seq<(IntSetting, i32)>) -> ZooSettings
    decreases reads.len(),
{
    if reads.len() == 0 {
        s
    } else {
        spec_override(s, reads.drop_last()).with(reads.last().0, reads.last().1)
    }
}

/// The value of the last read of setting `k` in `reads`, if any.
pub open spec fn last_read(reads: Seq<(IntSetting, i32)>, k: IntSetting) -> Option<i32>
    decreases reads.len(),
{
    if reads.len() == 0 {
        None
    } else if reads.last().0 == k {
        Some(reads.last().1)
    } else {
        last_read(reads.drop_last(), k)
    }
}

impl ZooSettings {
    /// The defaults of a freshly initialised tracker.
    pub fn defaults() -> (s: ZooSettings)
        ensures
            s == default_settings(),
    {
        ZooSettings {
            rating_check_interval: 10000,
            message_check_interval: 10000,
            newguest_check_interval: 10000,
            angry_animals_sick_change: 0,
            angry_hungry_guests_change: 0,
            angry_thirsty_guests_change: 0,
            angry_bathroom_guests_change: 0,
            angry_souvenir_guests_change: 0,
            angry_remove_animal_change: 0,
            angry_tired_guests_change: 0,
            angry_trash_guests_change: 0,
            create_guest_chance_very_low: 1,
            create_guest_chance_low: 1,
            create_guest_chance_med: 1,
            create_guest_chance_high: 1,
            create_guest_chance_very_high: 1,
            loan_available: 0,
            high_zoo_value_change: 0,
            low_zoo_value_change: 0,
            high_species_threshold: 10,
            happy_diverse_animals_change: 0,
            low_species_threshold: 2,
            angry_diverse_animals_change: 0,
            high_avg_animal_happy_threshold: 90,
            happy_animals_change: 10,
            low_avg_animal_happy_threshold: 0,
            angry_animals_change: 0,
            high_avg_guest_happy_threshold: 90,
            happy_guest_change: 10,
            low_avg_guest_happy_threshold: 0,
            angry_guest_change: 0,
            high_zoo_esthetic_change: 0,
            low_zoo_esthetic_change: 0,
            donation_count_bound: 3,
            donation_amount_min: 10000,
            donation_amount_max: 20000,
            donation_chance_percent: 0,
            species_rating_cap: 44,
            membership_join_factor: 10,
            membership_join_happiness: 80,
            endowment_gift_low: 10000,
            endowment_gift_high: 20000,
            membership_join_chance: 50,
            max_guests: 1000,
        }
    }

    /// Applies the values read from the configuration, in order; a missing configuration
    /// (`None`) leaves every setting as it was.
    pub fn override_config(&mut self, config: Option<&Vec<(IntSetting, i32)>>)
        ensures
            match config {
                None => *final(self) == *old(self),
                Some(reads) => *final(self) == spec_override(*old(self), reads@),
            },
    {
        match config {
            None => {},
            Some(reads) => {
                let mut i: usize = 0;
                while i < reads.len()
                    invariant
                        i <= reads@.len(),
                        *self == spec_override(*old(self), reads@.take(i as int)),
                    decreases reads@.len() - i,
                {
                    assert(reads@.take(i + 1).drop_last() =~= reads@.take(i as int));
                    let (k, v) = reads[i];
                    self.set(k, v);
                    i = i + 1;
                }
                assert(reads@.take(reads@.len() as int) =~= reads@);
            },
        }
    }

    /// The settings of a tracker initialised with `config`: the defaults, then the values that
    /// were read from it.
    pub fn init(config: Option<&Vec<(IntSetting, i32)>>) -> (s: ZooSettings)
        ensures
            match config {
                None => s == default_settings(),
                Some(reads) => s == spec_override(default_settings(), reads@),
            },
    {
        let mut s = ZooSettings::defaults();
        s.override_config(config);
        s
    }

    /// The five guest-type arrival multipliers, from the very-low guest-creation chance to the very-high one.
    pub fn arrival_multipliers(&self) -> (r: [i32; 5])
        ensures
            r@ == seq![
                self.create_guest_chance_very_low,
                self.create_guest_chance_low,
                self.create_guest_chance_med,
                self.create_guest_chance_high,
                self.create_guest_chance_very_high,
            ],
    {
        [
            self.create_guest_chance_very_low,
            self.create_guest_chance_low,
            self.create_guest_chance_med,
            self.create_guest_chance_high,
            self.create_guest_chance_very_high,
        ]
    }
}

/// Replacing one setting changes that setting to the new value and leaves every other setting,
/// and the guest limit, as it was.
pub proof fn law_set_reads_back(s: ZooSettings, k: IntSetting, v: i32, other: IntSetting)
    ensures
        s.with(k, v).value(k) == v,
        other != k ==> s.with(k, v).value(other) == s.value(other),
        s.with(k, v).max_guests == s.max_guests,
{
}

/// After a configuration is applied, each setting holds the last value read for it, or what it
/// held before where the configuration has none; the guest limit is never changed.
pub proof fn law_override_last_read_wins(s: ZooSettings, reads: Seq<(IntSetting, i32)>, k: IntSetting)
    ensures
        spec_override(s, reads).value(k) == match last_read(reads, k) {
            Some(v) => v,
            None => s.value(k),
        },
        spec_override(s, reads).max_guests == s.max_guests,
    decreases reads.len(),
{
    if reads.len() > 0 {
        law_override_last_read_wins(s, reads.drop_last(), k);
        law_set_reads_back(spec_override(s, reads.drop_last()), reads.last().0, reads.last().1, k);
    }
}

} // verus!
