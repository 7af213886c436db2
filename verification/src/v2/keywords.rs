// Keyword tables of the DuelScript language: for each keyword enum, the
// word the formatter writes and the reading the parser gives to a word,
// with the law that the two agree.

use vstd::prelude::*;
use super::ast::{
    ActivateWhat, AnnounceWhat, Arrow, Attribute, BattlePosition, BinOp, CardFilterKind, CardState,
    CardType, Category, CompareOp, Controller, DestroyBy, Duration, FieldTarget, GrantAbility,
    PhaseName, PlayerWho, PositionFilter, Race, RedirectScope, ReplaceableEvent, StatField, StatName,
    SummonMethod, TargetedBy, UnaffectedSource, Zone,
};
use super::text::str_eq;

verus! {

/// The source word of a zone.
pub open spec fn spec_zone_name(v: Zone) -> Seq<char> {
    match v {
        Zone::Hand => "hand"@,
        Zone::Field => "field"@,
        Zone::Deck => "deck"@,
        Zone::ExtraDeck => "extra_deck"@,
        Zone::ExtraDeckFaceUp => "extra_deck_face_up"@,
        Zone::Gy => "gy"@,
        Zone::Banished => "banished"@,
        Zone::MonsterZone => "monster_zone"@,
        Zone::SpellTrapZone => "spell_trap_zone"@,
        Zone::FieldZone => "field_zone"@,
        Zone::PendulumZone => "pendulum_zone"@,
        Zone::ExtraMonsterZone => "extra_monster_zone"@,
        Zone::Overlay => "overlay"@,
        Zone::Equipped => "equipped"@,
        Zone::TopOfDeck => "top_of_deck"@,
        Zone::BottomOfDeck => "bottom_of_deck"@,
    }
}

/// The source word of a zone.
pub fn zone_name(v: &Zone) -> (r: &'static str)
    ensures
        r@ == spec_zone_name(*v),
{
    proof {
        reveal_strlit("banished");
        reveal_strlit("bottom_of_deck");
        reveal_strlit("deck");
        reveal_strlit("equipped");
        reveal_strlit("extra_deck");
        reveal_strlit("extra_deck_face_up");
        reveal_strlit("extra_monster_zone");
        reveal_strlit("field");
        reveal_strlit("field_zone");
        reveal_strlit("graveyard");
        reveal_strlit("gy");
        reveal_strlit("hand");
        reveal_strlit("monster_zone");
        reveal_strlit("overlay");
        reveal_strlit("pendulum_zone");
        reveal_strlit("spell_trap_zone");
        reveal_strlit("top_of_deck");
    }
    match v {
        Zone::Hand => "hand",
        Zone::Field => "field",
        Zone::Deck => "deck",
        Zone::ExtraDeck => "extra_deck",
        Zone::ExtraDeckFaceUp => "extra_deck_face_up",
        Zone::Gy => "gy",
        Zone::Banished => "banished",
        Zone::MonsterZone => "monster_zone",
        Zone::SpellTrapZone => "spell_trap_zone",
        Zone::FieldZone => "field_zone",
        Zone::PendulumZone => "pendulum_zone",
        Zone::ExtraMonsterZone => "extra_monster_zone",
        Zone::Overlay => "overlay",
        Zone::Equipped => "equipped",
        Zone::TopOfDeck => "top_of_deck",
        Zone::BottomOfDeck => "bottom_of_deck",
    }
}

/// The Zone a source word names, if any.
pub open spec fn spec_zone_of(w: Seq<char>) -> Option<Zone> {
    if w == "hand"@ {
        Some(Zone::Hand)
    } else if w == "field"@ {
        Some(Zone::Field)
    } else if w == "deck"@ {
        Some(Zone::Deck)
    } else if w == "extra_deck"@ {
        Some(Zone::ExtraDeck)
    } else if w == "extra_deck_face_up"@ {
        Some(Zone::ExtraDeckFaceUp)
    } else if w == "gy"@ {
        Some(Zone::Gy)
    } else if w == "graveyard"@ {
        Some(Zone::Gy)
    } else if w == "banished"@ {
        Some(Zone::Banished)
    } else if w == "monster_zone"@ {
        Some(Zone::MonsterZone)
    } else if w == "spell_trap_zone"@ {
        Some(Zone::SpellTrapZone)
    } else if w == "field_zone"@ {
        Some(Zone::FieldZone)
    } else if w == "pendulum_zone"@ {
        Some(Zone::PendulumZone)
    } else if w == "extra_monster_zone"@ {
        Some(Zone::ExtraMonsterZone)
    } else if w == "overlay"@ {
        Some(Zone::Overlay)
    } else if w == "equipped"@ {
        Some(Zone::Equipped)
    } else if w == "top_of_deck"@ {
        Some(Zone::TopOfDeck)
    } else if w == "bottom_of_deck"@ {
        Some(Zone::BottomOfDeck)
    } else {
        None
    }
}

/// The Zone a source word names, if any.
pub fn zone_of(w: &str) -> (r: Option<Zone>)
    ensures
        r == spec_zone_of(w@),
{
    proof {
        reveal_strlit("banished");
        reveal_strlit("bottom_of_deck");
        reveal_strlit("deck");
        reveal_strlit("equipped");
        reveal_strlit("extra_deck");
        reveal_strlit("extra_deck_face_up");
        reveal_strlit("extra_monster_zone");
        reveal_strlit("field");
        reveal_strlit("field_zone");
        reveal_strlit("graveyard");
        reveal_strlit("gy");
        reveal_strlit("hand");
        reveal_strlit("monster_zone");
        reveal_strlit("overlay");
        reveal_strlit("pendulum_zone");
        reveal_strlit("spell_trap_zone");
        reveal_strlit("top_of_deck");
    }
    if str_eq(w, "hand") {
        Some(Zone::Hand)
    } else if str_eq(w, "field") {
        Some(Zone::Field)
    } else if str_eq(w, "deck") {
        Some(Zone::Deck)
    } else if str_eq(w, "extra_deck") {
        Some(Zone::ExtraDeck)
    } else if str_eq(w, "extra_deck_face_up") {
        Some(Zone::ExtraDeckFaceUp)
    } else if str_eq(w, "gy") {
        Some(Zone::Gy)
    } else if str_eq(w, "graveyard") {
        Some(Zone::Gy)
    } else if str_eq(w, "banished") {
        Some(Zone::Banished)
    } else if str_eq(w, "monster_zone") {
        Some(Zone::MonsterZone)
    } else if str_eq(w, "spell_trap_zone") {
        Some(Zone::SpellTrapZone)
    } else if str_eq(w, "field_zone") {
        Some(Zone::FieldZone)
    } else if str_eq(w, "pendulum_zone") {
        Some(Zone::PendulumZone)
    } else if str_eq(w, "extra_monster_zone") {
        Some(Zone::ExtraMonsterZone)
    } else if str_eq(w, "overlay") {
        Some(Zone::Overlay)
    } else if str_eq(w, "equipped") {
        Some(Zone::Equipped)
    } else if str_eq(w, "top_of_deck") {
        Some(Zone::TopOfDeck)
    } else if str_eq(w, "bottom_of_deck") {
        Some(Zone::BottomOfDeck)
    } else {
        None
    }
}

/// The source word of a card type.
pub open spec fn spec_card_type_name(v: CardType) -> Seq<char> {
    match v {
        CardType::NormalMonster => "Normal Monster"@,
        CardType::EffectMonster => "Effect Monster"@,
        CardType::RitualMonster => "Ritual Monster"@,
        CardType::FusionMonster => "Fusion Monster"@,
        CardType::SynchroMonster => "Synchro Monster"@,
        CardType::XyzMonster => "Xyz Monster"@,
        CardType::LinkMonster => "Link Monster"@,
        CardType::PendulumMonster => "Pendulum Monster"@,
        CardType::Tuner => "Tuner"@,
        CardType::SynchroTuner => "Synchro Tuner"@,
        CardType::Flip => "Flip"@,
        CardType::Gemini => "Gemini"@,
        CardType::Union => "Union"@,
        CardType::Spirit => "Spirit"@,
        CardType::Toon => "Toon"@,
        CardType::NormalSpell => "Normal Spell"@,
        CardType::QuickPlaySpell => "Quick-Play Spell"@,
        CardType::ContinuousSpell => "Continuous Spell"@,
        CardType::EquipSpell => "Equip Spell"@,
        CardType::FieldSpell => "Field Spell"@,
        CardType::RitualSpell => "Ritual Spell"@,
        CardType::NormalTrap => "Normal Trap"@,
        CardType::CounterTrap => "Counter Trap"@,
        CardType::ContinuousTrap => "Continuous Trap"@,
    }
}

/// The source word of a card type.
pub fn card_type_name(v: &CardType) -> (r: &'static str)
    ensures
        r@ == spec_card_type_name(*v),
{
    proof {
        reveal_strlit("Continuous Spell");
        reveal_strlit("Continuous Trap");
        reveal_strlit("Counter Trap");
        reveal_strlit("Effect Monster");
        reveal_strlit("Equip Spell");
        reveal_strlit("Field Spell");
        reveal_strlit("Flip");
        reveal_strlit("Fusion Monster");
        reveal_strlit("Gemini");
        reveal_strlit("Link Monster");
        reveal_strlit("Normal Monster");
        reveal_strlit("Normal Spell");
        reveal_strlit("Normal Trap");
        reveal_strlit("Pendulum Monster");
        reveal_strlit("Quick-Play Spell");
        reveal_strlit("Ritual Monster");
        reveal_strlit("Ritual Spell");
        reveal_strlit("Spirit");
        reveal_strlit("Synchro Monster");
        reveal_strlit("Synchro Tuner");
        reveal_strlit("Toon");
        reveal_strlit("Tuner");
        reveal_strlit("Union");
        reveal_strlit("Xyz Monster");
    }
    match v {
        CardType::NormalMonster => "Normal Monster",
        CardType::EffectMonster => "Effect Monster",
        CardType::RitualMonster => "Ritual Monster",
        CardType::FusionMonster => "Fusion Monster",
        CardType::SynchroMonster => "Synchro Monster",
        CardType::XyzMonster => "Xyz Monster",
        CardType::LinkMonster => "Link Monster",
        CardType::PendulumMonster => "Pendulum Monster",
        CardType::Tuner => "Tuner",
        CardType::SynchroTuner => "Synchro Tuner",
        CardType::Flip => "Flip",
        CardType::Gemini => "Gemini",
        CardType::Union => "Union",
        CardType::Spirit => "Spirit",
        CardType::Toon => "Toon",
        CardType::NormalSpell => "Normal Spell",
        CardType::QuickPlaySpell => "Quick-Play Spell",
        CardType::ContinuousSpell => "Continuous Spell",
        CardType::EquipSpell => "Equip Spell",
        CardType::FieldSpell => "Field Spell",
        CardType::RitualSpell => "Ritual Spell",
        CardType::NormalTrap => "Normal Trap",
        CardType::CounterTrap => "Counter Trap",
        CardType::ContinuousTrap => "Continuous Trap",
    }
}

/// The CardType a source word names, if any.
pub open spec fn spec_card_type_of(w: Seq<char>) -> Option<CardType> {
    if w == "Normal Monster"@ {
        Some(CardType::NormalMonster)
    } else if w == "Effect Monster"@ {
        Some(CardType::EffectMonster)
    } else if w == "Ritual Monster"@ {
        Some(CardType::RitualMonster)
    } else if w == "Fusion Monster"@ {
        Some(CardType::FusionMonster)
    } else if w == "Synchro Monster"@ {
        Some(CardType::SynchroMonster)
    } else if w == "Xyz Monster"@ {
        Some(CardType::XyzMonster)
    } else if w == "Link Monster"@ {
        Some(CardType::LinkMonster)
    } else if w == "Pendulum Monster"@ {
        Some(CardType::PendulumMonster)
    } else if w == "Tuner"@ {
        Some(CardType::Tuner)
    } else if w == "Synchro Tuner"@ {
        Some(CardType::SynchroTuner)
    } else if w == "Flip"@ {
        Some(CardType::Flip)
    } else if w == "Gemini"@ {
        Some(CardType::Gemini)
    } else if w == "Union"@ {
        Some(CardType::Union)
    } else if w == "Spirit"@ {
        Some(CardType::Spirit)
    } else if w == "Toon"@ {
        Some(CardType::Toon)
    } else if w == "Normal Spell"@ {
        Some(CardType::NormalSpell)
    } else if w == "Quick-Play Spell"@ {
        Some(CardType::QuickPlaySpell)
    } else if w == "Continuous Spell"@ {
        Some(CardType::ContinuousSpell)
    } else if w == "Equip Spell"@ {
        Some(CardType::EquipSpell)
    } else if w == "Field Spell"@ {
        Some(CardType::FieldSpell)
    } else if w == "Ritual Spell"@ {
        Some(CardType::RitualSpell)
    } else if w == "Normal Trap"@ {
        Some(CardType::NormalTrap)
    } else if w == "Counter Trap"@ {
        Some(CardType::CounterTrap)
    } else if w == "Continuous Trap"@ {
        Some(CardType::ContinuousTrap)
    } else {
        None
    }
}

/// The CardType a source word names, if any.
pub fn card_type_of(w: &str) -> (r: Option<CardType>)
    ensures
        r == spec_card_type_of(w@),
{
    proof {
        reveal_strlit("Continuous Spell");
        reveal_strlit("Continuous Trap");
        reveal_strlit("Counter Trap");
        reveal_strlit("Effect Monster");
        reveal_strlit("Equip Spell");
        reveal_strlit("Field Spell");
        reveal_strlit("Flip");
        reveal_strlit("Fusion Monster");
        reveal_strlit("Gemini");
        reveal_strlit("Link Monster");
        reveal_strlit("Normal Monster");
        reveal_strlit("Normal Spell");
        reveal_strlit("Normal Trap");
        reveal_strlit("Pendulum Monster");
        reveal_strlit("Quick-Play Spell");
        reveal_strlit("Ritual Monster");
        reveal_strlit("Ritual Spell");
        reveal_strlit("Spirit");
        reveal_strlit("Synchro Monster");
        reveal_strlit("Synchro Tuner");
        reveal_strlit("Toon");
        reveal_strlit("Tuner");
        reveal_strlit("Union");
        reveal_strlit("Xyz Monster");
    }
    if str_eq(w, "Normal Monster") {
        Some(CardType::NormalMonster)
    } else if str_eq(w, "Effect Monster") {
        Some(CardType::EffectMonster)
    } else if str_eq(w, "Ritual Monster") {
        Some(CardType::RitualMonster)
    } else if str_eq(w, "Fusion Monster") {
        Some(CardType::FusionMonster)
    } else if str_eq(w, "Synchro Monster") {
        Some(CardType::SynchroMonster)
    } else if str_eq(w, "Xyz Monster") {
        Some(CardType::XyzMonster)
    } else if str_eq(w, "Link Monster") {
        Some(CardType::LinkMonster)
    } else if str_eq(w, "Pendulum Monster") {
        Some(CardType::PendulumMonster)
    } else if str_eq(w, "Tuner") {
        Some(CardType::Tuner)
    } else if str_eq(w, "Synchro Tuner") {
        Some(CardType::SynchroTuner)
    } else if str_eq(w, "Flip") {
        Some(CardType::Flip)
    } else if str_eq(w, "Gemini") {
        Some(CardType::Gemini)
    } else if str_eq(w, "Union") {
        Some(CardType::Union)
    } else if str_eq(w, "Spirit") {
        Some(CardType::Spirit)
    } else if str_eq(w, "Toon") {
        Some(CardType::Toon)
    } else if str_eq(w, "Normal Spell") {
        Some(CardType::NormalSpell)
    } else if str_eq(w, "Quick-Play Spell") {
        Some(CardType::QuickPlaySpell)
    } else if str_eq(w, "Continuous Spell") {
        Some(CardType::ContinuousSpell)
    } else if str_eq(w, "Equip Spell") {
        Some(CardType::EquipSpell)
    } else if str_eq(w, "Field Spell") {
        Some(CardType::FieldSpell)
    } else if str_eq(w, "Ritual Spell") {
        Some(CardType::RitualSpell)
    } else if str_eq(w, "Normal Trap") {
        Some(CardType::NormalTrap)
    } else if str_eq(w, "Counter Trap") {
        Some(CardType::CounterTrap)
    } else if str_eq(w, "Continuous Trap") {
        Some(CardType::ContinuousTrap)
    } else {
        None
    }
}

/// The source word of an attribute.
pub open spec fn spec_attribute_name(v: Attribute) -> Seq<char> {
    match v {
        Attribute::Light => "LIGHT"@,
        Attribute::Dark => "DARK"@,
        Attribute::Fire => "FIRE"@,
        Attribute::Water => "WATER"@,
        Attribute::Earth => "EARTH"@,
        Attribute::Wind => "WIND"@,
        Attribute::Divine => "DIVINE"@,
    }
}

/// The source word of an attribute.
pub fn attribute_name(v: &Attribute) -> (r: &'static str)
    ensures
        r@ == spec_attribute_name(*v),
{
    proof {
        reveal_strlit("DARK");
        reveal_strlit("DIVINE");
        reveal_strlit("EARTH");
        reveal_strlit("FIRE");
        reveal_strlit("LIGHT");
        reveal_strlit("WATER");
        reveal_strlit("WIND");
    }
    match v {
        Attribute::Light => "LIGHT",
        Attribute::Dark => "DARK",
        Attribute::Fire => "FIRE",
        Attribute::Water => "WATER",
        Attribute::Earth => "EARTH",
        Attribute::Wind => "WIND",
        Attribute::Divine => "DIVINE",
    }
}

/// The Attribute a source word names, if any.
pub open spec fn spec_attribute_of(w: Seq<char>) -> Option<Attribute> {
    if w == "LIGHT"@ {
        Some(Attribute::Light)
    } else if w == "DARK"@ {
        Some(Attribute::Dark)
    } else if w == "FIRE"@ {
        Some(Attribute::Fire)
    } else if w == "WATER"@ {
        Some(Attribute::Water)
    } else if w == "EARTH"@ {
        Some(Attribute::Earth)
    } else if w == "WIND"@ {
        Some(Attribute::Wind)
    } else if w == "DIVINE"@ {
        Some(Attribute::Divine)
    } else {
        None
    }
}

/// The Attribute a source word names, if any.
pub fn attribute_of(w: &str) -> (r: Option<Attribute>)
    ensures
        r == spec_attribute_of(w@),
{
    proof {
        reveal_strlit("DARK");
        reveal_strlit("DIVINE");
        reveal_strlit("EARTH");
        reveal_strlit("FIRE");
        reveal_strlit("LIGHT");
        reveal_strlit("WATER");
        reveal_strlit("WIND");
    }
    if str_eq(w, "LIGHT") {
        Some(Attribute::Light)
    } else if str_eq(w, "DARK") {
        Some(Attribute::Dark)
    } else if str_eq(w, "FIRE") {
        Some(Attribute::Fire)
    } else if str_eq(w, "WATER") {
        Some(Attribute::Water)
    } else if str_eq(w, "EARTH") {
        Some(Attribute::Earth)
    } else if str_eq(w, "WIND") {
        Some(Attribute::Wind)
    } else if str_eq(w, "DIVINE") {
        Some(Attribute::Divine)
    } else {
        None
    }
}

/// The source word of a race.
pub open spec fn spec_race_name(v: Race) -> Seq<char> {
    match v {
        Race::Dragon => "Dragon"@,
        Race::Spellcaster => "Spellcaster"@,
        Race::Zombie => "Zombie"@,
        Race::Warrior => "Warrior"@,
        Race::BeastWarrior => "Beast-Warrior"@,
        Race::Beast => "Beast"@,
        Race::WingedBeast => "Winged Beast"@,
        Race::Fiend => "Fiend"@,
        Race::Fairy => "Fairy"@,
        Race::Insect => "Insect"@,
        Race::Dinosaur => "Dinosaur"@,
        Race::Reptile => "Reptile"@,
        Race::Fish => "Fish"@,
        Race::SeaSerpent => "Sea Serpent"@,
        Race::Aqua => "Aqua"@,
        Race::Pyro => "Pyro"@,
        Race::Thunder => "Thunder"@,
        Race::Rock => "Rock"@,
        Race::Plant => "Plant"@,
        Race::Machine => "Machine"@,
        Race::Psychic => "Psychic"@,
        Race::DivineBeast => "Divine-Beast"@,
        Race::Wyrm => "Wyrm"@,
        Race::Cyberse => "Cyberse"@,
        Race::Illusion => "Illusion"@,
    }
}

/// The source word of a race.
pub fn race_name(v: &Race) -> (r: &'static str)
    ensures
        r@ == spec_race_name(*v),
{
    proof {
        reveal_strlit("Aqua");
        reveal_strlit("Beast");
        reveal_strlit("Beast-Warrior");
        reveal_strlit("Cyberse");
        reveal_strlit("Dinosaur");
        reveal_strlit("Divine-Beast");
        reveal_strlit("Dragon");
        reveal_strlit("Fairy");
        reveal_strlit("Fiend");
        reveal_strlit("Fish");
        reveal_strlit("Illusion");
        reveal_strlit("Insect");
        reveal_strlit("Machine");
        reveal_strlit("Plant");
        reveal_strlit("Psychic");
        reveal_strlit("Pyro");
        reveal_strlit("Reptile");
        reveal_strlit("Rock");
        reveal_strlit("Sea Serpent");
        reveal_strlit("Spellcaster");
        reveal_strlit("Thunder");
        reveal_strlit("Warrior");
        reveal_strlit("Winged Beast");
        reveal_strlit("Wyrm");
        reveal_strlit("Zombie");
    }
    match v {
        Race::Dragon => "Dragon",
        Race::Spellcaster => "Spellcaster",
        Race::Zombie => "Zombie",
        Race::Warrior => "Warrior",
        Race::BeastWarrior => "Beast-Warrior",
        Race::Beast => "Beast",
        Race::WingedBeast => "Winged Beast",
        Race::Fiend => "Fiend",
        Race::Fairy => "Fairy",
        Race::Insect => "Insect",
        Race::Dinosaur => "Dinosaur",
        Race::Reptile => "Reptile",
        Race::Fish => "Fish",
        Race::SeaSerpent => "Sea Serpent",
        Race::Aqua => "Aqua",
        Race::Pyro => "Pyro",
        Race::Thunder => "Thunder",
        Race::Rock => "Rock",
        Race::Plant => "Plant",
        Race::Machine => "Machine",
        Race::Psychic => "Psychic",
        Race::DivineBeast => "Divine-Beast",
        Race::Wyrm => "Wyrm",
        Race::Cyberse => "Cyberse",
        Race::Illusion => "Illusion",
    }
}

/// The Race a source word names, if any.
pub open spec fn spec_race_of(w: Seq<char>) -> Option<Race> {
    if w == "Dragon"@ {
        Some(Race::Dragon)
    } else if w == "Spellcaster"@ {
        Some(Race::Spellcaster)
    } else if w == "Zombie"@ {
        Some(Race::Zombie)
    } else if w == "Warrior"@ {
        Some(Race::Warrior)
    } else if w == "Beast-Warrior"@ {
        Some(Race::BeastWarrior)
    } else if w == "Beast"@ {
        Some(Race::Beast)
    } else if w == "Winged Beast"@ {
        Some(Race::WingedBeast)
    } else if w == "Fiend"@ {
        Some(Race::Fiend)
    } else if w == "Fairy"@ {
        Some(Race::Fairy)
    } else if w == "Insect"@ {
        Some(Race::Insect)
    } else if w == "Dinosaur"@ {
        Some(Race::Dinosaur)
    } else if w == "Reptile"@ {
        Some(Race::Reptile)
    } else if w == "Fish"@ {
        Some(Race::Fish)
    } else if w == "Sea Serpent"@ {
        Some(Race::SeaSerpent)
    } else if w == "Aqua"@ {
        Some(Race::Aqua)
    } else if w == "Pyro"@ {
        Some(Race::Pyro)
    } else if w == "Thunder"@ {
        Some(Race::Thunder)
    } else if w == "Rock"@ {
        Some(Race::Rock)
    } else if w == "Plant"@ {
        Some(Race::Plant)
    } else if w == "Machine"@ {
        Some(Race::Machine)
    } else if w == "Psychic"@ {
        Some(Race::Psychic)
    } else if w == "Divine-Beast"@ {
        Some(Race::DivineBeast)
    } else if w == "Wyrm"@ {
        Some(Race::Wyrm)
    } else if w == "Cyberse"@ {
        Some(Race::Cyberse)
    } else if w == "Illusion"@ {
        Some(Race::Illusion)
    } else {
        None
    }
}

/// The Race a source word names, if any.
pub fn race_of(w: &str) -> (r: Option<Race>)
    ensures
        r == spec_race_of(w@),
{
    proof {
        reveal_strlit("Aqua");
        reveal_strlit("Beast");
        reveal_strlit("Beast-Warrior");
        reveal_strlit("Cyberse");
        reveal_strlit("Dinosaur");
        reveal_strlit("Divine-Beast");
        reveal_strlit("Dragon");
        reveal_strlit("Fairy");
        reveal_strlit("Fiend");
        reveal_strlit("Fish");
        reveal_strlit("Illusion");
        reveal_strlit("Insect");
        reveal_strlit("Machine");
        reveal_strlit("Plant");
        reveal_strlit("Psychic");
        reveal_strlit("Pyro");
        reveal_strlit("Reptile");
        reveal_strlit("Rock");
        reveal_strlit("Sea Serpent");
        reveal_strlit("Spellcaster");
        reveal_strlit("Thunder");
        reveal_strlit("Warrior");
        reveal_strlit("Winged Beast");
        reveal_strlit("Wyrm");
        reveal_strlit("Zombie");
    }
    if str_eq(w, "Dragon") {
        Some(Race::Dragon)
    } else if str_eq(w, "Spellcaster") {
        Some(Race::Spellcaster)
    } else if str_eq(w, "Zombie") {
        Some(Race::Zombie)
    } else if str_eq(w, "Warrior") {
        Some(Race::Warrior)
    } else if str_eq(w, "Beast-Warrior") {
        Some(Race::BeastWarrior)
    } else if str_eq(w, "Beast") {
        Some(Race::Beast)
    } else if str_eq(w, "Winged Beast") {
        Some(Race::WingedBeast)
    } else if str_eq(w, "Fiend") {
        Some(Race::Fiend)
    } else if str_eq(w, "Fairy") {
        Some(Race::Fairy)
    } else if str_eq(w, "Insect") {
        Some(Race::Insect)
    } else if str_eq(w, "Dinosaur") {
        Some(Race::Dinosaur)
    } else if str_eq(w, "Reptile") {
        Some(Race::Reptile)
    } else if str_eq(w, "Fish") {
        Some(Race::Fish)
    } else if str_eq(w, "Sea Serpent") {
        Some(Race::SeaSerpent)
    } else if str_eq(w, "Aqua") {
        Some(Race::Aqua)
    } else if str_eq(w, "Pyro") {
        Some(Race::Pyro)
    } else if str_eq(w, "Thunder") {
        Some(Race::Thunder)
    } else if str_eq(w, "Rock") {
        Some(Race::Rock)
    } else if str_eq(w, "Plant") {
        Some(Race::Plant)
    } else if str_eq(w, "Machine") {
        Some(Race::Machine)
    } else if str_eq(w, "Psychic") {
        Some(Race::Psychic)
    } else if str_eq(w, "Divine-Beast") {
        Some(Race::DivineBeast)
    } else if str_eq(w, "Wyrm") {
        Some(Race::Wyrm)
    } else if str_eq(w, "Cyberse") {
        Some(Race::Cyberse)
    } else if str_eq(w, "Illusion") {
        Some(Race::Illusion)
    } else {
        None
    }
}

/// The source word of a link arrow.
pub open spec fn spec_arrow_name(v: Arrow) -> Seq<char> {
    match v {
        Arrow::TopLeft => "top_left"@,
        Arrow::Top => "top"@,
        Arrow::TopRight => "top_right"@,
        Arrow::Left => "left"@,
        Arrow::Right => "right"@,
        Arrow::BottomLeft => "bottom_left"@,
        Arrow::Bottom => "bottom"@,
        Arrow::BottomRight => "bottom_right"@,
    }
}

/// The source word of a link arrow.
pub fn arrow_name(v: &Arrow) -> (r: &'static str)
    ensures
        r@ == spec_arrow_name(*v),
{
    proof {
        reveal_strlit("bottom");
        reveal_strlit("bottom_left");
        reveal_strlit("bottom_right");
        reveal_strlit("left");
        reveal_strlit("right");
        reveal_strlit("top");
        reveal_strlit("top_left");
        reveal_strlit("top_right");
    }
    match v {
        Arrow::TopLeft => "top_left",
        Arrow::Top => "top",
        Arrow::TopRight => "top_right",
        Arrow::Left => "left",
        Arrow::Right => "right",
        Arrow::BottomLeft => "bottom_left",
        Arrow::Bottom => "bottom",
        Arrow::BottomRight => "bottom_right",
    }
}

/// The Arrow a source word names, if any.
pub open spec fn spec_arrow_of(w: Seq<char>) -> Option<Arrow> {
    if w == "top_left"@ {
        Some(Arrow::TopLeft)
    } else if w == "top"@ {
        Some(Arrow::Top)
    } else if w == "top_right"@ {
        Some(Arrow::TopRight)
    } else if w == "left"@ {
        Some(Arrow::Left)
    } else if w == "right"@ {
        Some(Arrow::Right)
    } else if w == "bottom_left"@ {
        Some(Arrow::BottomLeft)
    } else if w == "bottom"@ {
        Some(Arrow::Bottom)
    } else if w == "bottom_right"@ {
        Some(Arrow::BottomRight)
    } else {
        None
    }
}

/// The Arrow a source word names, if any.
pub fn arrow_of(w: &str) -> (r: Option<Arrow>)
    ensures
        r == spec_arrow_of(w@),
{
    proof {
        reveal_strlit("bottom");
        reveal_strlit("bottom_left");
        reveal_strlit("bottom_right");
        reveal_strlit("left");
        reveal_strlit("right");
        reveal_strlit("top");
        reveal_strlit("top_left");
        reveal_strlit("top_right");
    }
    if str_eq(w, "top_left") {
        Some(Arrow::TopLeft)
    } else if str_eq(w, "top") {
        Some(Arrow::Top)
    } else if str_eq(w, "top_right") {
        Some(Arrow::TopRight)
    } else if str_eq(w, "left") {
        Some(Arrow::Left)
    } else if str_eq(w, "right") {
        Some(Arrow::Right)
    } else if str_eq(w, "bottom_left") {
        Some(Arrow::BottomLeft)
    } else if str_eq(w, "bottom") {
        Some(Arrow::Bottom)
    } else if str_eq(w, "bottom_right") {
        Some(Arrow::BottomRight)
    } else {
        None
    }
}

/// The Duration a source word names, if any.
pub open spec fn spec_duration_word_of(w: Seq<char>) -> Option<Duration> {
    if w == "this_turn"@ {
        Some(Duration::ThisTurn)
    } else if w == "end_of_turn"@ {
        Some(Duration::EndOfTurn)
    } else if w == "end_phase"@ {
        Some(Duration::EndPhase)
    } else if w == "end_of_damage_step"@ {
        Some(Duration::EndOfDamageStep)
    } else if w == "next_standby_phase"@ {
        Some(Duration::NextStandbyPhase)
    } else if w == "while_on_field"@ {
        Some(Duration::WhileOnField)
    } else if w == "while_face_up"@ {
        Some(Duration::WhileFaceUp)
    } else if w == "permanently"@ {
        Some(Duration::Permanently)
    } else {
        None
    }
}

/// The Duration a source word names, if any.
pub fn duration_word_of(w: &str) -> (r: Option<Duration>)
    ensures
        r == spec_duration_word_of(w@),
{
    proof {
        reveal_strlit("end_of_damage_step");
        reveal_strlit("end_of_turn");
        reveal_strlit("end_phase");
        reveal_strlit("next_standby_phase");
        reveal_strlit("permanently");
        reveal_strlit("this_turn");
        reveal_strlit("while_face_up");
        reveal_strlit("while_on_field");
    }
    if str_eq(w, "this_turn") {
        Some(Duration::ThisTurn)
    } else if str_eq(w, "end_of_turn") {
        Some(Duration::EndOfTurn)
    } else if str_eq(w, "end_phase") {
        Some(Duration::EndPhase)
    } else if str_eq(w, "end_of_damage_step") {
        Some(Duration::EndOfDamageStep)
    } else if str_eq(w, "next_standby_phase") {
        Some(Duration::NextStandbyPhase)
    } else if str_eq(w, "while_on_field") {
        Some(Duration::WhileOnField)
    } else if str_eq(w, "while_face_up") {
        Some(Duration::WhileFaceUp)
    } else if str_eq(w, "permanently") {
        Some(Duration::Permanently)
    } else {
        None
    }
}

/// The source word of a battle position.
pub open spec fn spec_battle_position_name(v: BattlePosition) -> Seq<char> {
    match v {
        BattlePosition::Attack => "attack_position"@,
        BattlePosition::Defense => "defense_position"@,
        BattlePosition::FaceDownDefense => "face_down_defense"@,
    }
}

/// The source word of a battle position.
pub fn battle_position_name(v: &BattlePosition) -> (r: &'static str)
    ensures
        r@ == spec_battle_position_name(*v),
{
    proof {
        reveal_strlit("attack_position");
        reveal_strlit("defense_position");
        reveal_strlit("face_down_defense");
    }
    match v {
        BattlePosition::Attack => "attack_position",
        BattlePosition::Defense => "defense_position",
        BattlePosition::FaceDownDefense => "face_down_defense",
    }
}

/// The BattlePosition a source word names, if any.
pub open spec fn spec_battle_position_of(w: Seq<char>) -> Option<BattlePosition> {
    if w == "attack_position"@ {
        Some(BattlePosition::Attack)
    } else if w == "defense_position"@ {
        Some(BattlePosition::Defense)
    } else if w == "face_down_defense"@ {
        Some(BattlePosition::FaceDownDefense)
    } else {
        None
    }
}

/// The BattlePosition a source word names, if any.
pub fn battle_position_of(w: &str) -> (r: Option<BattlePosition>)
    ensures
        r == spec_battle_position_of(w@),
{
    proof {
        reveal_strlit("attack_position");
        reveal_strlit("defense_position");
        reveal_strlit("face_down_defense");
    }
    if str_eq(w, "attack_position") {
        Some(BattlePosition::Attack)
    } else if str_eq(w, "defense_position") {
        Some(BattlePosition::Defense)
    } else if str_eq(w, "face_down_defense") {
        Some(BattlePosition::FaceDownDefense)
    } else {
        None
    }
}

/// The source word of a summoning field.
pub open spec fn spec_field_target_name(v: FieldTarget) -> Seq<char> {
    match v {
        FieldTarget::YourField => "your_field"@,
        FieldTarget::OpponentField => "opponent_field"@,
        FieldTarget::EitherField => "either_field"@,
    }
}

/// The source word of a summoning field.
pub fn field_target_name(v: &FieldTarget) -> (r: &'static str)
    ensures
        r@ == spec_field_target_name(*v),
{
    proof {
        reveal_strlit("either_field");
        reveal_strlit("opponent_field");
        reveal_strlit("your_field");
    }
    match v {
        FieldTarget::YourField => "your_field",
        FieldTarget::OpponentField => "opponent_field",
        FieldTarget::EitherField => "either_field",
    }
}

/// The FieldTarget a source word names, if any.
pub open spec fn spec_field_target_of(w: Seq<char>) -> Option<FieldTarget> {
    if w == "your_field"@ {
        Some(FieldTarget::YourField)
    } else if w == "opponent_field"@ {
        Some(FieldTarget::OpponentField)
    } else if w == "either_field"@ {
        Some(FieldTarget::EitherField)
    } else {
        None
    }
}

/// The FieldTarget a source word names, if any.
pub fn field_target_of(w: &str) -> (r: Option<FieldTarget>)
    ensures
        r == spec_field_target_of(w@),
{
    proof {
        reveal_strlit("either_field");
        reveal_strlit("opponent_field");
        reveal_strlit("your_field");
    }
    if str_eq(w, "your_field") {
        Some(FieldTarget::YourField)
    } else if str_eq(w, "opponent_field") {
        Some(FieldTarget::OpponentField)
    } else if str_eq(w, "either_field") {
        Some(FieldTarget::EitherField)
    } else {
        None
    }
}

/// The source word of a player.
pub open spec fn spec_player_who_name(v: PlayerWho) -> Seq<char> {
    match v {
        PlayerWho::You => "you"@,
        PlayerWho::Opponent => "opponent"@,
        PlayerWho::Controller => "controller"@,
        PlayerWho::Owner => "owner"@,
        PlayerWho::Summoner => "summoner"@,
        PlayerWho::Both => "both"@,
    }
}

/// The source word of a player.
pub fn player_who_name(v: &PlayerWho) -> (r: &'static str)
    ensures
        r@ == spec_player_who_name(*v),
{
    proof {
        reveal_strlit("both");
        reveal_strlit("controller");
        reveal_strlit("opponent");
        reveal_strlit("owner");
        reveal_strlit("summoner");
        reveal_strlit("you");
    }
    match v {
        PlayerWho::You => "you",
        PlayerWho::Opponent => "opponent",
        PlayerWho::Controller => "controller",
        PlayerWho::Owner => "owner",
        PlayerWho::Summoner => "summoner",
        PlayerWho::Both => "both",
    }
}

/// The PlayerWho a source word names, if any.
pub open spec fn spec_player_who_of(w: Seq<char>) -> Option<PlayerWho> {
    if w == "you"@ {
        Some(PlayerWho::You)
    } else if w == "opponent"@ {
        Some(PlayerWho::Opponent)
    } else if w == "controller"@ {
        Some(PlayerWho::Controller)
    } else if w == "owner"@ {
        Some(PlayerWho::Owner)
    } else if w == "summoner"@ {
        Some(PlayerWho::Summoner)
    } else if w == "both"@ {
        Some(PlayerWho::Both)
    } else {
        None
    }
}

/// The PlayerWho a source word names, if any.
pub fn player_who_of(w: &str) -> (r: Option<PlayerWho>)
    ensures
        r == spec_player_who_of(w@),
{
    proof {
        reveal_strlit("both");
        reveal_strlit("controller");
        reveal_strlit("opponent");
        reveal_strlit("owner");
        reveal_strlit("summoner");
        reveal_strlit("you");
    }
    if str_eq(w, "you") {
        Some(PlayerWho::You)
    } else if str_eq(w, "opponent") {
        Some(PlayerWho::Opponent)
    } else if str_eq(w, "controller") {
        Some(PlayerWho::Controller)
    } else if str_eq(w, "owner") {
        Some(PlayerWho::Owner)
    } else if str_eq(w, "summoner") {
        Some(PlayerWho::Summoner)
    } else if str_eq(w, "both") {
        Some(PlayerWho::Both)
    } else {
        None
    }
}

/// The source word of a stat field.
pub open spec fn spec_stat_field_name(v: StatField) -> Seq<char> {
    match v {
        StatField::Atk => "atk"@,
        StatField::Def => "def"@,
        StatField::Level => "level"@,
        StatField::Rank => "rank"@,
        StatField::Link => "link"@,
        StatField::Scale => "scale"@,
        StatField::BaseAtk => "base_atk"@,
        StatField::BaseDef => "base_def"@,
        StatField::OriginalAtk => "original_atk"@,
        StatField::OriginalDef => "original_def"@,
    }
}

/// The source word of a stat field.
pub fn stat_field_name(v: &StatField) -> (r: &'static str)
    ensures
        r@ == spec_stat_field_name(*v),
{
    proof {
        reveal_strlit("atk");
        reveal_strlit("base_atk");
        reveal_strlit("base_def");
        reveal_strlit("def");
        reveal_strlit("level");
        reveal_strlit("link");
        reveal_strlit("original_atk");
        reveal_strlit("original_def");
        reveal_strlit("rank");
        reveal_strlit("scale");
    }
    match v {
        StatField::Atk => "atk",
        StatField::Def => "def",
        StatField::Level => "level",
        StatField::Rank => "rank",
        StatField::Link => "link",
        StatField::Scale => "scale",
        StatField::BaseAtk => "base_atk",
        StatField::BaseDef => "base_def",
        StatField::OriginalAtk => "original_atk",
        StatField::OriginalDef => "original_def",
    }
}

/// The StatField a source word names, if any.
pub open spec fn spec_stat_field_of(w: Seq<char>) -> Option<StatField> {
    if w == "atk"@ {
        Some(StatField::Atk)
    } else if w == "def"@ {
        Some(StatField::Def)
    } else if w == "level"@ {
        Some(StatField::Level)
    } else if w == "rank"@ {
        Some(StatField::Rank)
    } else if w == "link"@ {
        Some(StatField::Link)
    } else if w == "scale"@ {
        Some(StatField::Scale)
    } else if w == "base_atk"@ {
        Some(StatField::BaseAtk)
    } else if w == "base_def"@ {
        Some(StatField::BaseDef)
    } else if w == "original_atk"@ {
        Some(StatField::OriginalAtk)
    } else if w == "original_def"@ {
        Some(StatField::OriginalDef)
    } else {
        None
    }
}

/// The StatField a source word names, if any.
pub fn stat_field_of(w: &str) -> (r: Option<StatField>)
    ensures
        r == spec_stat_field_of(w@),
{
    proof {
        reveal_strlit("atk");
        reveal_strlit("base_atk");
        reveal_strlit("base_def");
        reveal_strlit("def");
        reveal_strlit("level");
        reveal_strlit("link");
        reveal_strlit("original_atk");
        reveal_strlit("original_def");
        reveal_strlit("rank");
        reveal_strlit("scale");
    }
    if str_eq(w, "atk") {
        Some(StatField::Atk)
    } else if str_eq(w, "def") {
        Some(StatField::Def)
    } else if str_eq(w, "level") {
        Some(StatField::Level)
    } else if str_eq(w, "rank") {
        Some(StatField::Rank)
    } else if str_eq(w, "link") {
        Some(StatField::Link)
    } else if str_eq(w, "scale") {
        Some(StatField::Scale)
    } else if str_eq(w, "base_atk") {
        Some(StatField::BaseAtk)
    } else if str_eq(w, "base_def") {
        Some(StatField::BaseDef)
    } else if str_eq(w, "original_atk") {
        Some(StatField::OriginalAtk)
    } else if str_eq(w, "original_def") {
        Some(StatField::OriginalDef)
    } else {
        None
    }
}

/// The source word of a modifiable stat.
pub open spec fn spec_stat_name_name(v: StatName) -> Seq<char> {
    match v {
        StatName::Atk => "atk"@,
        StatName::Def => "def"@,
    }
}

/// The source word of a modifiable stat.
pub fn stat_name_name(v: &StatName) -> (r: &'static str)
    ensures
        r@ == spec_stat_name_name(*v),
{
    proof {
        reveal_strlit("atk");
        reveal_strlit("def");
    }
    match v {
        StatName::Atk => "atk",
        StatName::Def => "def",
    }
}

/// The StatName a source word names, if any.
pub open spec fn spec_stat_name_of(w: Seq<char>) -> Option<StatName> {
    if w == "atk"@ {
        Some(StatName::Atk)
    } else if w == "def"@ {
        Some(StatName::Def)
    } else {
        None
    }
}

/// The StatName a source word names, if any.
pub fn stat_name_of(w: &str) -> (r: Option<StatName>)
    ensures
        r == spec_stat_name_of(w@),
{
    proof {
        reveal_strlit("atk");
        reveal_strlit("def");
    }
    if str_eq(w, "atk") {
        Some(StatName::Atk)
    } else if str_eq(w, "def") {
        Some(StatName::Def)
    } else {
        None
    }
}

/// The source word of a comparison.
pub open spec fn spec_compare_op_name(v: CompareOp) -> Seq<char> {
    match v {
        CompareOp::Gte => ">="@,
        CompareOp::Lte => "<="@,
        CompareOp::Eq => "=="@,
        CompareOp::Neq => "!="@,
        CompareOp::Gt => ">"@,
        CompareOp::Lt => "<"@,
    }
}

/// The source word of a comparison.
pub fn compare_op_name(v: &CompareOp) -> (r: &'static str)
    ensures
        r@ == spec_compare_op_name(*v),
{
    proof {
        reveal_strlit("!=");
        reveal_strlit("<");
        reveal_strlit("<=");
        reveal_strlit("==");
        reveal_strlit(">");
        reveal_strlit(">=");
    }
    match v {
        CompareOp::Gte => ">=",
        CompareOp::Lte => "<=",
        CompareOp::Eq => "==",
        CompareOp::Neq => "!=",
        CompareOp::Gt => ">",
        CompareOp::Lt => "<",
    }
}

/// The CompareOp a source word names, if any.
pub open spec fn spec_compare_op_of(w: Seq<char>) -> Option<CompareOp> {
    if w == ">="@ {
        Some(CompareOp::Gte)
    } else if w == "<="@ {
        Some(CompareOp::Lte)
    } else if w == "=="@ {
        Some(CompareOp::Eq)
    } else if w == "!="@ {
        Some(CompareOp::Neq)
    } else if w == ">"@ {
        Some(CompareOp::Gt)
    } else if w == "<"@ {
        Some(CompareOp::Lt)
    } else {
        None
    }
}

/// The CompareOp a source word names, if any.
pub fn compare_op_of(w: &str) -> (r: Option<CompareOp>)
    ensures
        r == spec_compare_op_of(w@),
{
    proof {
        reveal_strlit("!=");
        reveal_strlit("<");
        reveal_strlit("<=");
        reveal_strlit("==");
        reveal_strlit(">");
        reveal_strlit(">=");
    }
    if str_eq(w, ">=") {
        Some(CompareOp::Gte)
    } else if str_eq(w, "<=") {
        Some(CompareOp::Lte)
    } else if str_eq(w, "==") {
        Some(CompareOp::Eq)
    } else if str_eq(w, "!=") {
        Some(CompareOp::Neq)
    } else if str_eq(w, ">") {
        Some(CompareOp::Gt)
    } else if str_eq(w, "<") {
        Some(CompareOp::Lt)
    } else {
        None
    }
}

/// The source word of an arithmetic operator.
pub open spec fn spec_bin_op_name(v: BinOp) -> Seq<char> {
    match v {
        BinOp::Add => "+"@,
        BinOp::Sub => "-"@,
        BinOp::Mul => "*"@,
        BinOp::Div => "/"@,
    }
}

/// The source word of an arithmetic operator.
pub fn bin_op_name(v: &BinOp) -> (r: &'static str)
    ensures
        r@ == spec_bin_op_name(*v),
{
    proof {
        reveal_strlit("*");
        reveal_strlit("+");
        reveal_strlit("-");
        reveal_strlit("/");
    }
    match v {
        BinOp::Add => "+",
        BinOp::Sub => "-",
        BinOp::Mul => "*",
        BinOp::Div => "/",
    }
}

/// The BinOp a source word names, if any.
pub open spec fn spec_bin_op_of(w: Seq<char>) -> Option<BinOp> {
    if w == "+"@ {
        Some(BinOp::Add)
    } else if w == "-"@ {
        Some(BinOp::Sub)
    } else if w == "*"@ {
        Some(BinOp::Mul)
    } else if w == "/"@ {
        Some(BinOp::Div)
    } else {
        None
    }
}

/// The BinOp a source word names, if any.
pub fn bin_op_of(w: &str) -> (r: Option<BinOp>)
    ensures
        r == spec_bin_op_of(w@),
{
    proof {
        reveal_strlit("*");
        reveal_strlit("+");
        reveal_strlit("-");
        reveal_strlit("/");
    }
    if str_eq(w, "+") {
        Some(BinOp::Add)
    } else if str_eq(w, "-") {
        Some(BinOp::Sub)
    } else if str_eq(w, "*") {
        Some(BinOp::Mul)
    } else if str_eq(w, "/") {
        Some(BinOp::Div)
    } else {
        None
    }
}

/// The source word of a card state.
pub open spec fn spec_card_state_name(v: CardState) -> Seq<char> {
    match v {
        CardState::SummonedThisTurn => "summoned_this_turn"@,
        CardState::AttackedThisTurn => "attacked_this_turn"@,
        CardState::FlippedThisTurn => "flipped_this_turn"@,
        CardState::ActivatedThisTurn => "activated_this_turn"@,
        CardState::FaceUp => "face_up"@,
        CardState::FaceDown => "face_down"@,
        CardState::InAttackPosition => "in_attack_position"@,
        CardState::InDefensePosition => "in_defense_position"@,
    }
}

/// The source word of a card state.
pub fn card_state_name(v: &CardState) -> (r: &'static str)
    ensures
        r@ == spec_card_state_name(*v),
{
    proof {
        reveal_strlit("activated_this_turn");
        reveal_strlit("attacked_this_turn");
        reveal_strlit("face_down");
        reveal_strlit("face_up");
        reveal_strlit("flipped_this_turn");
        reveal_strlit("in_attack_position");
        reveal_strlit("in_defense_position");
        reveal_strlit("summoned_this_turn");
    }
    match v {
        CardState::SummonedThisTurn => "summoned_this_turn",
        CardState::AttackedThisTurn => "attacked_this_turn",
        CardState::FlippedThisTurn => "flipped_this_turn",
        CardState::ActivatedThisTurn => "activated_this_turn",
        CardState::FaceUp => "face_up",
        CardState::FaceDown => "face_down",
        CardState::InAttackPosition => "in_attack_position",
        CardState::InDefensePosition => "in_defense_position",
    }
}

/// The CardState a source word names, if any.
pub open spec fn spec_card_state_of(w: Seq<char>) -> Option<CardState> {
    if w == "summoned_this_turn"@ {
        Some(CardState::SummonedThisTurn)
    } else if w == "attacked_this_turn"@ {
        Some(CardState::AttackedThisTurn)
    } else if w == "flipped_this_turn"@ {
        Some(CardState::FlippedThisTurn)
    } else if w == "activated_this_turn"@ {
        Some(CardState::ActivatedThisTurn)
    } else if w == "face_up"@ {
        Some(CardState::FaceUp)
    } else if w == "face_down"@ {
        Some(CardState::FaceDown)
    } else if w == "in_attack_position"@ {
        Some(CardState::InAttackPosition)
    } else if w == "in_defense_position"@ {
        Some(CardState::InDefensePosition)
    } else {
        None
    }
}

/// The CardState a source word names, if any.
pub fn card_state_of(w: &str) -> (r: Option<CardState>)
    ensures
        r == spec_card_state_of(w@),
{
    proof {
        reveal_strlit("activated_this_turn");
        reveal_strlit("attacked_this_turn");
        reveal_strlit("face_down");
        reveal_strlit("face_up");
        reveal_strlit("flipped_this_turn");
        reveal_strlit("in_attack_position");
        reveal_strlit("in_defense_position");
        reveal_strlit("summoned_this_turn");
    }
    if str_eq(w, "summoned_this_turn") {
        Some(CardState::SummonedThisTurn)
    } else if str_eq(w, "attacked_this_turn") {
        Some(CardState::AttackedThisTurn)
    } else if str_eq(w, "flipped_this_turn") {
        Some(CardState::FlippedThisTurn)
    } else if str_eq(w, "activated_this_turn") {
        Some(CardState::ActivatedThisTurn)
    } else if str_eq(w, "face_up") {
        Some(CardState::FaceUp)
    } else if str_eq(w, "face_down") {
        Some(CardState::FaceDown)
    } else if str_eq(w, "in_attack_position") {
        Some(CardState::InAttackPosition)
    } else if str_eq(w, "in_defense_position") {
        Some(CardState::InDefensePosition)
    } else {
        None
    }
}

/// The source word of a phase.
pub open spec fn spec_phase_name_name(v: PhaseName) -> Seq<char> {
    match v {
        PhaseName::Draw => "draw"@,
        PhaseName::Standby => "standby"@,
        PhaseName::Main1 => "main1"@,
        PhaseName::Battle => "battle"@,
        PhaseName::Main2 => "main2"@,
        PhaseName::End => "end"@,
        PhaseName::Damage => "damage"@,
        PhaseName::DamageCalculation => "damage_calculation"@,
    }
}

/// The source word of a phase.
pub fn phase_name_name(v: &PhaseName) -> (r: &'static str)
    ensures
        r@ == spec_phase_name_name(*v),
{
    proof {
        reveal_strlit("battle");
        reveal_strlit("damage");
        reveal_strlit("damage_calculation");
        reveal_strlit("draw");
        reveal_strlit("end");
        reveal_strlit("main1");
        reveal_strlit("main2");
        reveal_strlit("standby");
    }
    match v {
        PhaseName::Draw => "draw",
        PhaseName::Standby => "standby",
        PhaseName::Main1 => "main1",
        PhaseName::Battle => "battle",
        PhaseName::Main2 => "main2",
        PhaseName::End => "end",
        PhaseName::Damage => "damage",
        PhaseName::DamageCalculation => "damage_calculation",
    }
}

/// The PhaseName a source word names, if any.
pub open spec fn spec_phase_name_of(w: Seq<char>) -> Option<PhaseName> {
    if w == "draw"@ {
        Some(PhaseName::Draw)
    } else if w == "standby"@ {
        Some(PhaseName::Standby)
    } else if w == "main1"@ {
        Some(PhaseName::Main1)
    } else if w == "battle"@ {
        Some(PhaseName::Battle)
    } else if w == "main2"@ {
        Some(PhaseName::Main2)
    } else if w == "end"@ {
        Some(PhaseName::End)
    } else if w == "damage"@ {
        Some(PhaseName::Damage)
    } else if w == "damage_calculation"@ {
        Some(PhaseName::DamageCalculation)
    } else {
        None
    }
}

/// The PhaseName a source word names, if any.
pub fn phase_name_of(w: &str) -> (r: Option<PhaseName>)
    ensures
        r == spec_phase_name_of(w@),
{
    proof {
        reveal_strlit("battle");
        reveal_strlit("damage");
        reveal_strlit("damage_calculation");
        reveal_strlit("draw");
        reveal_strlit("end");
        reveal_strlit("main1");
        reveal_strlit("main2");
        reveal_strlit("standby");
    }
    if str_eq(w, "draw") {
        Some(PhaseName::Draw)
    } else if str_eq(w, "standby") {
        Some(PhaseName::Standby)
    } else if str_eq(w, "main1") {
        Some(PhaseName::Main1)
    } else if str_eq(w, "battle") {
        Some(PhaseName::Battle)
    } else if str_eq(w, "main2") {
        Some(PhaseName::Main2)
    } else if str_eq(w, "end") {
        Some(PhaseName::End)
    } else if str_eq(w, "damage") {
        Some(PhaseName::Damage)
    } else if str_eq(w, "damage_calculation") {
        Some(PhaseName::DamageCalculation)
    } else {
        None
    }
}

/// The source word of a chain category.
pub open spec fn spec_category_name(v: Category) -> Seq<char> {
    match v {
        Category::Search => "search"@,
        Category::SpecialSummon => "special_summon"@,
        Category::SendToGy => "send_to_gy"@,
        Category::AddToHand => "add_to_hand"@,
        Category::Draw => "draw"@,
        Category::Banish => "banish"@,
        Category::Destroy => "destroy"@,
        Category::Negate => "negate"@,
        Category::Mill => "mill"@,
        Category::ActivateSpell => "activate_spell"@,
        Category::ActivateTrap => "activate_trap"@,
        Category::ActivateMonsterEffect => "activate_monster_effect"@,
        Category::NormalSummon => "normal_summon"@,
        Category::FusionSummon => "fusion_summon"@,
        Category::SynchroSummon => "synchro_summon"@,
        Category::XyzSummon => "xyz_summon"@,
        Category::LinkSummon => "link_summon"@,
        Category::RitualSummon => "ritual_summon"@,
        Category::AttackDeclared => "attack_declared"@,
    }
}

/// The source word of a chain category.
pub fn category_name(v: &Category) -> (r: &'static str)
    ensures
        r@ == spec_category_name(*v),
{
    proof {
        reveal_strlit("activate_monster_effect");
        reveal_strlit("activate_spell");
        reveal_strlit("activate_trap");
        reveal_strlit("add_to_hand");
        reveal_strlit("attack_declared");
        reveal_strlit("banish");
        reveal_strlit("destroy");
        reveal_strlit("draw");
        reveal_strlit("fusion_summon");
        reveal_strlit("link_summon");
        reveal_strlit("mill");
        reveal_strlit("negate");
        reveal_strlit("normal_summon");
        reveal_strlit("ritual_summon");
        reveal_strlit("search");
        reveal_strlit("send_to_gy");
        reveal_strlit("special_summon");
        reveal_strlit("synchro_summon");
        reveal_strlit("xyz_summon");
    }
    match v {
        Category::Search => "search",
        Category::SpecialSummon => "special_summon",
        Category::SendToGy => "send_to_gy",
        Category::AddToHand => "add_to_hand",
        Category::Draw => "draw",
        Category::Banish => "banish",
        Category::Destroy => "destroy",
        Category::Negate => "negate",
        Category::Mill => "mill",
        Category::ActivateSpell => "activate_spell",
        Category::ActivateTrap => "activate_trap",
        Category::ActivateMonsterEffect => "activate_monster_effect",
        Category::NormalSummon => "normal_summon",
        Category::FusionSummon => "fusion_summon",
        Category::SynchroSummon => "synchro_summon",
        Category::XyzSummon => "xyz_summon",
        Category::LinkSummon => "link_summon",
        Category::RitualSummon => "ritual_summon",
        Category::AttackDeclared => "attack_declared",
    }
}

/// The Category a source word names, if any.
pub open spec fn spec_category_of(w: Seq<char>) -> Option<Category> {
    if w == "search"@ {
        Some(Category::Search)
    } else if w == "special_summon"@ {
        Some(Category::SpecialSummon)
    } else if w == "send_to_gy"@ {
        Some(Category::SendToGy)
    } else if w == "add_to_hand"@ {
        Some(Category::AddToHand)
    } else if w == "draw"@ {
        Some(Category::Draw)
    } else if w == "banish"@ {
        Some(Category::Banish)
    } else if w == "destroy"@ {
        Some(Category::Destroy)
    } else if w == "negate"@ {
        Some(Category::Negate)
    } else if w == "mill"@ {
        Some(Category::Mill)
    } else if w == "activate_spell"@ {
        Some(Category::ActivateSpell)
    } else if w == "activate_trap"@ {
        Some(Category::ActivateTrap)
    } else if w == "activate_monster_effect"@ {
        Some(Category::ActivateMonsterEffect)
    } else if w == "normal_summon"@ {
        Some(Category::NormalSummon)
    } else if w == "fusion_summon"@ {
        Some(Category::FusionSummon)
    } else if w == "synchro_summon"@ {
        Some(Category::SynchroSummon)
    } else if w == "xyz_summon"@ {
        Some(Category::XyzSummon)
    } else if w == "link_summon"@ {
        Some(Category::LinkSummon)
    } else if w == "ritual_summon"@ {
        Some(Category::RitualSummon)
    } else if w == "attack_declared"@ {
        Some(Category::AttackDeclared)
    } else {
        None
    }
}

/// The Category a source word names, if any.
pub fn category_of(w: &str) -> (r: Option<Category>)
    ensures
        r == spec_category_of(w@),
{
    proof {
        reveal_strlit("activate_monster_effect");
        reveal_strlit("activate_spell");
        reveal_strlit("activate_trap");
        reveal_strlit("add_to_hand");
        reveal_strlit("attack_declared");
        reveal_strlit("banish");
        reveal_strlit("destroy");
        reveal_strlit("draw");
        reveal_strlit("fusion_summon");
        reveal_strlit("link_summon");
        reveal_strlit("mill");
        reveal_strlit("negate");
        reveal_strlit("normal_summon");
        reveal_strlit("ritual_summon");
        reveal_strlit("search");
        reveal_strlit("send_to_gy");
        reveal_strlit("special_summon");
        reveal_strlit("synchro_summon");
        reveal_strlit("xyz_summon");
    }
    if str_eq(w, "search") {
        Some(Category::Search)
    } else if str_eq(w, "special_summon") {
        Some(Category::SpecialSummon)
    } else if str_eq(w, "send_to_gy") {
        Some(Category::SendToGy)
    } else if str_eq(w, "add_to_hand") {
        Some(Category::AddToHand)
    } else if str_eq(w, "draw") {
        Some(Category::Draw)
    } else if str_eq(w, "banish") {
        Some(Category::Banish)
    } else if str_eq(w, "destroy") {
        Some(Category::Destroy)
    } else if str_eq(w, "negate") {
        Some(Category::Negate)
    } else if str_eq(w, "mill") {
        Some(Category::Mill)
    } else if str_eq(w, "activate_spell") {
        Some(Category::ActivateSpell)
    } else if str_eq(w, "activate_trap") {
        Some(Category::ActivateTrap)
    } else if str_eq(w, "activate_monster_effect") {
        Some(Category::ActivateMonsterEffect)
    } else if str_eq(w, "normal_summon") {
        Some(Category::NormalSummon)
    } else if str_eq(w, "fusion_summon") {
        Some(Category::FusionSummon)
    } else if str_eq(w, "synchro_summon") {
        Some(Category::SynchroSummon)
    } else if str_eq(w, "xyz_summon") {
        Some(Category::XyzSummon)
    } else if str_eq(w, "link_summon") {
        Some(Category::LinkSummon)
    } else if str_eq(w, "ritual_summon") {
        Some(Category::RitualSummon)
    } else if str_eq(w, "attack_declared") {
        Some(Category::AttackDeclared)
    } else {
        None
    }
}

/// The source word of a summon method.
pub open spec fn spec_summon_method_name(v: SummonMethod) -> Seq<char> {
    match v {
        SummonMethod::Normal => "normal"@,
        SummonMethod::Special => "special"@,
        SummonMethod::Flip => "flip"@,
        SummonMethod::Tribute => "tribute"@,
        SummonMethod::Fusion => "fusion"@,
        SummonMethod::Synchro => "synchro"@,
        SummonMethod::Xyz => "xyz"@,
        SummonMethod::Link => "link"@,
        SummonMethod::Ritual => "ritual"@,
        SummonMethod::Pendulum => "pendulum"@,
    }
}

/// The source word of a summon method.
pub fn summon_method_name(v: &SummonMethod) -> (r: &'static str)
    ensures
        r@ == spec_summon_method_name(*v),
{
    proof {
        reveal_strlit("flip");
        reveal_strlit("fusion");
        reveal_strlit("link");
        reveal_strlit("normal");
        reveal_strlit("pendulum");
        reveal_strlit("ritual");
        reveal_strlit("special");
        reveal_strlit("synchro");
        reveal_strlit("tribute");
        reveal_strlit("xyz");
    }
    match v {
        SummonMethod::Normal => "normal",
        SummonMethod::Special => "special",
        SummonMethod::Flip => "flip",
        SummonMethod::Tribute => "tribute",
        SummonMethod::Fusion => "fusion",
        SummonMethod::Synchro => "synchro",
        SummonMethod::Xyz => "xyz",
        SummonMethod::Link => "link",
        SummonMethod::Ritual => "ritual",
        SummonMethod::Pendulum => "pendulum",
    }
}

/// The SummonMethod a source word names, if any.
pub open spec fn spec_summon_method_of(w: Seq<char>) -> Option<SummonMethod> {
    if w == "normal"@ {
        Some(SummonMethod::Normal)
    } else if w == "special"@ {
        Some(SummonMethod::Special)
    } else if w == "flip"@ {
        Some(SummonMethod::Flip)
    } else if w == "tribute"@ {
        Some(SummonMethod::Tribute)
    } else if w == "fusion"@ {
        Some(SummonMethod::Fusion)
    } else if w == "synchro"@ {
        Some(SummonMethod::Synchro)
    } else if w == "xyz"@ {
        Some(SummonMethod::Xyz)
    } else if w == "link"@ {
        Some(SummonMethod::Link)
    } else if w == "ritual"@ {
        Some(SummonMethod::Ritual)
    } else if w == "pendulum"@ {
        Some(SummonMethod::Pendulum)
    } else {
        None
    }
}

/// The SummonMethod a source word names, if any.
pub fn summon_method_of(w: &str) -> (r: Option<SummonMethod>)
    ensures
        r == spec_summon_method_of(w@),
{
    proof {
        reveal_strlit("flip");
        reveal_strlit("fusion");
        reveal_strlit("link");
        reveal_strlit("normal");
        reveal_strlit("pendulum");
        reveal_strlit("ritual");
        reveal_strlit("special");
        reveal_strlit("synchro");
        reveal_strlit("tribute");
        reveal_strlit("xyz");
    }
    if str_eq(w, "normal") {
        Some(SummonMethod::Normal)
    } else if str_eq(w, "special") {
        Some(SummonMethod::Special)
    } else if str_eq(w, "flip") {
        Some(SummonMethod::Flip)
    } else if str_eq(w, "tribute") {
        Some(SummonMethod::Tribute)
    } else if str_eq(w, "fusion") {
        Some(SummonMethod::Fusion)
    } else if str_eq(w, "synchro") {
        Some(SummonMethod::Synchro)
    } else if str_eq(w, "xyz") {
        Some(SummonMethod::Xyz)
    } else if str_eq(w, "link") {
        Some(SummonMethod::Link)
    } else if str_eq(w, "ritual") {
        Some(SummonMethod::Ritual)
    } else if str_eq(w, "pendulum") {
        Some(SummonMethod::Pendulum)
    } else {
        None
    }
}

/// The source word of what is announced.
pub open spec fn spec_announce_what_name(v: AnnounceWhat) -> Seq<char> {
    match v {
        AnnounceWhat::Type => "type"@,
        AnnounceWhat::Attribute => "attribute"@,
        AnnounceWhat::Race => "race"@,
        AnnounceWhat::Level => "level"@,
        AnnounceWhat::Card => "card"@,
    }
}

/// The source word of what is announced.
pub fn announce_what_name(v: &AnnounceWhat) -> (r: &'static str)
    ensures
        r@ == spec_announce_what_name(*v),
{
    proof {
        reveal_strlit("attribute");
        reveal_strlit("card");
        reveal_strlit("level");
        reveal_strlit("race");
        reveal_strlit("type");
    }
    match v {
        AnnounceWhat::Type => "type",
        AnnounceWhat::Attribute => "attribute",
        AnnounceWhat::Race => "race",
        AnnounceWhat::Level => "level",
        AnnounceWhat::Card => "card",
    }
}

/// The AnnounceWhat a source word names, if any.
pub open spec fn spec_announce_what_of(w: Seq<char>) -> Option<AnnounceWhat> {
    if w == "type"@ {
        Some(AnnounceWhat::Type)
    } else if w == "attribute"@ {
        Some(AnnounceWhat::Attribute)
    } else if w == "race"@ {
        Some(AnnounceWhat::Race)
    } else if w == "level"@ {
        Some(AnnounceWhat::Level)
    } else if w == "card"@ {
        Some(AnnounceWhat::Card)
    } else {
        None
    }
}

/// The AnnounceWhat a source word names, if any.
pub fn announce_what_of(w: &str) -> (r: Option<AnnounceWhat>)
    ensures
        r == spec_announce_what_of(w@),
{
    proof {
        reveal_strlit("attribute");
        reveal_strlit("card");
        reveal_strlit("level");
        reveal_strlit("race");
        reveal_strlit("type");
    }
    if str_eq(w, "type") {
        Some(AnnounceWhat::Type)
    } else if str_eq(w, "attribute") {
        Some(AnnounceWhat::Attribute)
    } else if str_eq(w, "race") {
        Some(AnnounceWhat::Race)
    } else if str_eq(w, "level") {
        Some(AnnounceWhat::Level)
    } else if str_eq(w, "card") {
        Some(AnnounceWhat::Card)
    } else {
        None
    }
}

/// The source word of a replaceable event.
pub open spec fn spec_replaceable_event_name(v: ReplaceableEvent) -> Seq<char> {
    match v {
        ReplaceableEvent::DestroyedByBattle => "destroyed_by_battle"@,
        ReplaceableEvent::DestroyedByEffect => "destroyed_by_effect"@,
        ReplaceableEvent::Destroyed => "destroyed"@,
        ReplaceableEvent::SentToGy => "sent_to_gy"@,
        ReplaceableEvent::Banished => "banished"@,
        ReplaceableEvent::ReturnedToHand => "returned_to_hand"@,
        ReplaceableEvent::ReturnedToDeck => "returned_to_deck"@,
        ReplaceableEvent::LeavesField => "leaves_field"@,
    }
}

/// The source word of a replaceable event.
pub fn replaceable_event_name(v: &ReplaceableEvent) -> (r: &'static str)
    ensures
        r@ == spec_replaceable_event_name(*v),
{
    proof {
        reveal_strlit("banished");
        reveal_strlit("destroyed");
        reveal_strlit("destroyed_by_battle");
        reveal_strlit("destroyed_by_effect");
        reveal_strlit("leaves_field");
        reveal_strlit("returned_to_deck");
        reveal_strlit("returned_to_hand");
        reveal_strlit("sent_to_gy");
    }
    match v {
        ReplaceableEvent::DestroyedByBattle => "destroyed_by_battle",
        ReplaceableEvent::DestroyedByEffect => "destroyed_by_effect",
        ReplaceableEvent::Destroyed => "destroyed",
        ReplaceableEvent::SentToGy => "sent_to_gy",
        ReplaceableEvent::Banished => "banished",
        ReplaceableEvent::ReturnedToHand => "returned_to_hand",
        ReplaceableEvent::ReturnedToDeck => "returned_to_deck",
        ReplaceableEvent::LeavesField => "leaves_field",
    }
}

/// The ReplaceableEvent a source word names, if any.
pub open spec fn spec_replaceable_event_of(w: Seq<char>) -> Option<ReplaceableEvent> {
    if w == "destroyed_by_battle"@ {
        Some(ReplaceableEvent::DestroyedByBattle)
    } else if w == "destroyed_by_effect"@ {
        Some(ReplaceableEvent::DestroyedByEffect)
    } else if w == "destroyed"@ {
        Some(ReplaceableEvent::Destroyed)
    } else if w == "sent_to_gy"@ {
        Some(ReplaceableEvent::SentToGy)
    } else if w == "banished"@ {
        Some(ReplaceableEvent::Banished)
    } else if w == "returned_to_hand"@ {
        Some(ReplaceableEvent::ReturnedToHand)
    } else if w == "returned_to_deck"@ {
        Some(ReplaceableEvent::ReturnedToDeck)
    } else if w == "leaves_field"@ {
        Some(ReplaceableEvent::LeavesField)
    } else {
        None
    }
}

/// The ReplaceableEvent a source word names, if any.
pub fn replaceable_event_of(w: &str) -> (r: Option<ReplaceableEvent>)
    ensures
        r == spec_replaceable_event_of(w@),
{
    proof {
        reveal_strlit("banished");
        reveal_strlit("destroyed");
        reveal_strlit("destroyed_by_battle");
        reveal_strlit("destroyed_by_effect");
        reveal_strlit("leaves_field");
        reveal_strlit("returned_to_deck");
        reveal_strlit("returned_to_hand");
        reveal_strlit("sent_to_gy");
    }
    if str_eq(w, "destroyed_by_battle") {
        Some(ReplaceableEvent::DestroyedByBattle)
    } else if str_eq(w, "destroyed_by_effect") {
        Some(ReplaceableEvent::DestroyedByEffect)
    } else if str_eq(w, "destroyed") {
        Some(ReplaceableEvent::Destroyed)
    } else if str_eq(w, "sent_to_gy") {
        Some(ReplaceableEvent::SentToGy)
    } else if str_eq(w, "banished") {
        Some(ReplaceableEvent::Banished)
    } else if str_eq(w, "returned_to_hand") {
        Some(ReplaceableEvent::ReturnedToHand)
    } else if str_eq(w, "returned_to_deck") {
        Some(ReplaceableEvent::ReturnedToDeck)
    } else if str_eq(w, "leaves_field") {
        Some(ReplaceableEvent::LeavesField)
    } else {
        None
    }
}

/// The source word of a card filter kind.
pub open spec fn spec_card_filter_kind_name(v: CardFilterKind) -> Seq<char> {
    match v {
        CardFilterKind::Monster => "monster"@,
        CardFilterKind::Spell => "spell"@,
        CardFilterKind::Trap => "trap"@,
        CardFilterKind::Card => "card"@,
        CardFilterKind::EffectMonster => "effect monster"@,
        CardFilterKind::NormalMonster => "normal monster"@,
        CardFilterKind::FusionMonster => "fusion monster"@,
        CardFilterKind::SynchroMonster => "synchro monster"@,
        CardFilterKind::XyzMonster => "xyz monster"@,
        CardFilterKind::LinkMonster => "link monster"@,
        CardFilterKind::RitualMonster => "ritual monster"@,
        CardFilterKind::PendulumMonster => "pendulum monster"@,
        CardFilterKind::TunerMonster => "tuner monster"@,
        CardFilterKind::NonTunerMonster => "non-tuner monster"@,
        CardFilterKind::NonTokenMonster => "non-token monster"@,
    }
}

/// The source word of a card filter kind.
pub fn card_filter_kind_name(v: &CardFilterKind) -> (r: &'static str)
    ensures
        r@ == spec_card_filter_kind_name(*v),
{
    proof {
        reveal_strlit("card");
        reveal_strlit("effect monster");
        reveal_strlit("fusion monster");
        reveal_strlit("link monster");
        reveal_strlit("monster");
        reveal_strlit("non-token monster");
        reveal_strlit("non-tuner monster");
        reveal_strlit("normal monster");
        reveal_strlit("pendulum monster");
        reveal_strlit("ritual monster");
        reveal_strlit("spell");
        reveal_strlit("synchro monster");
        reveal_strlit("trap");
        reveal_strlit("tuner monster");
        reveal_strlit("xyz monster");
    }
    match v {
        CardFilterKind::Monster => "monster",
        CardFilterKind::Spell => "spell",
        CardFilterKind::Trap => "trap",
        CardFilterKind::Card => "card",
        CardFilterKind::EffectMonster => "effect monster",
        CardFilterKind::NormalMonster => "normal monster",
        CardFilterKind::FusionMonster => "fusion monster",
        CardFilterKind::SynchroMonster => "synchro monster",
        CardFilterKind::XyzMonster => "xyz monster",
        CardFilterKind::LinkMonster => "link monster",
        CardFilterKind::RitualMonster => "ritual monster",
        CardFilterKind::PendulumMonster => "pendulum monster",
        CardFilterKind::TunerMonster => "tuner monster",
        CardFilterKind::NonTunerMonster => "non-tuner monster",
        CardFilterKind::NonTokenMonster => "non-token monster",
    }
}

/// The CardFilterKind a source word names, if any.
pub open spec fn spec_card_filter_kind_of(w: Seq<char>) -> Option<CardFilterKind> {
    if w == "monster"@ {
        Some(CardFilterKind::Monster)
    } else if w == "spell"@ {
        Some(CardFilterKind::Spell)
    } else if w == "trap"@ {
        Some(CardFilterKind::Trap)
    } else if w == "card"@ {
        Some(CardFilterKind::Card)
    } else if w == "effect monster"@ {
        Some(CardFilterKind::EffectMonster)
    } else if w == "normal monster"@ {
        Some(CardFilterKind::NormalMonster)
    } else if w == "fusion monster"@ {
        Some(CardFilterKind::FusionMonster)
    } else if w == "synchro monster"@ {
        Some(CardFilterKind::SynchroMonster)
    } else if w == "xyz monster"@ {
        Some(CardFilterKind::XyzMonster)
    } else if w == "link monster"@ {
        Some(CardFilterKind::LinkMonster)
    } else if w == "ritual monster"@ {
        Some(CardFilterKind::RitualMonster)
    } else if w == "pendulum monster"@ {
        Some(CardFilterKind::PendulumMonster)
    } else if w == "tuner monster"@ {
        Some(CardFilterKind::TunerMonster)
    } else if w == "non-tuner monster"@ {
        Some(CardFilterKind::NonTunerMonster)
    } else if w == "non-token monster"@ {
        Some(CardFilterKind::NonTokenMonster)
    } else {
        None
    }
}

/// The CardFilterKind a source word names, if any.
pub fn card_filter_kind_of(w: &str) -> (r: Option<CardFilterKind>)
    ensures
        r == spec_card_filter_kind_of(w@),
{
    proof {
        reveal_strlit("card");
        reveal_strlit("effect monster");
        reveal_strlit("fusion monster");
        reveal_strlit("link monster");
        reveal_strlit("monster");
        reveal_strlit("non-token monster");
        reveal_strlit("non-tuner monster");
        reveal_strlit("normal monster");
        reveal_strlit("pendulum monster");
        reveal_strlit("ritual monster");
        reveal_strlit("spell");
        reveal_strlit("synchro monster");
        reveal_strlit("trap");
        reveal_strlit("tuner monster");
        reveal_strlit("xyz monster");
    }
    if str_eq(w, "monster") {
        Some(CardFilterKind::Monster)
    } else if str_eq(w, "spell") {
        Some(CardFilterKind::Spell)
    } else if str_eq(w, "trap") {
        Some(CardFilterKind::Trap)
    } else if str_eq(w, "card") {
        Some(CardFilterKind::Card)
    } else if str_eq(w, "effect monster") {
        Some(CardFilterKind::EffectMonster)
    } else if str_eq(w, "normal monster") {
        Some(CardFilterKind::NormalMonster)
    } else if str_eq(w, "fusion monster") {
        Some(CardFilterKind::FusionMonster)
    } else if str_eq(w, "synchro monster") {
        Some(CardFilterKind::SynchroMonster)
    } else if str_eq(w, "xyz monster") {
        Some(CardFilterKind::XyzMonster)
    } else if str_eq(w, "link monster") {
        Some(CardFilterKind::LinkMonster)
    } else if str_eq(w, "ritual monster") {
        Some(CardFilterKind::RitualMonster)
    } else if str_eq(w, "pendulum monster") {
        Some(CardFilterKind::PendulumMonster)
    } else if str_eq(w, "tuner monster") {
        Some(CardFilterKind::TunerMonster)
    } else if str_eq(w, "non-tuner monster") {
        Some(CardFilterKind::NonTunerMonster)
    } else if str_eq(w, "non-token monster") {
        Some(CardFilterKind::NonTokenMonster)
    } else {
        None
    }
}

/// The source word of a position filter.
pub open spec fn spec_position_filter_name(v: PositionFilter) -> Seq<char> {
    match v {
        PositionFilter::FaceUp => "face_up"@,
        PositionFilter::FaceDown => "face_down"@,
        PositionFilter::AttackPosition => "in attack_position"@,
        PositionFilter::DefensePosition => "in defense_position"@,
        PositionFilter::ExceptSelf => "except self"@,
    }
}

/// The source word of a position filter.
pub fn position_filter_name(v: &PositionFilter) -> (r: &'static str)
    ensures
        r@ == spec_position_filter_name(*v),
{
    proof {
        reveal_strlit("except self");
        reveal_strlit("face_down");
        reveal_strlit("face_up");
        reveal_strlit("in attack_position");
        reveal_strlit("in defense_position");
    }
    match v {
        PositionFilter::FaceUp => "face_up",
        PositionFilter::FaceDown => "face_down",
        PositionFilter::AttackPosition => "in attack_position",
        PositionFilter::DefensePosition => "in defense_position",
        PositionFilter::ExceptSelf => "except self",
    }
}

/// The PositionFilter a source word names, if any.
pub open spec fn spec_position_filter_of(w: Seq<char>) -> Option<PositionFilter> {
    if w == "face_up"@ {
        Some(PositionFilter::FaceUp)
    } else if w == "face_down"@ {
        Some(PositionFilter::FaceDown)
    } else if w == "in attack_position"@ {
        Some(PositionFilter::AttackPosition)
    } else if w == "in defense_position"@ {
        Some(PositionFilter::DefensePosition)
    } else if w == "except self"@ {
        Some(PositionFilter::ExceptSelf)
    } else {
        None
    }
}

/// The PositionFilter a source word names, if any.
pub fn position_filter_of(w: &str) -> (r: Option<PositionFilter>)
    ensures
        r == spec_position_filter_of(w@),
{
    proof {
        reveal_strlit("except self");
        reveal_strlit("face_down");
        reveal_strlit("face_up");
        reveal_strlit("in attack_position");
        reveal_strlit("in defense_position");
    }
    if str_eq(w, "face_up") {
        Some(PositionFilter::FaceUp)
    } else if str_eq(w, "face_down") {
        Some(PositionFilter::FaceDown)
    } else if str_eq(w, "in attack_position") {
        Some(PositionFilter::AttackPosition)
    } else if str_eq(w, "in defense_position") {
        Some(PositionFilter::DefensePosition)
    } else if str_eq(w, "except self") {
        Some(PositionFilter::ExceptSelf)
    } else {
        None
    }
}

/// The source word of a controller clause.
pub open spec fn spec_controller_name(v: Controller) -> Seq<char> {
    match v {
        Controller::You => "you control"@,
        Controller::Opponent => "opponent controls"@,
        Controller::Either => "either controls"@,
    }
}

/// The source word of a controller clause.
pub fn controller_name(v: &Controller) -> (r: &'static str)
    ensures
        r@ == spec_controller_name(*v),
{
    proof {
        reveal_strlit("either controls");
        reveal_strlit("opponent controls");
        reveal_strlit("you control");
    }
    match v {
        Controller::You => "you control",
        Controller::Opponent => "opponent controls",
        Controller::Either => "either controls",
    }
}

/// The Controller a source word names, if any.
pub open spec fn spec_controller_of(w: Seq<char>) -> Option<Controller> {
    if w == "you control"@ {
        Some(Controller::You)
    } else if w == "opponent controls"@ {
        Some(Controller::Opponent)
    } else if w == "either controls"@ {
        Some(Controller::Either)
    } else {
        None
    }
}

/// The Controller a source word names, if any.
pub fn controller_of(w: &str) -> (r: Option<Controller>)
    ensures
        r == spec_controller_of(w@),
{
    proof {
        reveal_strlit("either controls");
        reveal_strlit("opponent controls");
        reveal_strlit("you control");
    }
    if str_eq(w, "you control") {
        Some(Controller::You)
    } else if str_eq(w, "opponent controls") {
        Some(Controller::Opponent)
    } else if str_eq(w, "either controls") {
        Some(Controller::Either)
    } else {
        None
    }
}

/// The source word of a redirect scope.
pub open spec fn spec_redirect_scope_name(v: RedirectScope) -> Seq<char> {
    match v {
        RedirectScope::Self_ => "self"@,
        RedirectScope::Field => "field"@,
        RedirectScope::OpponentField => "opponent_field"@,
        RedirectScope::BothFields => "both_fields"@,
    }
}

/// The source word of a redirect scope.
pub fn redirect_scope_name(v: &RedirectScope) -> (r: &'static str)
    ensures
        r@ == spec_redirect_scope_name(*v),
{
    proof {
        reveal_strlit("both_fields");
        reveal_strlit("field");
        reveal_strlit("opponent_field");
        reveal_strlit("self");
    }
    match v {
        RedirectScope::Self_ => "self",
        RedirectScope::Field => "field",
        RedirectScope::OpponentField => "opponent_field",
        RedirectScope::BothFields => "both_fields",
    }
}

/// The RedirectScope a source word names, if any.
pub open spec fn spec_redirect_scope_of(w: Seq<char>) -> Option<RedirectScope> {
    if w == "self"@ {
        Some(RedirectScope::Self_)
    } else if w == "field"@ {
        Some(RedirectScope::Field)
    } else if w == "opponent_field"@ {
        Some(RedirectScope::OpponentField)
    } else if w == "both_fields"@ {
        Some(RedirectScope::BothFields)
    } else {
        None
    }
}

/// The RedirectScope a source word names, if any.
pub fn redirect_scope_of(w: &str) -> (r: Option<RedirectScope>)
    ensures
        r == spec_redirect_scope_of(w@),
{
    proof {
        reveal_strlit("both_fields");
        reveal_strlit("field");
        reveal_strlit("opponent_field");
        reveal_strlit("self");
    }
    if str_eq(w, "self") {
        Some(RedirectScope::Self_)
    } else if str_eq(w, "field") {
        Some(RedirectScope::Field)
    } else if str_eq(w, "opponent_field") {
        Some(RedirectScope::OpponentField)
    } else if str_eq(w, "both_fields") {
        Some(RedirectScope::BothFields)
    } else {
        None
    }
}

/// The source word of a granted ability.
pub open spec fn spec_grant_ability_name(v: GrantAbility) -> Seq<char> {
    match v {
        GrantAbility::CannotAttack => "cannot_attack"@,
        GrantAbility::CannotAttackDirectly => "cannot_attack_directly"@,
        GrantAbility::CannotChangePosition => "cannot_change_position"@,
        GrantAbility::CannotBeDestroyed(None) => "cannot_be_destroyed"@,
        GrantAbility::CannotBeDestroyed(Some(DestroyBy::Battle)) => "cannot_be_destroyed by battle"@,
        GrantAbility::CannotBeDestroyed(Some(DestroyBy::Effect)) => "cannot_be_destroyed by effect"@,
        GrantAbility::CannotBeTargeted(None) => "cannot_be_targeted"@,
        GrantAbility::CannotBeTargeted(Some(TargetedBy::Spells)) => "cannot_be_targeted by spells"@,
        GrantAbility::CannotBeTargeted(Some(TargetedBy::Traps)) => "cannot_be_targeted by traps"@,
        GrantAbility::CannotBeTargeted(Some(TargetedBy::Monsters)) => "cannot_be_targeted by monsters"@,
        GrantAbility::CannotBeTargeted(Some(TargetedBy::Effects)) => "cannot_be_targeted by effects"@,
        GrantAbility::CannotBeTargeted(Some(TargetedBy::Opponent)) => "cannot_be_targeted by opponent"@,
        GrantAbility::CannotBeTributed => "cannot_be_tributed"@,
        GrantAbility::CannotBeUsedAsMaterial => "cannot_be_used_as_material"@,
        GrantAbility::CannotActivate(None) => "cannot_activate"@,
        GrantAbility::CannotActivate(Some(ActivateWhat::Effects)) => "cannot_activate effects"@,
        GrantAbility::CannotActivate(Some(ActivateWhat::Spells)) => "cannot_activate spells"@,
        GrantAbility::CannotActivate(Some(ActivateWhat::Traps)) => "cannot_activate traps"@,
        GrantAbility::CannotNormalSummon => "cannot_normal_summon"@,
        GrantAbility::CannotSpecialSummon => "cannot_special_summon"@,
        GrantAbility::UnaffectedBy(UnaffectedSource::Spells) => "unaffected_by spells"@,
        GrantAbility::UnaffectedBy(UnaffectedSource::Traps) => "unaffected_by traps"@,
        GrantAbility::UnaffectedBy(UnaffectedSource::Monsters) => "unaffected_by monsters"@,
        GrantAbility::UnaffectedBy(UnaffectedSource::Effects) => "unaffected_by effects"@,
        GrantAbility::UnaffectedBy(UnaffectedSource::OpponentEffects) => "unaffected_by opponent_effects"@,
        GrantAbility::Piercing => "piercing"@,
        GrantAbility::DirectAttack => "direct_attack"@,
        GrantAbility::DoubleAttack => "double_attack"@,
        GrantAbility::TripleAttack => "triple_attack"@,
        GrantAbility::AttackAllMonsters => "attack_all_monsters"@,
        GrantAbility::MustAttack => "must_attack"@,
        GrantAbility::ImmuneToTargeting => "immune_to_targeting"@,
        GrantAbility::CannotBeDestroyed(Some(DestroyBy::CardEffect)) => "cannot_be_destroyed by effect"@,
    }
}

/// The source word of a granted ability.
pub fn grant_ability_name(v: &GrantAbility) -> (r: &'static str)
    ensures
        r@ == spec_grant_ability_name(*v),
{
    proof {
        reveal_strlit("attack_all_monsters");
        reveal_strlit("cannot_activate");
        reveal_strlit("cannot_activate effects");
        reveal_strlit("cannot_activate spells");
        reveal_strlit("cannot_activate traps");
        reveal_strlit("cannot_attack");
        reveal_strlit("cannot_attack_directly");
        reveal_strlit("cannot_be_destroyed");
        reveal_strlit("cannot_be_destroyed by battle");
        reveal_strlit("cannot_be_destroyed by effect");
        reveal_strlit("cannot_be_targeted");
        reveal_strlit("cannot_be_targeted by effects");
        reveal_strlit("cannot_be_targeted by monsters");
        reveal_strlit("cannot_be_targeted by opponent");
        reveal_strlit("cannot_be_targeted by spells");
        reveal_strlit("cannot_be_targeted by traps");
        reveal_strlit("cannot_be_tributed");
        reveal_strlit("cannot_be_used_as_material");
        reveal_strlit("cannot_change_position");
        reveal_strlit("cannot_normal_summon");
        reveal_strlit("cannot_special_summon");
        reveal_strlit("direct_attack");
        reveal_strlit("double_attack");
        reveal_strlit("immune_to_targeting");
        reveal_strlit("must_attack");
        reveal_strlit("piercing");
        reveal_strlit("triple_attack");
        reveal_strlit("unaffected_by effects");
        reveal_strlit("unaffected_by monsters");
        reveal_strlit("unaffected_by opponent_effects");
        reveal_strlit("unaffected_by spells");
        reveal_strlit("unaffected_by traps");
    }
    match v {
        GrantAbility::CannotAttack => "cannot_attack",
        GrantAbility::CannotAttackDirectly => "cannot_attack_directly",
        GrantAbility::CannotChangePosition => "cannot_change_position",
        GrantAbility::CannotBeDestroyed(None) => "cannot_be_destroyed",
        GrantAbility::CannotBeDestroyed(Some(DestroyBy::Battle)) => "cannot_be_destroyed by battle",
        GrantAbility::CannotBeDestroyed(Some(DestroyBy::Effect)) => "cannot_be_destroyed by effect",
        GrantAbility::CannotBeTargeted(None) => "cannot_be_targeted",
        GrantAbility::CannotBeTargeted(Some(TargetedBy::Spells)) => "cannot_be_targeted by spells",
        GrantAbility::CannotBeTargeted(Some(TargetedBy::Traps)) => "cannot_be_targeted by traps",
        GrantAbility::CannotBeTargeted(Some(TargetedBy::Monsters)) => "cannot_be_targeted by monsters",
        GrantAbility::CannotBeTargeted(Some(TargetedBy::Effects)) => "cannot_be_targeted by effects",
        GrantAbility::CannotBeTargeted(Some(TargetedBy::Opponent)) => "cannot_be_targeted by opponent",
        GrantAbility::CannotBeTributed => "cannot_be_tributed",
        GrantAbility::CannotBeUsedAsMaterial => "cannot_be_used_as_material",
        GrantAbility::CannotActivate(None) => "cannot_activate",
        GrantAbility::CannotActivate(Some(ActivateWhat::Effects)) => "cannot_activate effects",
        GrantAbility::CannotActivate(Some(ActivateWhat::Spells)) => "cannot_activate spells",
        GrantAbility::CannotActivate(Some(ActivateWhat::Traps)) => "cannot_activate traps",
        GrantAbility::CannotNormalSummon => "cannot_normal_summon",
        GrantAbility::CannotSpecialSummon => "cannot_special_summon",
        GrantAbility::UnaffectedBy(UnaffectedSource::Spells) => "unaffected_by spells",
        GrantAbility::UnaffectedBy(UnaffectedSource::Traps) => "unaffected_by traps",
        GrantAbility::UnaffectedBy(UnaffectedSource::Monsters) => "unaffected_by monsters",
        GrantAbility::UnaffectedBy(UnaffectedSource::Effects) => "unaffected_by effects",
        GrantAbility::UnaffectedBy(UnaffectedSource::OpponentEffects) => "unaffected_by opponent_effects",
        GrantAbility::Piercing => "piercing",
        GrantAbility::DirectAttack => "direct_attack",
        GrantAbility::DoubleAttack => "double_attack",
        GrantAbility::TripleAttack => "triple_attack",
        GrantAbility::AttackAllMonsters => "attack_all_monsters",
        GrantAbility::MustAttack => "must_attack",
        GrantAbility::ImmuneToTargeting => "immune_to_targeting",
        GrantAbility::CannotBeDestroyed(Some(DestroyBy::CardEffect)) => "cannot_be_destroyed by effect",
    }
}

/// The GrantAbility a source word names, if any.
pub open spec fn spec_grant_ability_of(w: Seq<char>) -> Option<GrantAbility> {
    if w == "cannot_attack"@ {
        Some(GrantAbility::CannotAttack)
    } else if w == "cannot_attack_directly"@ {
        Some(GrantAbility::CannotAttackDirectly)
    } else if w == "cannot_change_position"@ {
        Some(GrantAbility::CannotChangePosition)
    } else if w == "cannot_be_destroyed"@ {
        Some(GrantAbility::CannotBeDestroyed(None))
    } else if w == "cannot_be_destroyed by battle"@ {
        Some(GrantAbility::CannotBeDestroyed(Some(DestroyBy::Battle)))
    } else if w == "cannot_be_destroyed by effect"@ {
        Some(GrantAbility::CannotBeDestroyed(Some(DestroyBy::Effect)))
    } else if w == "cannot_be_targeted"@ {
        Some(GrantAbility::CannotBeTargeted(None))
    } else if w == "cannot_be_targeted by spells"@ {
        Some(GrantAbility::CannotBeTargeted(Some(TargetedBy::Spells)))
    } else if w == "cannot_be_targeted by traps"@ {
        Some(GrantAbility::CannotBeTargeted(Some(TargetedBy::Traps)))
    } else if w == "cannot_be_targeted by monsters"@ {
        Some(GrantAbility::CannotBeTargeted(Some(TargetedBy::Monsters)))
    } else if w == "cannot_be_targeted by effects"@ {
        Some(GrantAbility::CannotBeTargeted(Some(TargetedBy::Effects)))
    } else if w == "cannot_be_targeted by opponent"@ {
        Some(GrantAbility::CannotBeTargeted(Some(TargetedBy::Opponent)))
    } else if w == "cannot_be_tributed"@ {
        Some(GrantAbility::CannotBeTributed)
    } else if w == "cannot_be_used_as_material"@ {
        Some(GrantAbility::CannotBeUsedAsMaterial)
    } else if w == "cannot_activate"@ {
        Some(GrantAbility::CannotActivate(None))
    } else if w == "cannot_activate effects"@ {
        Some(GrantAbility::CannotActivate(Some(ActivateWhat::Effects)))
    } else if w == "cannot_activate spells"@ {
        Some(GrantAbility::CannotActivate(Some(ActivateWhat::Spells)))
    } else if w == "cannot_activate traps"@ {
        Some(GrantAbility::CannotActivate(Some(ActivateWhat::Traps)))
    } else if w == "cannot_normal_summon"@ {
        Some(GrantAbility::CannotNormalSummon)
    } else if w == "cannot_special_summon"@ {
        Some(GrantAbility::CannotSpecialSummon)
    } else if w == "unaffected_by spells"@ {
        Some(GrantAbility::UnaffectedBy(UnaffectedSource::Spells))
    } else if w == "unaffected_by traps"@ {
        Some(GrantAbility::UnaffectedBy(UnaffectedSource::Traps))
    } else if w == "unaffected_by monsters"@ {
        Some(GrantAbility::UnaffectedBy(UnaffectedSource::Monsters))
    } else if w == "unaffected_by effects"@ {
        Some(GrantAbility::UnaffectedBy(UnaffectedSource::Effects))
    } else if w == "unaffected_by opponent_effects"@ {
        Some(GrantAbility::UnaffectedBy(UnaffectedSource::OpponentEffects))
    } else if w == "piercing"@ {
        Some(GrantAbility::Piercing)
    } else if w == "direct_attack"@ {
        Some(GrantAbility::DirectAttack)
    } else if w == "double_attack"@ {
        Some(GrantAbility::DoubleAttack)
    } else if w == "triple_attack"@ {
        Some(GrantAbility::TripleAttack)
    } else if w == "attack_all_monsters"@ {
        Some(GrantAbility::AttackAllMonsters)
    } else if w == "must_attack"@ {
        Some(GrantAbility::MustAttack)
    } else if w == "immune_to_targeting"@ {
        Some(GrantAbility::ImmuneToTargeting)
    } else {
        None
    }
}

/// The GrantAbility a source word names, if any.
pub fn grant_ability_of(w: &str) -> (r: Option<GrantAbility>)
    ensures
        r == spec_grant_ability_of(w@),
{
    proof {
        reveal_strlit("attack_all_monsters");
        reveal_strlit("cannot_activate");
        reveal_strlit("cannot_activate effects");
        reveal_strlit("cannot_activate spells");
        reveal_strlit("cannot_activate traps");
        reveal_strlit("cannot_attack");
        reveal_strlit("cannot_attack_directly");
        reveal_strlit("cannot_be_destroyed");
        reveal_strlit("cannot_be_destroyed by battle");
        reveal_strlit("cannot_be_destroyed by effect");
        reveal_strlit("cannot_be_targeted");
        reveal_strlit("cannot_be_targeted by effects");
        reveal_strlit("cannot_be_targeted by monsters");
        reveal_strlit("cannot_be_targeted by opponent");
        reveal_strlit("cannot_be_targeted by spells");
        reveal_strlit("cannot_be_targeted by traps");
        reveal_strlit("cannot_be_tributed");
        reveal_strlit("cannot_be_used_as_material");
        reveal_strlit("cannot_change_position");
        reveal_strlit("cannot_normal_summon");
        reveal_strlit("cannot_special_summon");
        reveal_strlit("direct_attack");
        reveal_strlit("double_attack");
        reveal_strlit("immune_to_targeting");
        reveal_strlit("must_attack");
        reveal_strlit("piercing");
        reveal_strlit("triple_attack");
        reveal_strlit("unaffected_by effects");
        reveal_strlit("unaffected_by monsters");
        reveal_strlit("unaffected_by opponent_effects");
        reveal_strlit("unaffected_by spells");
        reveal_strlit("unaffected_by traps");
    }
    if str_eq(w, "cannot_attack") {
        Some(GrantAbility::CannotAttack)
    } else if str_eq(w, "cannot_attack_directly") {
        Some(GrantAbility::CannotAttackDirectly)
    } else if str_eq(w, "cannot_change_position") {
        Some(GrantAbility::CannotChangePosition)
    } else if str_eq(w, "cannot_be_destroyed") {
        Some(GrantAbility::CannotBeDestroyed(None))
    } else if str_eq(w, "cannot_be_destroyed by battle") {
        Some(GrantAbility::CannotBeDestroyed(Some(DestroyBy::Battle)))
    } else if str_eq(w, "cannot_be_destroyed by effect") {
        Some(GrantAbility::CannotBeDestroyed(Some(DestroyBy::Effect)))
    } else if str_eq(w, "cannot_be_targeted") {
        Some(GrantAbility::CannotBeTargeted(None))
    } else if str_eq(w, "cannot_be_targeted by spells") {
        Some(GrantAbility::CannotBeTargeted(Some(TargetedBy::Spells)))
    } else if str_eq(w, "cannot_be_targeted by traps") {
        Some(GrantAbility::CannotBeTargeted(Some(TargetedBy::Traps)))
    } else if str_eq(w, "cannot_be_targeted by monsters") {
        Some(GrantAbility::CannotBeTargeted(Some(TargetedBy::Monsters)))
    } else if str_eq(w, "cannot_be_targeted by effects") {
        Some(GrantAbility::CannotBeTargeted(Some(TargetedBy::Effects)))
    } else if str_eq(w, "cannot_be_targeted by opponent") {
        Some(GrantAbility::CannotBeTargeted(Some(TargetedBy::Opponent)))
    } else if str_eq(w, "cannot_be_tributed") {
        Some(GrantAbility::CannotBeTributed)
    } else if str_eq(w, "cannot_be_used_as_material") {
        Some(GrantAbility::CannotBeUsedAsMaterial)
    } else if str_eq(w, "cannot_activate") {
        Some(GrantAbility::CannotActivate(None))
    } else if str_eq(w, "cannot_activate effects") {
        Some(GrantAbility::CannotActivate(Some(ActivateWhat::Effects)))
    } else if str_eq(w, "cannot_activate spells") {
        Some(GrantAbility::CannotActivate(Some(ActivateWhat::Spells)))
    } else if str_eq(w, "cannot_activate traps") {
        Some(GrantAbility::CannotActivate(Some(ActivateWhat::Traps)))
    } else if str_eq(w, "cannot_normal_summon") {
        Some(GrantAbility::CannotNormalSummon)
    } else if str_eq(w, "cannot_special_summon") {
        Some(GrantAbility::CannotSpecialSummon)
    } else if str_eq(w, "unaffected_by spells") {
        Some(GrantAbility::UnaffectedBy(UnaffectedSource::Spells))
    } else if str_eq(w, "unaffected_by traps") {
        Some(GrantAbility::UnaffectedBy(UnaffectedSource::Traps))
    } else if str_eq(w, "unaffected_by monsters") {
        Some(GrantAbility::UnaffectedBy(UnaffectedSource::Monsters))
    } else if str_eq(w, "unaffected_by effects") {
        Some(GrantAbility::UnaffectedBy(UnaffectedSource::Effects))
    } else if str_eq(w, "unaffected_by opponent_effects") {
        Some(GrantAbility::UnaffectedBy(UnaffectedSource::OpponentEffects))
    } else if str_eq(w, "piercing") {
        Some(GrantAbility::Piercing)
    } else if str_eq(w, "direct_attack") {
        Some(GrantAbility::DirectAttack)
    } else if str_eq(w, "double_attack") {
        Some(GrantAbility::DoubleAttack)
    } else if str_eq(w, "triple_attack") {
        Some(GrantAbility::TripleAttack)
    } else if str_eq(w, "attack_all_monsters") {
        Some(GrantAbility::AttackAllMonsters)
    } else if str_eq(w, "must_attack") {
        Some(GrantAbility::MustAttack)
    } else if str_eq(w, "immune_to_targeting") {
        Some(GrantAbility::ImmuneToTargeting)
    } else {
        None
    }
}

// ── Laws ─────────────────────────────────────────────────────

/// The word the formatter writes for a zone reads back as the same value.
pub proof fn law_zone_word_roundtrip(v: Zone)
    ensures
        spec_zone_of(spec_zone_name(v)) == Some(v),
{
    reveal_strlit("banished");
    reveal_strlit("bottom_of_deck");
    reveal_strlit("deck");
    reveal_strlit("equipped");
    reveal_strlit("extra_deck");
    reveal_strlit("extra_deck_face_up");
    reveal_strlit("extra_monster_zone");
    reveal_strlit("field");
    reveal_strlit("field_zone");
    reveal_strlit("graveyard");
    reveal_strlit("gy");
    reveal_strlit("hand");
    reveal_strlit("monster_zone");
    reveal_strlit("overlay");
    reveal_strlit("pendulum_zone");
    reveal_strlit("spell_trap_zone");
    reveal_strlit("top_of_deck");
    match v {
        Zone::Hand => {  },
        Zone::Field => { assert("field"@[0] != "hand"@[0]); },
        Zone::Deck => { assert("deck"@[0] != "hand"@[0]); assert("deck"@[0] != "field"@[0]); },
        Zone::ExtraDeck => { assert("extra_deck"@[0] != "hand"@[0]); assert("extra_deck"@[0] != "field"@[0]); assert("extra_deck"@[0] != "deck"@[0]); },
        Zone::ExtraDeckFaceUp => { assert("extra_deck_face_up"@[0] != "hand"@[0]); assert("extra_deck_face_up"@[0] != "field"@[0]); assert("extra_deck_face_up"@[0] != "deck"@[0]); assert("extra_deck_face_up"@.len() != "extra_deck"@.len()); },
        Zone::Gy => { assert("gy"@[0] != "hand"@[0]); assert("gy"@[0] != "field"@[0]); assert("gy"@[0] != "deck"@[0]); assert("gy"@[0] != "extra_deck"@[0]); assert("gy"@[0] != "extra_deck_face_up"@[0]); },
        Zone::Banished => { assert("banished"@[0] != "hand"@[0]); assert("banished"@[0] != "field"@[0]); assert("banished"@[0] != "deck"@[0]); assert("banished"@[0] != "extra_deck"@[0]); assert("banished"@[0] != "extra_deck_face_up"@[0]); assert("banished"@[0] != "gy"@[0]); assert("banished"@[0] != "graveyard"@[0]); },
        Zone::MonsterZone => { assert("monster_zone"@[0] != "hand"@[0]); assert("monster_zone"@[0] != "field"@[0]); assert("monster_zone"@[0] != "deck"@[0]); assert("monster_zone"@[0] != "extra_deck"@[0]); assert("monster_zone"@[0] != "extra_deck_face_up"@[0]); assert("monster_zone"@[0] != "gy"@[0]); assert("monster_zone"@[0] != "graveyard"@[0]); assert("monster_zone"@[0] != "banished"@[0]); },
        Zone::SpellTrapZone => { assert("spell_trap_zone"@[0] != "hand"@[0]); assert("spell_trap_zone"@[0] != "field"@[0]); assert("spell_trap_zone"@[0] != "deck"@[0]); assert("spell_trap_zone"@[0] != "extra_deck"@[0]); assert("spell_trap_zone"@[0] != "extra_deck_face_up"@[0]); assert("spell_trap_zone"@[0] != "gy"@[0]); assert("spell_trap_zone"@[0] != "graveyard"@[0]); assert("spell_trap_zone"@[0] != "banished"@[0]); assert("spell_trap_zone"@[0] != "monster_zone"@[0]); },
        Zone::FieldZone => { assert("field_zone"@[0] != "hand"@[0]); assert("field_zone"@.len() != "field"@.len()); assert("field_zone"@[0] != "deck"@[0]); assert("field_zone"@[0] != "extra_deck"@[0]); assert("field_zone"@[0] != "extra_deck_face_up"@[0]); assert("field_zone"@[0] != "gy"@[0]); assert("field_zone"@[0] != "graveyard"@[0]); assert("field_zone"@[0] != "banished"@[0]); assert("field_zone"@[0] != "monster_zone"@[0]); assert("field_zone"@[0] != "spell_trap_zone"@[0]); },
        Zone::PendulumZone => { assert("pendulum_zone"@[0] != "hand"@[0]); assert("pendulum_zone"@[0] != "field"@[0]); assert("pendulum_zone"@[0] != "deck"@[0]); assert("pendulum_zone"@[0] != "extra_deck"@[0]); assert("pendulum_zone"@[0] != "extra_deck_face_up"@[0]); assert("pendulum_zone"@[0] != "gy"@[0]); assert("pendulum_zone"@[0] != "graveyard"@[0]); assert("pendulum_zone"@[0] != "banished"@[0]); assert("pendulum_zone"@[0] != "monster_zone"@[0]); assert("pendulum_zone"@[0] != "spell_trap_zone"@[0]); assert("pendulum_zone"@[0] != "field_zone"@[0]); },
        Zone::ExtraMonsterZone => { assert("extra_monster_zone"@[0] != "hand"@[0]); assert("extra_monster_zone"@[0] != "field"@[0]); assert("extra_monster_zone"@[0] != "deck"@[0]); assert("extra_monster_zone"@[6] != "extra_deck"@[6]); assert("extra_monster_zone"@[6] != "extra_deck_face_up"@[6]); assert("extra_monster_zone"@[0] != "gy"@[0]); assert("extra_monster_zone"@[0] != "graveyard"@[0]); assert("extra_monster_zone"@[0] != "banished"@[0]); assert("extra_monster_zone"@[0] != "monster_zone"@[0]); assert("extra_monster_zone"@[0] != "spell_trap_zone"@[0]); assert("extra_monster_zone"@[0] != "field_zone"@[0]); assert("extra_monster_zone"@[0] != "pendulum_zone"@[0]); },
        Zone::Overlay => { assert("overlay"@[0] != "hand"@[0]); assert("overlay"@[0] != "field"@[0]); assert("overlay"@[0] != "deck"@[0]); assert("overlay"@[0] != "extra_deck"@[0]); assert("overlay"@[0] != "extra_deck_face_up"@[0]); assert("overlay"@[0] != "gy"@[0]); assert("overlay"@[0] != "graveyard"@[0]); assert("overlay"@[0] != "banished"@[0]); assert("overlay"@[0] != "monster_zone"@[0]); assert("overlay"@[0] != "spell_trap_zone"@[0]); assert("overlay"@[0] != "field_zone"@[0]); assert("overlay"@[0] != "pendulum_zone"@[0]); assert("overlay"@[0] != "extra_monster_zone"@[0]); },
        Zone::Equipped => { assert("equipped"@[0] != "hand"@[0]); assert("equipped"@[0] != "field"@[0]); assert("equipped"@[0] != "deck"@[0]); assert("equipped"@[1] != "extra_deck"@[1]); assert("equipped"@[1] != "extra_deck_face_up"@[1]); assert("equipped"@[0] != "gy"@[0]); assert("equipped"@[0] != "graveyard"@[0]); assert("equipped"@[0] != "banished"@[0]); assert("equipped"@[0] != "monster_zone"@[0]); assert("equipped"@[0] != "spell_trap_zone"@[0]); assert("equipped"@[0] != "field_zone"@[0]); assert("equipped"@[0] != "pendulum_zone"@[0]); assert("equipped"@[1] != "extra_monster_zone"@[1]); assert("equipped"@[0] != "overlay"@[0]); },
        Zone::TopOfDeck => { assert("top_of_deck"@[0] != "hand"@[0]); assert("top_of_deck"@[0] != "field"@[0]); assert("top_of_deck"@[0] != "deck"@[0]); assert("top_of_deck"@[0] != "extra_deck"@[0]); assert("top_of_deck"@[0] != "extra_deck_face_up"@[0]); assert("top_of_deck"@[0] != "gy"@[0]); assert("top_of_deck"@[0] != "graveyard"@[0]); assert("top_of_deck"@[0] != "banished"@[0]); assert("top_of_deck"@[0] != "monster_zone"@[0]); assert("top_of_deck"@[0] != "spell_trap_zone"@[0]); assert("top_of_deck"@[0] != "field_zone"@[0]); assert("top_of_deck"@[0] != "pendulum_zone"@[0]); assert("top_of_deck"@[0] != "extra_monster_zone"@[0]); assert("top_of_deck"@[0] != "overlay"@[0]); assert("top_of_deck"@[0] != "equipped"@[0]); },
        Zone::BottomOfDeck => { assert("bottom_of_deck"@[0] != "hand"@[0]); assert("bottom_of_deck"@[0] != "field"@[0]); assert("bottom_of_deck"@[0] != "deck"@[0]); assert("bottom_of_deck"@[0] != "extra_deck"@[0]); assert("bottom_of_deck"@[0] != "extra_deck_face_up"@[0]); assert("bottom_of_deck"@[0] != "gy"@[0]); assert("bottom_of_deck"@[0] != "graveyard"@[0]); assert("bottom_of_deck"@[1] != "banished"@[1]); assert("bottom_of_deck"@[0] != "monster_zone"@[0]); assert("bottom_of_deck"@[0] != "spell_trap_zone"@[0]); assert("bottom_of_deck"@[0] != "field_zone"@[0]); assert("bottom_of_deck"@[0] != "pendulum_zone"@[0]); assert("bottom_of_deck"@[0] != "extra_monster_zone"@[0]); assert("bottom_of_deck"@[0] != "overlay"@[0]); assert("bottom_of_deck"@[0] != "equipped"@[0]); assert("bottom_of_deck"@[0] != "top_of_deck"@[0]); },
    }
}

/// The word the formatter writes for a card type reads back as the same value.
pub proof fn law_card_type_word_roundtrip(v: CardType)
    ensures
        spec_card_type_of(spec_card_type_name(v)) == Some(v),
{
    reveal_strlit("Continuous Spell");
    reveal_strlit("Continuous Trap");
    reveal_strlit("Counter Trap");
    reveal_strlit("Effect Monster");
    reveal_strlit("Equip Spell");
    reveal_strlit("Field Spell");
    reveal_strlit("Flip");
    reveal_strlit("Fusion Monster");
    reveal_strlit("Gemini");
    reveal_strlit("Link Monster");
    reveal_strlit("Normal Monster");
    reveal_strlit("Normal Spell");
    reveal_strlit("Normal Trap");
    reveal_strlit("Pendulum Monster");
    reveal_strlit("Quick-Play Spell");
    reveal_strlit("Ritual Monster");
    reveal_strlit("Ritual Spell");
    reveal_strlit("Spirit");
    reveal_strlit("Synchro Monster");
    reveal_strlit("Synchro Tuner");
    reveal_strlit("Toon");
    reveal_strlit("Tuner");
    reveal_strlit("Union");
    reveal_strlit("Xyz Monster");
    match v {
        CardType::NormalMonster => {  },
        CardType::EffectMonster => { assert("Effect Monster"@[0] != "Normal Monster"@[0]); },
        CardType::RitualMonster => { assert("Ritual Monster"@[0] != "Normal Monster"@[0]); assert("Ritual Monster"@[0] != "Effect Monster"@[0]); },
        CardType::FusionMonster => { assert("Fusion Monster"@[0] != "Normal Monster"@[0]); assert("Fusion Monster"@[0] != "Effect Monster"@[0]); assert("Fusion Monster"@[0] != "Ritual Monster"@[0]); },
        CardType::SynchroMonster => { assert("Synchro Monster"@[0] != "Normal Monster"@[0]); assert("Synchro Monster"@[0] != "Effect Monster"@[0]); assert("Synchro Monster"@[0] != "Ritual Monster"@[0]); assert("Synchro Monster"@[0] != "Fusion Monster"@[0]); },
        CardType::XyzMonster => { assert("Xyz Monster"@[0] != "Normal Monster"@[0]); assert("Xyz Monster"@[0] != "Effect Monster"@[0]); assert("Xyz Monster"@[0] != "Ritual Monster"@[0]); assert("Xyz Monster"@[0] != "Fusion Monster"@[0]); assert("Xyz Monster"@[0] != "Synchro Monster"@[0]); },
        CardType::LinkMonster => { assert("Link Monster"@[0] != "Normal Monster"@[0]); assert("Link Monster"@[0] != "Effect Monster"@[0]); assert("Link Monster"@[0] != "Ritual Monster"@[0]); assert("Link Monster"@[0] != "Fusion Monster"@[0]); assert("Link Monster"@[0] != "Synchro Monster"@[0]); assert("Link Monster"@[0] != "Xyz Monster"@[0]); },
        CardType::PendulumMonster => { assert("Pendulum Monster"@[0] != "Normal Monster"@[0]); assert("Pendulum Monster"@[0] != "Effect Monster"@[0]); assert("Pendulum Monster"@[0] != "Ritual Monster"@[0]); assert("Pendulum Monster"@[0] != "Fusion Monster"@[0]); assert("Pendulum Monster"@[0] != "Synchro Monster"@[0]); assert("Pendulum Monster"@[0] != "Xyz Monster"@[0]); assert("Pendulum Monster"@[0] != "Link Monster"@[0]); },
        CardType::Tuner => { assert("Tuner"@[0] != "Normal Monster"@[0]); assert("Tuner"@[0] != "Effect Monster"@[0]); assert("Tuner"@[0] != "Ritual Monster"@[0]); assert("Tuner"@[0] != "Fusion Monster"@[0]); assert("Tuner"@[0] != "Synchro Monster"@[0]); assert("Tuner"@[0] != "Xyz Monster"@[0]); assert("Tuner"@[0] != "Link Monster"@[0]); assert("Tuner"@[0] != "Pendulum Monster"@[0]); },
        CardType::SynchroTuner => { assert("Synchro Tuner"@[0] != "Normal Monster"@[0]); assert("Synchro Tuner"@[0] != "Effect Monster"@[0]); assert("Synchro Tuner"@[0] != "Ritual Monster"@[0]); assert("Synchro Tuner"@[0] != "Fusion Monster"@[0]); assert("Synchro Tuner"@[8] != "Synchro Monster"@[8]); assert("Synchro Tuner"@[0] != "Xyz Monster"@[0]); assert("Synchro Tuner"@[0] != "Link Monster"@[0]); assert("Synchro Tuner"@[0] != "Pendulum Monster"@[0]); assert("Synchro Tuner"@[0] != "Tuner"@[0]); },
        CardType::Flip => { assert("Flip"@[0] != "Normal Monster"@[0]); assert("Flip"@[0] != "Effect Monster"@[0]); assert("Flip"@[0] != "Ritual Monster"@[0]); assert("Flip"@[1] != "Fusion Monster"@[1]); assert("Flip"@[0] != "Synchro Monster"@[0]); assert("Flip"@[0] != "Xyz Monster"@[0]); assert("Flip"@[0] != "Link Monster"@[0]); assert("Flip"@[0] != "Pendulum Monster"@[0]); assert("Flip"@[0] != "Tuner"@[0]); assert("Flip"@[0] != "Synchro Tuner"@[0]); },
        CardType::Gemini => { assert("Gemini"@[0] != "Normal Monster"@[0]); assert("Gemini"@[0] != "Effect Monster"@[0]); assert("Gemini"@[0] != "Ritual Monster"@[0]); assert("Gemini"@[0] != "Fusion Monster"@[0]); assert("Gemini"@[0] != "Synchro Monster"@[0]); assert("Gemini"@[0] != "Xyz Monster"@[0]); assert("Gemini"@[0] != "Link Monster"@[0]); assert("Gemini"@[0] != "Pendulum Monster"@[0]); assert("Gemini"@[0] != "Tuner"@[0]); assert("Gemini"@[0] != "Synchro Tuner"@[0]); assert("Gemini"@[0] != "Flip"@[0]); },
        CardType::Union => { assert("Union"@[0] != "Normal Monster"@[0]); assert("Union"@[0] != "Effect Monster"@[0]); assert("Union"@[0] != "Ritual Monster"@[0]); assert("Union"@[0] != "Fusion Monster"@[0]); assert("Union"@[0] != "Synchro Monster"@[0]); assert("Union"@[0] != "Xyz Monster"@[0]); assert("Union"@[0] != "Link Monster"@[0]); assert("Union"@[0] != "Pendulum Monster"@[0]); assert("Union"@[0] != "Tuner"@[0]); assert("Union"@[0] != "Synchro Tuner"@[0]); assert("Union"@[0] != "Flip"@[0]); assert("Union"@[0] != "Gemini"@[0]); },
        CardType::Spirit => { assert("Spirit"@[0] != "Normal Monster"@[0]); assert("Spirit"@[0] != "Effect Monster"@[0]); assert("Spirit"@[0] != "Ritual Monster"@[0]); assert("Spirit"@[0] != "Fusion Monster"@[0]); assert("Spirit"@[1] != "Synchro Monster"@[1]); assert("Spirit"@[0] != "Xyz Monster"@[0]); assert("Spirit"@[0] != "Link Monster"@[0]); assert("Spirit"@[0] != "Pendulum Monster"@[0]); assert("Spirit"@[0] != "Tuner"@[0]); assert("Spirit"@[1] != "Synchro Tuner"@[1]); assert("Spirit"@[0] != "Flip"@[0]); assert("Spirit"@[0] != "Gemini"@[0]); assert("Spirit"@[0] != "Union"@[0]); },
        CardType::Toon => { assert("Toon"@[0] != "Normal Monster"@[0]); assert("Toon"@[0] != "Effect Monster"@[0]); assert("Toon"@[0] != "Ritual Monster"@[0]); assert("Toon"@[0] != "Fusion Monster"@[0]); assert("Toon"@[0] != "Synchro Monster"@[0]); assert("Toon"@[0] != "Xyz Monster"@[0]); assert("Toon"@[0] != "Link Monster"@[0]); assert("Toon"@[0] != "Pendulum Monster"@[0]); assert("Toon"@[1] != "Tuner"@[1]); assert("Toon"@[0] != "Synchro Tuner"@[0]); assert("Toon"@[0] != "Flip"@[0]); assert("Toon"@[0] != "Gemini"@[0]); assert("Toon"@[0] != "Union"@[0]); assert("Toon"@[0] != "Spirit"@[0]); },
        CardType::NormalSpell => { assert("Normal Spell"@[7] != "Normal Monster"@[7]); assert("Normal Spell"@[0] != "Effect Monster"@[0]); assert("Normal Spell"@[0] != "Ritual Monster"@[0]); assert("Normal Spell"@[0] != "Fusion Monster"@[0]); assert("Normal Spell"@[0] != "Synchro Monster"@[0]); assert("Normal Spell"@[0] != "Xyz Monster"@[0]); assert("Normal Spell"@[0] != "Link Monster"@[0]); assert("Normal Spell"@[0] != "Pendulum Monster"@[0]); assert("Normal Spell"@[0] != "Tuner"@[0]); assert("Normal Spell"@[0] != "Synchro Tuner"@[0]); assert("Normal Spell"@[0] != "Flip"@[0]); assert("Normal Spell"@[0] != "Gemini"@[0]); assert("Normal Spell"@[0] != "Union"@[0]); assert("Normal Spell"@[0] != "Spirit"@[0]); assert("Normal Spell"@[0] != "Toon"@[0]); },
        CardType::QuickPlaySpell => { assert("Quick-Play Spell"@[0] != "Normal Monster"@[0]); assert("Quick-Play Spell"@[0] != "Effect Monster"@[0]); assert("Quick-Play Spell"@[0] != "Ritual Monster"@[0]); assert("Quick-Play Spell"@[0] != "Fusion Monster"@[0]); assert("Quick-Play Spell"@[0] != "Synchro Monster"@[0]); assert("Quick-Play Spell"@[0] != "Xyz Monster"@[0]); assert("Quick-Play Spell"@[0] != "Link Monster"@[0]); assert("Quick-Play Spell"@[0] != "Pendulum Monster"@[0]); assert("Quick-Play Spell"@[0] != "Tuner"@[0]); assert("Quick-Play Spell"@[0] != "Synchro Tuner"@[0]); assert("Quick-Play Spell"@[0] != "Flip"@[0]); assert("Quick-Play Spell"@[0] != "Gemini"@[0]); assert("Quick-Play Spell"@[0] != "Union"@[0]); assert("Quick-Play Spell"@[0] != "Spirit"@[0]); assert("Quick-Play Spell"@[0] != "Toon"@[0]); assert("Quick-Play Spell"@[0] != "Normal Spell"@[0]); },
        CardType::ContinuousSpell => { assert("Continuous Spell"@[0] != "Normal Monster"@[0]); assert("Continuous Spell"@[0] != "Effect Monster"@[0]); assert("Continuous Spell"@[0] != "Ritual Monster"@[0]); assert("Continuous Spell"@[0] != "Fusion Monster"@[0]); assert("Continuous Spell"@[0] != "Synchro Monster"@[0]); assert("Continuous Spell"@[0] != "Xyz Monster"@[0]); assert("Continuous Spell"@[0] != "Link Monster"@[0]); assert("Continuous Spell"@[0] != "Pendulum Monster"@[0]); assert("Continuous Spell"@[0] != "Tuner"@[0]); assert("Continuous Spell"@[0] != "Synchro Tuner"@[0]); assert("Continuous Spell"@[0] != "Flip"@[0]); assert("Continuous Spell"@[0] != "Gemini"@[0]); assert("Continuous Spell"@[0] != "Union"@[0]); assert("Continuous Spell"@[0] != "Spirit"@[0]); assert("Continuous Spell"@[0] != "Toon"@[0]); assert("Continuous Spell"@[0] != "Normal Spell"@[0]); assert("Continuous Spell"@[0] != "Quick-Play Spell"@[0]); },
        CardType::EquipSpell => { assert("Equip Spell"@[0] != "Normal Monster"@[0]); assert("Equip Spell"@[1] != "Effect Monster"@[1]); assert("Equip Spell"@[0] != "Ritual Monster"@[0]); assert("Equip Spell"@[0] != "Fusion Monster"@[0]); assert("Equip Spell"@[0] != "Synchro Monster"@[0]); assert("Equip Spell"@[0] != "Xyz Monster"@[0]); assert("Equip Spell"@[0] != "Link Monster"@[0]); assert("Equip Spell"@[0] != "Pendulum Monster"@[0]); assert("Equip Spell"@[0] != "Tuner"@[0]); assert("Equip Spell"@[0] != "Synchro Tuner"@[0]); assert("Equip Spell"@[0] != "Flip"@[0]); assert("Equip Spell"@[0] != "Gemini"@[0]); assert("Equip Spell"@[0] != "Union"@[0]); assert("Equip Spell"@[0] != "Spirit"@[0]); assert("Equip Spell"@[0] != "Toon"@[0]); assert("Equip Spell"@[0] != "Normal Spell"@[0]); assert("Equip Spell"@[0] != "Quick-Play Spell"@[0]); assert("Equip Spell"@[0] != "Continuous Spell"@[0]); },
        CardType::FieldSpell => { assert("Field Spell"@[0] != "Normal Monster"@[0]); assert("Field Spell"@[0] != "Effect Monster"@[0]); assert("Field Spell"@[0] != "Ritual Monster"@[0]); assert("Field Spell"@[1] != "Fusion Monster"@[1]); assert("Field Spell"@[0] != "Synchro Monster"@[0]); assert("Field Spell"@[0] != "Xyz Monster"@[0]); assert("Field Spell"@[0] != "Link Monster"@[0]); assert("Field Spell"@[0] != "Pendulum Monster"@[0]); assert("Field Spell"@[0] != "Tuner"@[0]); assert("Field Spell"@[0] != "Synchro Tuner"@[0]); assert("Field Spell"@[1] != "Flip"@[1]); assert("Field Spell"@[0] != "Gemini"@[0]); assert("Field Spell"@[0] != "Union"@[0]); assert("Field Spell"@[0] != "Spirit"@[0]); assert("Field Spell"@[0] != "Toon"@[0]); assert("Field Spell"@[0] != "Normal Spell"@[0]); assert("Field Spell"@[0] != "Quick-Play Spell"@[0]); assert("Field Spell"@[0] != "Continuous Spell"@[0]); assert("Field Spell"@[0] != "Equip Spell"@[0]); },
        CardType::RitualSpell => { assert("Ritual Spell"@[0] != "Normal Monster"@[0]); assert("Ritual Spell"@[0] != "Effect Monster"@[0]); assert("Ritual Spell"@[7] != "Ritual Monster"@[7]); assert("Ritual Spell"@[0] != "Fusion Monster"@[0]); assert("Ritual Spell"@[0] != "Synchro Monster"@[0]); assert("Ritual Spell"@[0] != "Xyz Monster"@[0]); assert("Ritual Spell"@[0] != "Link Monster"@[0]); assert("Ritual Spell"@[0] != "Pendulum Monster"@[0]); assert("Ritual Spell"@[0] != "Tuner"@[0]); assert("Ritual Spell"@[0] != "Synchro Tuner"@[0]); assert("Ritual Spell"@[0] != "Flip"@[0]); assert("Ritual Spell"@[0] != "Gemini"@[0]); assert("Ritual Spell"@[0] != "Union"@[0]); assert("Ritual Spell"@[0] != "Spirit"@[0]); assert("Ritual Spell"@[0] != "Toon"@[0]); assert("Ritual Spell"@[0] != "Normal Spell"@[0]); assert("Ritual Spell"@[0] != "Quick-Play Spell"@[0]); assert("Ritual Spell"@[0] != "Continuous Spell"@[0]); assert("Ritual Spell"@[0] != "Equip Spell"@[0]); assert("Ritual Spell"@[0] != "Field Spell"@[0]); },
        CardType::NormalTrap => { assert("Normal Trap"@[7] != "Normal Monster"@[7]); assert("Normal Trap"@[0] != "Effect Monster"@[0]); assert("Normal Trap"@[0] != "Ritual Monster"@[0]); assert("Normal Trap"@[0] != "Fusion Monster"@[0]); assert("Normal Trap"@[0] != "Synchro Monster"@[0]); assert("Normal Trap"@[0] != "Xyz Monster"@[0]); assert("Normal Trap"@[0] != "Link Monster"@[0]); assert("Normal Trap"@[0] != "Pendulum Monster"@[0]); assert("Normal Trap"@[0] != "Tuner"@[0]); assert("Normal Trap"@[0] != "Synchro Tuner"@[0]); assert("Normal Trap"@[0] != "Flip"@[0]); assert("Normal Trap"@[0] != "Gemini"@[0]); assert("Normal Trap"@[0] != "Union"@[0]); assert("Normal Trap"@[0] != "Spirit"@[0]); assert("Normal Trap"@[0] != "Toon"@[0]); assert("Normal Trap"@[7] != "Normal Spell"@[7]); assert("Normal Trap"@[0] != "Quick-Play Spell"@[0]); assert("Normal Trap"@[0] != "Continuous Spell"@[0]); assert("Normal Trap"@[0] != "Equip Spell"@[0]); assert("Normal Trap"@[0] != "Field Spell"@[0]); assert("Normal Trap"@[0] != "Ritual Spell"@[0]); },
        CardType::CounterTrap => { assert("Counter Trap"@[0] != "Normal Monster"@[0]); assert("Counter Trap"@[0] != "Effect Monster"@[0]); assert("Counter Trap"@[0] != "Ritual Monster"@[0]); assert("Counter Trap"@[0] != "Fusion Monster"@[0]); assert("Counter Trap"@[0] != "Synchro Monster"@[0]); assert("Counter Trap"@[0] != "Xyz Monster"@[0]); assert("Counter Trap"@[0] != "Link Monster"@[0]); assert("Counter Trap"@[0] != "Pendulum Monster"@[0]); assert("Counter Trap"@[0] != "Tuner"@[0]); assert("Counter Trap"@[0] != "Synchro Tuner"@[0]); assert("Counter Trap"@[0] != "Flip"@[0]); assert("Counter Trap"@[0] != "Gemini"@[0]); assert("Counter Trap"@[0] != "Union"@[0]); assert("Counter Trap"@[0] != "Spirit"@[0]); assert("Counter Trap"@[0] != "Toon"@[0]); assert("Counter Trap"@[0] != "Normal Spell"@[0]); assert("Counter Trap"@[0] != "Quick-Play Spell"@[0]); assert("Counter Trap"@[2] != "Continuous Spell"@[2]); assert("Counter Trap"@[0] != "Equip Spell"@[0]); assert("Counter Trap"@[0] != "Field Spell"@[0]); assert("Counter Trap"@[0] != "Ritual Spell"@[0]); assert("Counter Trap"@[0] != "Normal Trap"@[0]); },
        CardType::ContinuousTrap => { assert("Continuous Trap"@[0] != "Normal Monster"@[0]); assert("Continuous Trap"@[0] != "Effect Monster"@[0]); assert("Continuous Trap"@[0] != "Ritual Monster"@[0]); assert("Continuous Trap"@[0] != "Fusion Monster"@[0]); assert("Continuous Trap"@[0] != "Synchro Monster"@[0]); assert("Continuous Trap"@[0] != "Xyz Monster"@[0]); assert("Continuous Trap"@[0] != "Link Monster"@[0]); assert("Continuous Trap"@[0] != "Pendulum Monster"@[0]); assert("Continuous Trap"@[0] != "Tuner"@[0]); assert("Continuous Trap"@[0] != "Synchro Tuner"@[0]); assert("Continuous Trap"@[0] != "Flip"@[0]); assert("Continuous Trap"@[0] != "Gemini"@[0]); assert("Continuous Trap"@[0] != "Union"@[0]); assert("Continuous Trap"@[0] != "Spirit"@[0]); assert("Continuous Trap"@[0] != "Toon"@[0]); assert("Continuous Trap"@[0] != "Normal Spell"@[0]); assert("Continuous Trap"@[0] != "Quick-Play Spell"@[0]); assert("Continuous Trap"@[11] != "Continuous Spell"@[11]); assert("Continuous Trap"@[0] != "Equip Spell"@[0]); assert("Continuous Trap"@[0] != "Field Spell"@[0]); assert("Continuous Trap"@[0] != "Ritual Spell"@[0]); assert("Continuous Trap"@[0] != "Normal Trap"@[0]); assert("Continuous Trap"@[2] != "Counter Trap"@[2]); },
    }
}

/// The word the formatter writes for an attribute reads back as the same value.
pub proof fn law_attribute_word_roundtrip(v: Attribute)
    ensures
        spec_attribute_of(spec_attribute_name(v)) == Some(v),
{
    reveal_strlit("DARK");
    reveal_strlit("DIVINE");
    reveal_strlit("EARTH");
    reveal_strlit("FIRE");
    reveal_strlit("LIGHT");
    reveal_strlit("WATER");
    reveal_strlit("WIND");
    match v {
        Attribute::Light => {  },
        Attribute::Dark => { assert("DARK"@[0] != "LIGHT"@[0]); },
        Attribute::Fire => { assert("FIRE"@[0] != "LIGHT"@[0]); assert("FIRE"@[0] != "DARK"@[0]); },
        Attribute::Water => { assert("WATER"@[0] != "LIGHT"@[0]); assert("WATER"@[0] != "DARK"@[0]); assert("WATER"@[0] != "FIRE"@[0]); },
        Attribute::Earth => { assert("EARTH"@[0] != "LIGHT"@[0]); assert("EARTH"@[0] != "DARK"@[0]); assert("EARTH"@[0] != "FIRE"@[0]); assert("EARTH"@[0] != "WATER"@[0]); },
        Attribute::Wind => { assert("WIND"@[0] != "LIGHT"@[0]); assert("WIND"@[0] != "DARK"@[0]); assert("WIND"@[0] != "FIRE"@[0]); assert("WIND"@[1] != "WATER"@[1]); assert("WIND"@[0] != "EARTH"@[0]); },
        Attribute::Divine => { assert("DIVINE"@[0] != "LIGHT"@[0]); assert("DIVINE"@[1] != "DARK"@[1]); assert("DIVINE"@[0] != "FIRE"@[0]); assert("DIVINE"@[0] != "WATER"@[0]); assert("DIVINE"@[0] != "EARTH"@[0]); assert("DIVINE"@[0] != "WIND"@[0]); },
    }
}

/// The word the formatter writes for a race reads back as the same value.
pub proof fn law_race_word_roundtrip(v: Race)
    ensures
        spec_race_of(spec_race_name(v)) == Some(v),
{
    reveal_strlit("Aqua");
    reveal_strlit("Beast");
    reveal_strlit("Beast-Warrior");
    reveal_strlit("Cyberse");
    reveal_strlit("Dinosaur");
    reveal_strlit("Divine-Beast");
    reveal_strlit("Dragon");
    reveal_strlit("Fairy");
    reveal_strlit("Fiend");
    reveal_strlit("Fish");
    reveal_strlit("Illusion");
    reveal_strlit("Insect");
    reveal_strlit("Machine");
    reveal_strlit("Plant");
    reveal_strlit("Psychic");
    reveal_strlit("Pyro");
    reveal_strlit("Reptile");
    reveal_strlit("Rock");
    reveal_strlit("Sea Serpent");
    reveal_strlit("Spellcaster");
    reveal_strlit("Thunder");
    reveal_strlit("Warrior");
    reveal_strlit("Winged Beast");
    reveal_strlit("Wyrm");
    reveal_strlit("Zombie");
    match v {
        Race::Dragon => {  },
        Race::Spellcaster => { assert("Spellcaster"@[0] != "Dragon"@[0]); },
        Race::Zombie => { assert("Zombie"@[0] != "Dragon"@[0]); assert("Zombie"@[0] != "Spellcaster"@[0]); },
        Race::Warrior => { assert("Warrior"@[0] != "Dragon"@[0]); assert("Warrior"@[0] != "Spellcaster"@[0]); assert("Warrior"@[0] != "Zombie"@[0]); },
        Race::BeastWarrior => { assert("Beast-Warrior"@[0] != "Dragon"@[0]); assert("Beast-Warrior"@[0] != "Spellcaster"@[0]); assert("Beast-Warrior"@[0] != "Zombie"@[0]); assert("Beast-Warrior"@[0] != "Warrior"@[0]); },
        Race::Beast => { assert("Beast"@[0] != "Dragon"@[0]); assert("Beast"@[0] != "Spellcaster"@[0]); assert("Beast"@[0] != "Zombie"@[0]); assert("Beast"@[0] != "Warrior"@[0]); assert("Beast"@.len() != "Beast-Warrior"@.len()); },
        Race::WingedBeast => { assert("Winged Beast"@[0] != "Dragon"@[0]); assert("Winged Beast"@[0] != "Spellcaster"@[0]); assert("Winged Beast"@[0] != "Zombie"@[0]); assert("Winged Beast"@[1] != "Warrior"@[1]); assert("Winged Beast"@[0] != "Beast-Warrior"@[0]); assert("Winged Beast"@[0] != "Beast"@[0]); },
        Race::Fiend => { assert("Fiend"@[0] != "Dragon"@[0]); assert("Fiend"@[0] != "Spellcaster"@[0]); assert("Fiend"@[0] != "Zombie"@[0]); assert("Fiend"@[0] != "Warrior"@[0]); assert("Fiend"@[0] != "Beast-Warrior"@[0]); assert("Fiend"@[0] != "Beast"@[0]); assert("Fiend"@[0] != "Winged Beast"@[0]); },
        Race::Fairy => { assert("Fairy"@[0] != "Dragon"@[0]); assert("Fairy"@[0] != "Spellcaster"@[0]); assert("Fairy"@[0] != "Zombie"@[0]); assert("Fairy"@[0] != "Warrior"@[0]); assert("Fairy"@[0] != "Beast-Warrior"@[0]); assert("Fairy"@[0] != "Beast"@[0]); assert("Fairy"@[0] != "Winged Beast"@[0]); assert("Fairy"@[1] != "Fiend"@[1]); },
        Race::Insect => { assert("Insect"@[0] != "Dragon"@[0]); assert("Insect"@[0] != "Spellcaster"@[0]); assert("Insect"@[0] != "Zombie"@[0]); assert("Insect"@[0] != "Warrior"@[0]); assert("Insect"@[0] != "Beast-Warrior"@[0]); assert("Insect"@[0] != "Beast"@[0]); assert("Insect"@[0] != "Winged Beast"@[0]); assert("Insect"@[0] != "Fiend"@[0]); assert("Insect"@[0] != "Fairy"@[0]); },
        Race::Dinosaur => { assert("Dinosaur"@[1] != "Dragon"@[1]); assert("Dinosaur"@[0] != "Spellcaster"@[0]); assert("Dinosaur"@[0] != "Zombie"@[0]); assert("Dinosaur"@[0] != "Warrior"@[0]); assert("Dinosaur"@[0] != "Beast-Warrior"@[0]); assert("Dinosaur"@[0] != "Beast"@[0]); assert("Dinosaur"@[0] != "Winged Beast"@[0]); assert("Dinosaur"@[0] != "Fiend"@[0]); assert("Dinosaur"@[0] != "Fairy"@[0]); assert("Dinosaur"@[0] != "Insect"@[0]); },
        Race::Reptile => { assert("Reptile"@[0] != "Dragon"@[0]); assert("Reptile"@[0] != "Spellcaster"@[0]); assert("Reptile"@[0] != "Zombie"@[0]); assert("Reptile"@[0] != "Warrior"@[0]); assert("Reptile"@[0] != "Beast-Warrior"@[0]); assert("Reptile"@[0] != "Beast"@[0]); assert("Reptile"@[0] != "Winged Beast"@[0]); assert("Reptile"@[0] != "Fiend"@[0]); assert("Reptile"@[0] != "Fairy"@[0]); assert("Reptile"@[0] != "Insect"@[0]); assert("Reptile"@[0] != "Dinosaur"@[0]); },
        Race::Fish => { assert("Fish"@[0] != "Dragon"@[0]); assert("Fish"@[0] != "Spellcaster"@[0]); assert("Fish"@[0] != "Zombie"@[0]); assert("Fish"@[0] != "Warrior"@[0]); assert("Fish"@[0] != "Beast-Warrior"@[0]); assert("Fish"@[0] != "Beast"@[0]); assert("Fish"@[0] != "Winged Beast"@[0]); assert("Fish"@[2] != "Fiend"@[2]); assert("Fish"@[1] != "Fairy"@[1]); assert("Fish"@[0] != "Insect"@[0]); assert("Fish"@[0] != "Dinosaur"@[0]); assert("Fish"@[0] != "Reptile"@[0]); },
        Race::SeaSerpent => { assert("Sea Serpent"@[0] != "Dragon"@[0]); assert("Sea Serpent"@[1] != "Spellcaster"@[1]); assert("Sea Serpent"@[0] != "Zombie"@[0]); assert("Sea Serpent"@[0] != "Warrior"@[0]); assert("Sea Serpent"@[0] != "Beast-Warrior"@[0]); assert("Sea Serpent"@[0] != "Beast"@[0]); assert("Sea Serpent"@[0] != "Winged Beast"@[0]); assert("Sea Serpent"@[0] != "Fiend"@[0]); assert("Sea Serpent"@[0] != "Fairy"@[0]); assert("Sea Serpent"@[0] != "Insect"@[0]); assert("Sea Serpent"@[0] != "Dinosaur"@[0]); assert("Sea Serpent"@[0] != "Reptile"@[0]); assert("Sea Serpent"@[0] != "Fish"@[0]); },
        Race::Aqua => { assert("Aqua"@[0] != "Dragon"@[0]); assert("Aqua"@[0] != "Spellcaster"@[0]); assert("Aqua"@[0] != "Zombie"@[0]); assert("Aqua"@[0] != "Warrior"@[0]); assert("Aqua"@[0] != "Beast-Warrior"@[0]); assert("Aqua"@[0] != "Beast"@[0]); assert("Aqua"@[0] != "Winged Beast"@[0]); assert("Aqua"@[0] != "Fiend"@[0]); assert("Aqua"@[0] != "Fairy"@[0]); assert("Aqua"@[0] != "Insect"@[0]); assert("Aqua"@[0] != "Dinosaur"@[0]); assert("Aqua"@[0] != "Reptile"@[0]); assert("Aqua"@[0] != "Fish"@[0]); assert("Aqua"@[0] != "Sea Serpent"@[0]); },
        Race::Pyro => { assert("Pyro"@[0] != "Dragon"@[0]); assert("Pyro"@[0] != "Spellcaster"@[0]); assert("Pyro"@[0] != "Zombie"@[0]); assert("Pyro"@[0] != "Warrior"@[0]); assert("Pyro"@[0] != "Beast-Warrior"@[0]); assert("Pyro"@[0] != "Beast"@[0]); assert("Pyro"@[0] != "Winged Beast"@[0]); assert("Pyro"@[0] != "Fiend"@[0]); assert("Pyro"@[0] != "Fairy"@[0]); assert("Pyro"@[0] != "Insect"@[0]); assert("Pyro"@[0] != "Dinosaur"@[0]); assert("Pyro"@[0] != "Reptile"@[0]); assert("Pyro"@[0] != "Fish"@[0]); assert("Pyro"@[0] != "Sea Serpent"@[0]); assert("Pyro"@[0] != "Aqua"@[0]); },
        Race::Thunder => { assert("Thunder"@[0] != "Dragon"@[0]); assert("Thunder"@[0] != "Spellcaster"@[0]); assert("Thunder"@[0] != "Zombie"@[0]); assert("Thunder"@[0] != "Warrior"@[0]); assert("Thunder"@[0] != "Beast-Warrior"@[0]); assert("Thunder"@[0] != "Beast"@[0]); assert("Thunder"@[0] != "Winged Beast"@[0]); assert("Thunder"@[0] != "Fiend"@[0]); assert("Thunder"@[0] != "Fairy"@[0]); assert("Thunder"@[0] != "Insect"@[0]); assert("Thunder"@[0] != "Dinosaur"@[0]); assert("Thunder"@[0] != "Reptile"@[0]); assert("Thunder"@[0] != "Fish"@[0]); assert("Thunder"@[0] != "Sea Serpent"@[0]); assert("Thunder"@[0] != "Aqua"@[0]); assert("Thunder"@[0] != "Pyro"@[0]); },
        Race::Rock => { assert("Rock"@[0] != "Dragon"@[0]); assert("Rock"@[0] != "Spellcaster"@[0]); assert("Rock"@[0] != "Zombie"@[0]); assert("Rock"@[0] != "Warrior"@[0]); assert("Rock"@[0] != "Beast-Warrior"@[0]); assert("Rock"@[0] != "Beast"@[0]); assert("Rock"@[0] != "Winged Beast"@[0]); assert("Rock"@[0] != "Fiend"@[0]); assert("Rock"@[0] != "Fairy"@[0]); assert("Rock"@[0] != "Insect"@[0]); assert("Rock"@[0] != "Dinosaur"@[0]); assert("Rock"@[1] != "Reptile"@[1]); assert("Rock"@[0] != "Fish"@[0]); assert("Rock"@[0] != "Sea Serpent"@[0]); assert("Rock"@[0] != "Aqua"@[0]); assert("Rock"@[0] != "Pyro"@[0]); assert("Rock"@[0] != "Thunder"@[0]); },
        Race::Plant => { assert("Plant"@[0] != "Dragon"@[0]); assert("Plant"@[0] != "Spellcaster"@[0]); assert("Plant"@[0] != "Zombie"@[0]); assert("Plant"@[0] != "Warrior"@[0]); assert("Plant"@[0] != "Beast-Warrior"@[0]); assert("Plant"@[0] != "Beast"@[0]); assert("Plant"@[0] != "Winged Beast"@[0]); assert("Plant"@[0] != "Fiend"@[0]); assert("Plant"@[0] != "Fairy"@[0]); assert("Plant"@[0] != "Insect"@[0]); assert("Plant"@[0] != "Dinosaur"@[0]); assert("Plant"@[0] != "Reptile"@[0]); assert("Plant"@[0] != "Fish"@[0]); assert("Plant"@[0] != "Sea Serpent"@[0]); assert("Plant"@[0] != "Aqua"@[0]); assert("Plant"@[1] != "Pyro"@[1]); assert("Plant"@[0] != "Thunder"@[0]); assert("Plant"@[0] != "Rock"@[0]); },
        Race::Machine => { assert("Machine"@[0] != "Dragon"@[0]); assert("Machine"@[0] != "Spellcaster"@[0]); assert("Machine"@[0] != "Zombie"@[0]); assert("Machine"@[0] != "Warrior"@[0]); assert("Machine"@[0] != "Beast-Warrior"@[0]); assert("Machine"@[0] != "Beast"@[0]); assert("Machine"@[0] != "Winged Beast"@[0]); assert("Machine"@[0] != "Fiend"@[0]); assert("Machine"@[0] != "Fairy"@[0]); assert("Machine"@[0] != "Insect"@[0]); assert("Machine"@[0] != "Dinosaur"@[0]); assert("Machine"@[0] != "Reptile"@[0]); assert("Machine"@[0] != "Fish"@[0]); assert("Machine"@[0] != "Sea Serpent"@[0]); assert("Machine"@[0] != "Aqua"@[0]); assert("Machine"@[0] != "Pyro"@[0]); assert("Machine"@[0] != "Thunder"@[0]); assert("Machine"@[0] != "Rock"@[0]); assert("Machine"@[0] != "Plant"@[0]); },
        Race::Psychic => { assert("Psychic"@[0] != "Dragon"@[0]); assert("Psychic"@[0] != "Spellcaster"@[0]); assert("Psychic"@[0] != "Zombie"@[0]); assert("Psychic"@[0] != "Warrior"@[0]); assert("Psychic"@[0] != "Beast-Warrior"@[0]); assert("Psychic"@[0] != "Beast"@[0]); assert("Psychic"@[0] != "Winged Beast"@[0]); assert("Psychic"@[0] != "Fiend"@[0]); assert("Psychic"@[0] != "Fairy"@[0]); assert("Psychic"@[0] != "Insect"@[0]); assert("Psychic"@[0] != "Dinosaur"@[0]); assert("Psychic"@[0] != "Reptile"@[0]); assert("Psychic"@[0] != "Fish"@[0]); assert("Psychic"@[0] != "Sea Serpent"@[0]); assert("Psychic"@[0] != "Aqua"@[0]); assert("Psychic"@[1] != "Pyro"@[1]); assert("Psychic"@[0] != "Thunder"@[0]); assert("Psychic"@[0] != "Rock"@[0]); assert("Psychic"@[1] != "Plant"@[1]); assert("Psychic"@[0] != "Machine"@[0]); },
        Race::DivineBeast => { assert("Divine-Beast"@[1] != "Dragon"@[1]); assert("Divine-Beast"@[0] != "Spellcaster"@[0]); assert("Divine-Beast"@[0] != "Zombie"@[0]); assert("Divine-Beast"@[0] != "Warrior"@[0]); assert("Divine-Beast"@[0] != "Beast-Warrior"@[0]); assert("Divine-Beast"@[0] != "Beast"@[0]); assert("Divine-Beast"@[0] != "Winged Beast"@[0]); assert("Divine-Beast"@[0] != "Fiend"@[0]); assert("Divine-Beast"@[0] != "Fairy"@[0]); assert("Divine-Beast"@[0] != "Insect"@[0]); assert("Divine-Beast"@[2] != "Dinosaur"@[2]); assert("Divine-Beast"@[0] != "Reptile"@[0]); assert("Divine-Beast"@[0] != "Fish"@[0]); assert("Divine-Beast"@[0] != "Sea Serpent"@[0]); assert("Divine-Beast"@[0] != "Aqua"@[0]); assert("Divine-Beast"@[0] != "Pyro"@[0]); assert("Divine-Beast"@[0] != "Thunder"@[0]); assert("Divine-Beast"@[0] != "Rock"@[0]); assert("Divine-Beast"@[0] != "Plant"@[0]); assert("Divine-Beast"@[0] != "Machine"@[0]); assert("Divine-Beast"@[0] != "Psychic"@[0]); },
        Race::Wyrm => { assert("Wyrm"@[0] != "Dragon"@[0]); assert("Wyrm"@[0] != "Spellcaster"@[0]); assert("Wyrm"@[0] != "Zombie"@[0]); assert("Wyrm"@[1] != "Warrior"@[1]); assert("Wyrm"@[0] != "Beast-Warrior"@[0]); assert("Wyrm"@[0] != "Beast"@[0]); assert("Wyrm"@[1] != "Winged Beast"@[1]); assert("Wyrm"@[0] != "Fiend"@[0]); assert("Wyrm"@[0] != "Fairy"@[0]); assert("Wyrm"@[0] != "Insect"@[0]); assert("Wyrm"@[0] != "Dinosaur"@[0]); assert("Wyrm"@[0] != "Reptile"@[0]); assert("Wyrm"@[0] != "Fish"@[0]); assert("Wyrm"@[0] != "Sea Serpent"@[0]); assert("Wyrm"@[0] != "Aqua"@[0]); assert("Wyrm"@[0] != "Pyro"@[0]); assert("Wyrm"@[0] != "Thunder"@[0]); assert("Wyrm"@[0] != "Rock"@[0]); assert("Wyrm"@[0] != "Plant"@[0]); assert("Wyrm"@[0] != "Machine"@[0]); assert("Wyrm"@[0] != "Psychic"@[0]); assert("Wyrm"@[0] != "Divine-Beast"@[0]); },
        Race::Cyberse => { assert("Cyberse"@[0] != "Dragon"@[0]); assert("Cyberse"@[0] != "Spellcaster"@[0]); assert("Cyberse"@[0] != "Zombie"@[0]); assert("Cyberse"@[0] != "Warrior"@[0]); assert("Cyberse"@[0] != "Beast-Warrior"@[0]); assert("Cyberse"@[0] != "Beast"@[0]); assert("Cyberse"@[0] != "Winged Beast"@[0]); assert("Cyberse"@[0] != "Fiend"@[0]); assert("Cyberse"@[0] != "Fairy"@[0]); assert("Cyberse"@[0] != "Insect"@[0]); assert("Cyberse"@[0] != "Dinosaur"@[0]); assert("Cyberse"@[0] != "Reptile"@[0]); assert("Cyberse"@[0] != "Fish"@[0]); assert("Cyberse"@[0] != "Sea Serpent"@[0]); assert("Cyberse"@[0] != "Aqua"@[0]); assert("Cyberse"@[0] != "Pyro"@[0]); assert("Cyberse"@[0] != "Thunder"@[0]); assert("Cyberse"@[0] != "Rock"@[0]); assert("Cyberse"@[0] != "Plant"@[0]); assert("Cyberse"@[0] != "Machine"@[0]); assert("Cyberse"@[0] != "Psychic"@[0]); assert("Cyberse"@[0] != "Divine-Beast"@[0]); assert("Cyberse"@[0] != "Wyrm"@[0]); },
        Race::Illusion => { assert("Illusion"@[0] != "Dragon"@[0]); assert("Illusion"@[0] != "Spellcaster"@[0]); assert("Illusion"@[0] != "Zombie"@[0]); assert("Illusion"@[0] != "Warrior"@[0]); assert("Illusion"@[0] != "Beast-Warrior"@[0]); assert("Illusion"@[0] != "Beast"@[0]); assert("Illusion"@[0] != "Winged Beast"@[0]); assert("Illusion"@[0] != "Fiend"@[0]); assert("Illusion"@[0] != "Fairy"@[0]); assert("Illusion"@[1] != "Insect"@[1]); assert("Illusion"@[0] != "Dinosaur"@[0]); assert("Illusion"@[0] != "Reptile"@[0]); assert("Illusion"@[0] != "Fish"@[0]); assert("Illusion"@[0] != "Sea Serpent"@[0]); assert("Illusion"@[0] != "Aqua"@[0]); assert("Illusion"@[0] != "Pyro"@[0]); assert("Illusion"@[0] != "Thunder"@[0]); assert("Illusion"@[0] != "Rock"@[0]); assert("Illusion"@[0] != "Plant"@[0]); assert("Illusion"@[0] != "Machine"@[0]); assert("Illusion"@[0] != "Psychic"@[0]); assert("Illusion"@[0] != "Divine-Beast"@[0]); assert("Illusion"@[0] != "Wyrm"@[0]); assert("Illusion"@[0] != "Cyberse"@[0]); },
    }
}

/// The word the formatter writes for a link arrow reads back as the same value.
pub proof fn law_arrow_word_roundtrip(v: Arrow)
    ensures
        spec_arrow_of(spec_arrow_name(v)) == Some(v),
{
    reveal_strlit("bottom");
    reveal_strlit("bottom_left");
    reveal_strlit("bottom_right");
    reveal_strlit("left");
    reveal_strlit("right");
    reveal_strlit("top");
    reveal_strlit("top_left");
    reveal_strlit("top_right");
    match v {
        Arrow::TopLeft => {  },
        Arrow::Top => { assert("top"@.len() != "top_left"@.len()); },
        Arrow::TopRight => { assert("top_right"@[4] != "top_left"@[4]); assert("top_right"@.len() != "top"@.len()); },
        Arrow::Left => { assert("left"@[0] != "top_left"@[0]); assert("left"@[0] != "top"@[0]); assert("left"@[0] != "top_right"@[0]); },
        Arrow::Right => { assert("right"@[0] != "top_left"@[0]); assert("right"@[0] != "top"@[0]); assert("right"@[0] != "top_right"@[0]); assert("right"@[0] != "left"@[0]); },
        Arrow::BottomLeft => { assert("bottom_left"@[0] != "top_left"@[0]); assert("bottom_left"@[0] != "top"@[0]); assert("bottom_left"@[0] != "top_right"@[0]); assert("bottom_left"@[0] != "left"@[0]); assert("bottom_left"@[0] != "right"@[0]); },
        Arrow::Bottom => { assert("bottom"@[0] != "top_left"@[0]); assert("bottom"@[0] != "top"@[0]); assert("bottom"@[0] != "top_right"@[0]); assert("bottom"@[0] != "left"@[0]); assert("bottom"@[0] != "right"@[0]); assert("bottom"@.len() != "bottom_left"@.len()); },
        Arrow::BottomRight => { assert("bottom_right"@[0] != "top_left"@[0]); assert("bottom_right"@[0] != "top"@[0]); assert("bottom_right"@[0] != "top_right"@[0]); assert("bottom_right"@[0] != "left"@[0]); assert("bottom_right"@[0] != "right"@[0]); assert("bottom_right"@[7] != "bottom_left"@[7]); assert("bottom_right"@.len() != "bottom"@.len()); },
    }
}

/// The word the formatter writes for a battle position reads back as the same value.
pub proof fn law_battle_position_word_roundtrip(v: BattlePosition)
    ensures
        spec_battle_position_of(spec_battle_position_name(v)) == Some(v),
{
    reveal_strlit("attack_position");
    reveal_strlit("defense_position");
    reveal_strlit("face_down_defense");
    match v {
        BattlePosition::Attack => {  },
        BattlePosition::Defense => { assert("defense_position"@[0] != "attack_position"@[0]); },
        BattlePosition::FaceDownDefense => { assert("face_down_defense"@[0] != "attack_position"@[0]); assert("face_down_defense"@[0] != "defense_position"@[0]); },
    }
}

/// The word the formatter writes for a summoning field reads back as the same value.
pub proof fn law_field_target_word_roundtrip(v: FieldTarget)
    ensures
        spec_field_target_of(spec_field_target_name(v)) == Some(v),
{
    reveal_strlit("either_field");
    reveal_strlit("opponent_field");
    reveal_strlit("your_field");
    match v {
        FieldTarget::YourField => {  },
        FieldTarget::OpponentField => { assert("opponent_field"@[0] != "your_field"@[0]); },
        FieldTarget::EitherField => { assert("either_field"@[0] != "your_field"@[0]); assert("either_field"@[0] != "opponent_field"@[0]); },
    }
}

/// The word the formatter writes for a player reads back as the same value.
pub proof fn law_player_who_word_roundtrip(v: PlayerWho)
    ensures
        spec_player_who_of(spec_player_who_name(v)) == Some(v),
{
    reveal_strlit("both");
    reveal_strlit("controller");
    reveal_strlit("opponent");
    reveal_strlit("owner");
    reveal_strlit("summoner");
    reveal_strlit("you");
    match v {
        PlayerWho::You => {  },
        PlayerWho::Opponent => { assert("opponent"@[0] != "you"@[0]); },
        PlayerWho::Controller => { assert("controller"@[0] != "you"@[0]); assert("controller"@[0] != "opponent"@[0]); },
        PlayerWho::Owner => { assert("owner"@[0] != "you"@[0]); assert("owner"@[1] != "opponent"@[1]); assert("owner"@[0] != "controller"@[0]); },
        PlayerWho::Summoner => { assert("summoner"@[0] != "you"@[0]); assert("summoner"@[0] != "opponent"@[0]); assert("summoner"@[0] != "controller"@[0]); assert("summoner"@[0] != "owner"@[0]); },
        PlayerWho::Both => { assert("both"@[0] != "you"@[0]); assert("both"@[0] != "opponent"@[0]); assert("both"@[0] != "controller"@[0]); assert("both"@[0] != "owner"@[0]); assert("both"@[0] != "summoner"@[0]); },
    }
}

/// The word the formatter writes for a stat field reads back as the same value.
pub proof fn law_stat_field_word_roundtrip(v: StatField)
    ensures
        spec_stat_field_of(spec_stat_field_name(v)) == Some(v),
{
    reveal_strlit("atk");
    reveal_strlit("base_atk");
    reveal_strlit("base_def");
    reveal_strlit("def");
    reveal_strlit("level");
    reveal_strlit("link");
    reveal_strlit("original_atk");
    reveal_strlit("original_def");
    reveal_strlit("rank");
    reveal_strlit("scale");
    match v {
        StatField::Atk => {  },
        StatField::Def => { assert("def"@[0] != "atk"@[0]); },
        StatField::Level => { assert("level"@[0] != "atk"@[0]); assert("level"@[0] != "def"@[0]); },
        StatField::Rank => { assert("rank"@[0] != "atk"@[0]); assert("rank"@[0] != "def"@[0]); assert("rank"@[0] != "level"@[0]); },
        StatField::Link => { assert("link"@[0] != "atk"@[0]); assert("link"@[0] != "def"@[0]); assert("link"@[1] != "level"@[1]); assert("link"@[0] != "rank"@[0]); },
        StatField::Scale => { assert("scale"@[0] != "atk"@[0]); assert("scale"@[0] != "def"@[0]); assert("scale"@[0] != "level"@[0]); assert("scale"@[0] != "rank"@[0]); assert("scale"@[0] != "link"@[0]); },
        StatField::BaseAtk => { assert("base_atk"@[0] != "atk"@[0]); assert("base_atk"@[0] != "def"@[0]); assert("base_atk"@[0] != "level"@[0]); assert("base_atk"@[0] != "rank"@[0]); assert("base_atk"@[0] != "link"@[0]); assert("base_atk"@[0] != "scale"@[0]); },
        StatField::BaseDef => { assert("base_def"@[0] != "atk"@[0]); assert("base_def"@[0] != "def"@[0]); assert("base_def"@[0] != "level"@[0]); assert("base_def"@[0] != "rank"@[0]); assert("base_def"@[0] != "link"@[0]); assert("base_def"@[0] != "scale"@[0]); assert("base_def"@[5] != "base_atk"@[5]); },
        StatField::OriginalAtk => { assert("original_atk"@[0] != "atk"@[0]); assert("original_atk"@[0] != "def"@[0]); assert("original_atk"@[0] != "level"@[0]); assert("original_atk"@[0] != "rank"@[0]); assert("original_atk"@[0] != "link"@[0]); assert("original_atk"@[0] != "scale"@[0]); assert("original_atk"@[0] != "base_atk"@[0]); assert("original_atk"@[0] != "base_def"@[0]); },
        StatField::OriginalDef => { assert("original_def"@[0] != "atk"@[0]); assert("original_def"@[0] != "def"@[0]); assert("original_def"@[0] != "level"@[0]); assert("original_def"@[0] != "rank"@[0]); assert("original_def"@[0] != "link"@[0]); assert("original_def"@[0] != "scale"@[0]); assert("original_def"@[0] != "base_atk"@[0]); assert("original_def"@[0] != "base_def"@[0]); assert("original_def"@[9] != "original_atk"@[9]); },
    }
}

/// The word the formatter writes for a modifiable stat reads back as the same value.
pub proof fn law_stat_name_word_roundtrip(v: StatName)
    ensures
        spec_stat_name_of(spec_stat_name_name(v)) == Some(v),
{
    reveal_strlit("atk");
    reveal_strlit("def");
    match v {
        StatName::Atk => {  },
        StatName::Def => { assert("def"@[0] != "atk"@[0]); },
    }
}

/// The word the formatter writes for a comparison reads back as the same value.
pub proof fn law_compare_op_word_roundtrip(v: CompareOp)
    ensures
        spec_compare_op_of(spec_compare_op_name(v)) == Some(v),
{
    reveal_strlit("!=");
    reveal_strlit("<");
    reveal_strlit("<=");
    reveal_strlit("==");
    reveal_strlit(">");
    reveal_strlit(">=");
    match v {
        CompareOp::Gte => {  },
        CompareOp::Lte => { assert("<="@[0] != ">="@[0]); },
        CompareOp::Eq => { assert("=="@[0] != ">="@[0]); assert("=="@[0] != "<="@[0]); },
        CompareOp::Neq => { assert("!="@[0] != ">="@[0]); assert("!="@[0] != "<="@[0]); assert("!="@[0] != "=="@[0]); },
        CompareOp::Gt => { assert(">"@.len() != ">="@.len()); assert(">"@[0] != "<="@[0]); assert(">"@[0] != "=="@[0]); assert(">"@[0] != "!="@[0]); },
        CompareOp::Lt => { assert("<"@[0] != ">="@[0]); assert("<"@.len() != "<="@.len()); assert("<"@[0] != "=="@[0]); assert("<"@[0] != "!="@[0]); assert("<"@[0] != ">"@[0]); },
    }
}

/// The word the formatter writes for an arithmetic operator reads back as the same value.
pub proof fn law_bin_op_word_roundtrip(v: BinOp)
    ensures
        spec_bin_op_of(spec_bin_op_name(v)) == Some(v),
{
    reveal_strlit("*");
    reveal_strlit("+");
    reveal_strlit("-");
    reveal_strlit("/");
    match v {
        BinOp::Add => {  },
        BinOp::Sub => { assert("-"@[0] != "+"@[0]); },
        BinOp::Mul => { assert("*"@[0] != "+"@[0]); assert("*"@[0] != "-"@[0]); },
        BinOp::Div => { assert("/"@[0] != "+"@[0]); assert("/"@[0] != "-"@[0]); assert("/"@[0] != "*"@[0]); },
    }
}

/// The word the formatter writes for a card state reads back as the same value.
pub proof fn law_card_state_word_roundtrip(v: CardState)
    ensures
        spec_card_state_of(spec_card_state_name(v)) == Some(v),
{
    reveal_strlit("activated_this_turn");
    reveal_strlit("attacked_this_turn");
    reveal_strlit("face_down");
    reveal_strlit("face_up");
    reveal_strlit("flipped_this_turn");
    reveal_strlit("in_attack_position");
    reveal_strlit("in_defense_position");
    reveal_strlit("summoned_this_turn");
    match v {
        CardState::SummonedThisTurn => {  },
        CardState::AttackedThisTurn => { assert("attacked_this_turn"@[0] != "summoned_this_turn"@[0]); },
        CardState::FlippedThisTurn => { assert("flipped_this_turn"@[0] != "summoned_this_turn"@[0]); assert("flipped_this_turn"@[0] != "attacked_this_turn"@[0]); },
        CardState::ActivatedThisTurn => { assert("activated_this_turn"@[0] != "summoned_this_turn"@[0]); assert("activated_this_turn"@[1] != "attacked_this_turn"@[1]); assert("activated_this_turn"@[0] != "flipped_this_turn"@[0]); },
        CardState::FaceUp => { assert("face_up"@[0] != "summoned_this_turn"@[0]); assert("face_up"@[0] != "attacked_this_turn"@[0]); assert("face_up"@[1] != "flipped_this_turn"@[1]); assert("face_up"@[0] != "activated_this_turn"@[0]); },
        CardState::FaceDown => { assert("face_down"@[0] != "summoned_this_turn"@[0]); assert("face_down"@[0] != "attacked_this_turn"@[0]); assert("face_down"@[1] != "flipped_this_turn"@[1]); assert("face_down"@[0] != "activated_this_turn"@[0]); assert("face_down"@[5] != "face_up"@[5]); },
        CardState::InAttackPosition => { assert("in_attack_position"@[0] != "summoned_this_turn"@[0]); assert("in_attack_position"@[0] != "attacked_this_turn"@[0]); assert("in_attack_position"@[0] != "flipped_this_turn"@[0]); assert("in_attack_position"@[0] != "activated_this_turn"@[0]); assert("in_attack_position"@[0] != "face_up"@[0]); assert("in_attack_position"@[0] != "face_down"@[0]); },
        CardState::InDefensePosition => { assert("in_defense_position"@[0] != "summoned_this_turn"@[0]); assert("in_defense_position"@[0] != "attacked_this_turn"@[0]); assert("in_defense_position"@[0] != "flipped_this_turn"@[0]); assert("in_defense_position"@[0] != "activated_this_turn"@[0]); assert("in_defense_position"@[0] != "face_up"@[0]); assert("in_defense_position"@[0] != "face_down"@[0]); assert("in_defense_position"@[3] != "in_attack_position"@[3]); },
    }
}

/// The word the formatter writes for a phase reads back as the same value.
pub proof fn law_phase_name_word_roundtrip(v: PhaseName)
    ensures
        spec_phase_name_of(spec_phase_name_name(v)) == Some(v),
{
    reveal_strlit("battle");
    reveal_strlit("damage");
    reveal_strlit("damage_calculation");
    reveal_strlit("draw");
    reveal_strlit("end");
    reveal_strlit("main1");
    reveal_strlit("main2");
    reveal_strlit("standby");
    match v {
        PhaseName::Draw => {  },
        PhaseName::Standby => { assert("standby"@[0] != "draw"@[0]); },
        PhaseName::Main1 => { assert("main1"@[0] != "draw"@[0]); assert("main1"@[0] != "standby"@[0]); },
        PhaseName::Battle => { assert("battle"@[0] != "draw"@[0]); assert("battle"@[0] != "standby"@[0]); assert("battle"@[0] != "main1"@[0]); },
        PhaseName::Main2 => { assert("main2"@[0] != "draw"@[0]); assert("main2"@[0] != "standby"@[0]); assert("main2"@[4] != "main1"@[4]); assert("main2"@[0] != "battle"@[0]); },
        PhaseName::End => { assert("end"@[0] != "draw"@[0]); assert("end"@[0] != "standby"@[0]); assert("end"@[0] != "main1"@[0]); assert("end"@[0] != "battle"@[0]); assert("end"@[0] != "main2"@[0]); },
        PhaseName::Damage => { assert("damage"@[1] != "draw"@[1]); assert("damage"@[0] != "standby"@[0]); assert("damage"@[0] != "main1"@[0]); assert("damage"@[0] != "battle"@[0]); assert("damage"@[0] != "main2"@[0]); assert("damage"@[0] != "end"@[0]); },
        PhaseName::DamageCalculation => { assert("damage_calculation"@[1] != "draw"@[1]); assert("damage_calculation"@[0] != "standby"@[0]); assert("damage_calculation"@[0] != "main1"@[0]); assert("damage_calculation"@[0] != "battle"@[0]); assert("damage_calculation"@[0] != "main2"@[0]); assert("damage_calculation"@[0] != "end"@[0]); assert("damage_calculation"@.len() != "damage"@.len()); },
    }
}

/// The word the formatter writes for a chain category reads back as the same value.
pub proof fn law_category_word_roundtrip(v: Category)
    ensures
        spec_category_of(spec_category_name(v)) == Some(v),
{
    reveal_strlit("activate_monster_effect");
    reveal_strlit("activate_spell");
    reveal_strlit("activate_trap");
    reveal_strlit("add_to_hand");
    reveal_strlit("attack_declared");
    reveal_strlit("banish");
    reveal_strlit("destroy");
    reveal_strlit("draw");
    reveal_strlit("fusion_summon");
    reveal_strlit("link_summon");
    reveal_strlit("mill");
    reveal_strlit("negate");
    reveal_strlit("normal_summon");
    reveal_strlit("ritual_summon");
    reveal_strlit("search");
    reveal_strlit("send_to_gy");
    reveal_strlit("special_summon");
    reveal_strlit("synchro_summon");
    reveal_strlit("xyz_summon");
    match v {
        Category::Search => {  },
        Category::SpecialSummon => { assert("special_summon"@[1] != "search"@[1]); },
        Category::SendToGy => { assert("send_to_gy"@[2] != "search"@[2]); assert("send_to_gy"@[1] != "special_summon"@[1]); },
        Category::AddToHand => { assert("add_to_hand"@[0] != "search"@[0]); assert("add_to_hand"@[0] != "special_summon"@[0]); assert("add_to_hand"@[0] != "send_to_gy"@[0]); },
        Category::Draw => { assert("draw"@[0] != "search"@[0]); assert("draw"@[0] != "special_summon"@[0]); assert("draw"@[0] != "send_to_gy"@[0]); assert("draw"@[0] != "add_to_hand"@[0]); },
        Category::Banish => { assert("banish"@[0] != "search"@[0]); assert("banish"@[0] != "special_summon"@[0]); assert("banish"@[0] != "send_to_gy"@[0]); assert("banish"@[0] != "add_to_hand"@[0]); assert("banish"@[0] != "draw"@[0]); },
        Category::Destroy => { assert("destroy"@[0] != "search"@[0]); assert("destroy"@[0] != "special_summon"@[0]); assert("destroy"@[0] != "send_to_gy"@[0]); assert("destroy"@[0] != "add_to_hand"@[0]); assert("destroy"@[1] != "draw"@[1]); assert("destroy"@[0] != "banish"@[0]); },
        Category::Negate => { assert("negate"@[0] != "search"@[0]); assert("negate"@[0] != "special_summon"@[0]); assert("negate"@[0] != "send_to_gy"@[0]); assert("negate"@[0] != "add_to_hand"@[0]); assert("negate"@[0] != "draw"@[0]); assert("negate"@[0] != "banish"@[0]); assert("negate"@[0] != "destroy"@[0]); },
        Category::Mill => { assert("mill"@[0] != "search"@[0]); assert("mill"@[0] != "special_summon"@[0]); assert("mill"@[0] != "send_to_gy"@[0]); assert("mill"@[0] != "add_to_hand"@[0]); assert("mill"@[0] != "draw"@[0]); assert("mill"@[0] != "banish"@[0]); assert("mill"@[0] != "destroy"@[0]); assert("mill"@[0] != "negate"@[0]); },
        Category::ActivateSpell => { assert("activate_spell"@[0] != "search"@[0]); assert("activate_spell"@[0] != "special_summon"@[0]); assert("activate_spell"@[0] != "send_to_gy"@[0]); assert("activate_spell"@[1] != "add_to_hand"@[1]); assert("activate_spell"@[0] != "draw"@[0]); assert("activate_spell"@[0] != "banish"@[0]); assert("activate_spell"@[0] != "destroy"@[0]); assert("activate_spell"@[0] != "negate"@[0]); assert("activate_spell"@[0] != "mill"@[0]); },
        Category::ActivateTrap => { assert("activate_trap"@[0] != "search"@[0]); assert("activate_trap"@[0] != "special_summon"@[0]); assert("activate_trap"@[0] != "send_to_gy"@[0]); assert("activate_trap"@[1] != "add_to_hand"@[1]); assert("activate_trap"@[0] != "draw"@[0]); assert("activate_trap"@[0] != "banish"@[0]); assert("activate_trap"@[0] != "destroy"@[0]); assert("activate_trap"@[0] != "negate"@[0]); assert("activate_trap"@[0] != "mill"@[0]); assert("activate_trap"@[9] != "activate_spell"@[9]); },
        Category::ActivateMonsterEffect => { assert("activate_monster_effect"@[0] != "search"@[0]); assert("activate_monster_effect"@[0] != "special_summon"@[0]); assert("activate_monster_effect"@[0] != "send_to_gy"@[0]); assert("activate_monster_effect"@[1] != "add_to_hand"@[1]); assert("activate_monster_effect"@[0] != "draw"@[0]); assert("activate_monster_effect"@[0] != "banish"@[0]); assert("activate_monster_effect"@[0] != "destroy"@[0]); assert("activate_monster_effect"@[0] != "negate"@[0]); assert("activate_monster_effect"@[0] != "mill"@[0]); assert("activate_monster_effect"@[9] != "activate_spell"@[9]); assert("activate_monster_effect"@[9] != "activate_trap"@[9]); },
        Category::NormalSummon => { assert("normal_summon"@[0] != "search"@[0]); assert("normal_summon"@[0] != "special_summon"@[0]); assert("normal_summon"@[0] != "send_to_gy"@[0]); assert("normal_summon"@[0] != "add_to_hand"@[0]); assert("normal_summon"@[0] != "draw"@[0]); assert("normal_summon"@[0] != "banish"@[0]); assert("normal_summon"@[0] != "destroy"@[0]); assert("normal_summon"@[1] != "negate"@[1]); assert("normal_summon"@[0] != "mill"@[0]); assert("normal_summon"@[0] != "activate_spell"@[0]); assert("normal_summon"@[0] != "activate_trap"@[0]); assert("normal_summon"@[0] != "activate_monster_effect"@[0]); },
        Category::FusionSummon => { assert("fusion_summon"@[0] != "search"@[0]); assert("fusion_summon"@[0] != "special_summon"@[0]); assert("fusion_summon"@[0] != "send_to_gy"@[0]); assert("fusion_summon"@[0] != "add_to_hand"@[0]); assert("fusion_summon"@[0] != "draw"@[0]); assert("fusion_summon"@[0] != "banish"@[0]); assert("fusion_summon"@[0] != "destroy"@[0]); assert("fusion_summon"@[0] != "negate"@[0]); assert("fusion_summon"@[0] != "mill"@[0]); assert("fusion_summon"@[0] != "activate_spell"@[0]); assert("fusion_summon"@[0] != "activate_trap"@[0]); assert("fusion_summon"@[0] != "activate_monster_effect"@[0]); assert("fusion_summon"@[0] != "normal_summon"@[0]); },
        Category::SynchroSummon => { assert("synchro_summon"@[1] != "search"@[1]); assert("synchro_summon"@[1] != "special_summon"@[1]); assert("synchro_summon"@[1] != "send_to_gy"@[1]); assert("synchro_summon"@[0] != "add_to_hand"@[0]); assert("synchro_summon"@[0] != "draw"@[0]); assert("synchro_summon"@[0] != "banish"@[0]); assert("synchro_summon"@[0] != "destroy"@[0]); assert("synchro_summon"@[0] != "negate"@[0]); assert("synchro_summon"@[0] != "mill"@[0]); assert("synchro_summon"@[0] != "activate_spell"@[0]); assert("synchro_summon"@[0] != "activate_trap"@[0]); assert("synchro_summon"@[0] != "activate_monster_effect"@[0]); assert("synchro_summon"@[0] != "normal_summon"@[0]); assert("synchro_summon"@[0] != "fusion_summon"@[0]); },
        Category::XyzSummon => { assert("xyz_summon"@[0] != "search"@[0]); assert("xyz_summon"@[0] != "special_summon"@[0]); assert("xyz_summon"@[0] != "send_to_gy"@[0]); assert("xyz_summon"@[0] != "add_to_hand"@[0]); assert("xyz_summon"@[0] != "draw"@[0]); assert("xyz_summon"@[0] != "banish"@[0]); assert("xyz_summon"@[0] != "destroy"@[0]); assert("xyz_summon"@[0] != "negate"@[0]); assert("xyz_summon"@[0] != "mill"@[0]); assert("xyz_summon"@[0] != "activate_spell"@[0]); assert("xyz_summon"@[0] != "activate_trap"@[0]); assert("xyz_summon"@[0] != "activate_monster_effect"@[0]); assert("xyz_summon"@[0] != "normal_summon"@[0]); assert("xyz_summon"@[0] != "fusion_summon"@[0]); assert("xyz_summon"@[0] != "synchro_summon"@[0]); },
        Category::LinkSummon => { assert("link_summon"@[0] != "search"@[0]); assert("link_summon"@[0] != "special_summon"@[0]); assert("link_summon"@[0] != "send_to_gy"@[0]); assert("link_summon"@[0] != "add_to_hand"@[0]); assert("link_summon"@[0] != "draw"@[0]); assert("link_summon"@[0] != "banish"@[0]); assert("link_summon"@[0] != "destroy"@[0]); assert("link_summon"@[0] != "negate"@[0]); assert("link_summon"@[0] != "mill"@[0]); assert("link_summon"@[0] != "activate_spell"@[0]); assert("link_summon"@[0] != "activate_trap"@[0]); assert("link_summon"@[0] != "activate_monster_effect"@[0]); assert("link_summon"@[0] != "normal_summon"@[0]); assert("link_summon"@[0] != "fusion_summon"@[0]); assert("link_summon"@[0] != "synchro_summon"@[0]); assert("link_summon"@[0] != "xyz_summon"@[0]); },
        Category::RitualSummon => { assert("ritual_summon"@[0] != "search"@[0]); assert("ritual_summon"@[0] != "special_summon"@[0]); assert("ritual_summon"@[0] != "send_to_gy"@[0]); assert("ritual_summon"@[0] != "add_to_hand"@[0]); assert("ritual_summon"@[0] != "draw"@[0]); assert("ritual_summon"@[0] != "banish"@[0]); assert("ritual_summon"@[0] != "destroy"@[0]); assert("ritual_summon"@[0] != "negate"@[0]); assert("ritual_summon"@[0] != "mill"@[0]); assert("ritual_summon"@[0] != "activate_spell"@[0]); assert("ritual_summon"@[0] != "activate_trap"@[0]); assert("ritual_summon"@[0] != "activate_monster_effect"@[0]); assert("ritual_summon"@[0] != "normal_summon"@[0]); assert("ritual_summon"@[0] != "fusion_summon"@[0]); assert("ritual_summon"@[0] != "synchro_summon"@[0]); assert("ritual_summon"@[0] != "xyz_summon"@[0]); assert("ritual_summon"@[0] != "link_summon"@[0]); },
        Category::AttackDeclared => { assert("attack_declared"@[0] != "search"@[0]); assert("attack_declared"@[0] != "special_summon"@[0]); assert("attack_declared"@[0] != "send_to_gy"@[0]); assert("attack_declared"@[1] != "add_to_hand"@[1]); assert("attack_declared"@[0] != "draw"@[0]); assert("attack_declared"@[0] != "banish"@[0]); assert("attack_declared"@[0] != "destroy"@[0]); assert("attack_declared"@[0] != "negate"@[0]); assert("attack_declared"@[0] != "mill"@[0]); assert("attack_declared"@[1] != "activate_spell"@[1]); assert("attack_declared"@[1] != "activate_trap"@[1]); assert("attack_declared"@[1] != "activate_monster_effect"@[1]); assert("attack_declared"@[0] != "normal_summon"@[0]); assert("attack_declared"@[0] != "fusion_summon"@[0]); assert("attack_declared"@[0] != "synchro_summon"@[0]); assert("attack_declared"@[0] != "xyz_summon"@[0]); assert("attack_declared"@[0] != "link_summon"@[0]); assert("attack_declared"@[0] != "ritual_summon"@[0]); },
    }
}

/// The word the formatter writes for a summon method reads back as the same value.
pub proof fn law_summon_method_word_roundtrip(v: SummonMethod)
    ensures
        spec_summon_method_of(spec_summon_method_name(v)) == Some(v),
{
    reveal_strlit("flip");
    reveal_strlit("fusion");
    reveal_strlit("link");
    reveal_strlit("normal");
    reveal_strlit("pendulum");
    reveal_strlit("ritual");
    reveal_strlit("special");
    reveal_strlit("synchro");
    reveal_strlit("tribute");
    reveal_strlit("xyz");
    match v {
        SummonMethod::Normal => {  },
        SummonMethod::Special => { assert("special"@[0] != "normal"@[0]); },
        SummonMethod::Flip => { assert("flip"@[0] != "normal"@[0]); assert("flip"@[0] != "special"@[0]); },
        SummonMethod::Tribute => { assert("tribute"@[0] != "normal"@[0]); assert("tribute"@[0] != "special"@[0]); assert("tribute"@[0] != "flip"@[0]); },
        SummonMethod::Fusion => { assert("fusion"@[0] != "normal"@[0]); assert("fusion"@[0] != "special"@[0]); assert("fusion"@[1] != "flip"@[1]); assert("fusion"@[0] != "tribute"@[0]); },
        SummonMethod::Synchro => { assert("synchro"@[0] != "normal"@[0]); assert("synchro"@[1] != "special"@[1]); assert("synchro"@[0] != "flip"@[0]); assert("synchro"@[0] != "tribute"@[0]); assert("synchro"@[0] != "fusion"@[0]); },
        SummonMethod::Xyz => { assert("xyz"@[0] != "normal"@[0]); assert("xyz"@[0] != "special"@[0]); assert("xyz"@[0] != "flip"@[0]); assert("xyz"@[0] != "tribute"@[0]); assert("xyz"@[0] != "fusion"@[0]); assert("xyz"@[0] != "synchro"@[0]); },
        SummonMethod::Link => { assert("link"@[0] != "normal"@[0]); assert("link"@[0] != "special"@[0]); assert("link"@[0] != "flip"@[0]); assert("link"@[0] != "tribute"@[0]); assert("link"@[0] != "fusion"@[0]); assert("link"@[0] != "synchro"@[0]); assert("link"@[0] != "xyz"@[0]); },
        SummonMethod::Ritual => { assert("ritual"@[0] != "normal"@[0]); assert("ritual"@[0] != "special"@[0]); assert("ritual"@[0] != "flip"@[0]); assert("ritual"@[0] != "tribute"@[0]); assert("ritual"@[0] != "fusion"@[0]); assert("ritual"@[0] != "synchro"@[0]); assert("ritual"@[0] != "xyz"@[0]); assert("ritual"@[0] != "link"@[0]); },
        SummonMethod::Pendulum => { assert("pendulum"@[0] != "normal"@[0]); assert("pendulum"@[0] != "special"@[0]); assert("pendulum"@[0] != "flip"@[0]); assert("pendulum"@[0] != "tribute"@[0]); assert("pendulum"@[0] != "fusion"@[0]); assert("pendulum"@[0] != "synchro"@[0]); assert("pendulum"@[0] != "xyz"@[0]); assert("pendulum"@[0] != "link"@[0]); assert("pendulum"@[0] != "ritual"@[0]); },
    }
}

/// The word the formatter writes for what is announced reads back as the same value.
pub proof fn law_announce_what_word_roundtrip(v: AnnounceWhat)
    ensures
        spec_announce_what_of(spec_announce_what_name(v)) == Some(v),
{
    reveal_strlit("attribute");
    reveal_strlit("card");
    reveal_strlit("level");
    reveal_strlit("race");
    reveal_strlit("type");
    match v {
        AnnounceWhat::Type => {  },
        AnnounceWhat::Attribute => { assert("attribute"@[0] != "type"@[0]); },
        AnnounceWhat::Race => { assert("race"@[0] != "type"@[0]); assert("race"@[0] != "attribute"@[0]); },
        AnnounceWhat::Level => { assert("level"@[0] != "type"@[0]); assert("level"@[0] != "attribute"@[0]); assert("level"@[0] != "race"@[0]); },
        AnnounceWhat::Card => { assert("card"@[0] != "type"@[0]); assert("card"@[0] != "attribute"@[0]); assert("card"@[0] != "race"@[0]); assert("card"@[0] != "level"@[0]); },
    }
}

/// The word the formatter writes for a replaceable event reads back as the same value.
pub proof fn law_replaceable_event_word_roundtrip(v: ReplaceableEvent)
    ensures
        spec_replaceable_event_of(spec_replaceable_event_name(v)) == Some(v),
{
    reveal_strlit("banished");
    reveal_strlit("destroyed");
    reveal_strlit("destroyed_by_battle");
    reveal_strlit("destroyed_by_effect");
    reveal_strlit("leaves_field");
    reveal_strlit("returned_to_deck");
    reveal_strlit("returned_to_hand");
    reveal_strlit("sent_to_gy");
    match v {
        ReplaceableEvent::DestroyedByBattle => {  },
        ReplaceableEvent::DestroyedByEffect => { assert("destroyed_by_effect"@[13] != "destroyed_by_battle"@[13]); },
        ReplaceableEvent::Destroyed => { assert("destroyed"@.len() != "destroyed_by_battle"@.len()); assert("destroyed"@.len() != "destroyed_by_effect"@.len()); },
        ReplaceableEvent::SentToGy => { assert("sent_to_gy"@[0] != "destroyed_by_battle"@[0]); assert("sent_to_gy"@[0] != "destroyed_by_effect"@[0]); assert("sent_to_gy"@[0] != "destroyed"@[0]); },
        ReplaceableEvent::Banished => { assert("banished"@[0] != "destroyed_by_battle"@[0]); assert("banished"@[0] != "destroyed_by_effect"@[0]); assert("banished"@[0] != "destroyed"@[0]); assert("banished"@[0] != "sent_to_gy"@[0]); },
        ReplaceableEvent::ReturnedToHand => { assert("returned_to_hand"@[0] != "destroyed_by_battle"@[0]); assert("returned_to_hand"@[0] != "destroyed_by_effect"@[0]); assert("returned_to_hand"@[0] != "destroyed"@[0]); assert("returned_to_hand"@[0] != "sent_to_gy"@[0]); assert("returned_to_hand"@[0] != "banished"@[0]); },
        ReplaceableEvent::ReturnedToDeck => { assert("returned_to_deck"@[0] != "destroyed_by_battle"@[0]); assert("returned_to_deck"@[0] != "destroyed_by_effect"@[0]); assert("returned_to_deck"@[0] != "destroyed"@[0]); assert("returned_to_deck"@[0] != "sent_to_gy"@[0]); assert("returned_to_deck"@[0] != "banished"@[0]); assert("returned_to_deck"@[12] != "returned_to_hand"@[12]); },
        ReplaceableEvent::LeavesField => { assert("leaves_field"@[0] != "destroyed_by_battle"@[0]); assert("leaves_field"@[0] != "destroyed_by_effect"@[0]); assert("leaves_field"@[0] != "destroyed"@[0]); assert("leaves_field"@[0] != "sent_to_gy"@[0]); assert("leaves_field"@[0] != "banished"@[0]); assert("leaves_field"@[0] != "returned_to_hand"@[0]); assert("leaves_field"@[0] != "returned_to_deck"@[0]); },
    }
}

/// The word the formatter writes for a card filter kind reads back as the same value.
pub proof fn law_card_filter_kind_word_roundtrip(v: CardFilterKind)
    ensures
        spec_card_filter_kind_of(spec_card_filter_kind_name(v)) == Some(v),
{
    reveal_strlit("card");
    reveal_strlit("effect monster");
    reveal_strlit("fusion monster");
    reveal_strlit("link monster");
    reveal_strlit("monster");
    reveal_strlit("non-token monster");
    reveal_strlit("non-tuner monster");
    reveal_strlit("normal monster");
    reveal_strlit("pendulum monster");
    reveal_strlit("ritual monster");
    reveal_strlit("spell");
    reveal_strlit("synchro monster");
    reveal_strlit("trap");
    reveal_strlit("tuner monster");
    reveal_strlit("xyz monster");
    match v {
        CardFilterKind::Monster => {  },
        CardFilterKind::Spell => { assert("spell"@[0] != "monster"@[0]); },
        CardFilterKind::Trap => { assert("trap"@[0] != "monster"@[0]); assert("trap"@[0] != "spell"@[0]); },
        CardFilterKind::Card => { assert("card"@[0] != "monster"@[0]); assert("card"@[0] != "spell"@[0]); assert("card"@[0] != "trap"@[0]); },
        CardFilterKind::EffectMonster => { assert("effect monster"@[0] != "monster"@[0]); assert("effect monster"@[0] != "spell"@[0]); assert("effect monster"@[0] != "trap"@[0]); assert("effect monster"@[0] != "card"@[0]); },
        CardFilterKind::NormalMonster => { assert("normal monster"@[0] != "monster"@[0]); assert("normal monster"@[0] != "spell"@[0]); assert("normal monster"@[0] != "trap"@[0]); assert("normal monster"@[0] != "card"@[0]); assert("normal monster"@[0] != "effect monster"@[0]); },
        CardFilterKind::FusionMonster => { assert("fusion monster"@[0] != "monster"@[0]); assert("fusion monster"@[0] != "spell"@[0]); assert("fusion monster"@[0] != "trap"@[0]); assert("fusion monster"@[0] != "card"@[0]); assert("fusion monster"@[0] != "effect monster"@[0]); assert("fusion monster"@[0] != "normal monster"@[0]); },
        CardFilterKind::SynchroMonster => { assert("synchro monster"@[0] != "monster"@[0]); assert("synchro monster"@[1] != "spell"@[1]); assert("synchro monster"@[0] != "trap"@[0]); assert("synchro monster"@[0] != "card"@[0]); assert("synchro monster"@[0] != "effect monster"@[0]); assert("synchro monster"@[0] != "normal monster"@[0]); assert("synchro monster"@[0] != "fusion monster"@[0]); },
        CardFilterKind::XyzMonster => { assert("xyz monster"@[0] != "monster"@[0]); assert("xyz monster"@[0] != "spell"@[0]); assert("xyz monster"@[0] != "trap"@[0]); assert("xyz monster"@[0] != "card"@[0]); assert("xyz monster"@[0] != "effect monster"@[0]); assert("xyz monster"@[0] != "normal monster"@[0]); assert("xyz monster"@[0] != "fusion monster"@[0]); assert("xyz monster"@[0] != "synchro monster"@[0]); },
        CardFilterKind::LinkMonster => { assert("link monster"@[0] != "monster"@[0]); assert("link monster"@[0] != "spell"@[0]); assert("link monster"@[0] != "trap"@[0]); assert("link monster"@[0] != "card"@[0]); assert("link monster"@[0] != "effect monster"@[0]); assert("link monster"@[0] != "normal monster"@[0]); assert("link monster"@[0] != "fusion monster"@[0]); assert("link monster"@[0] != "synchro monster"@[0]); assert("link monster"@[0] != "xyz monster"@[0]); },
        CardFilterKind::RitualMonster => { assert("ritual monster"@[0] != "monster"@[0]); assert("ritual monster"@[0] != "spell"@[0]); assert("ritual monster"@[0] != "trap"@[0]); assert("ritual monster"@[0] != "card"@[0]); assert("ritual monster"@[0] != "effect monster"@[0]); assert("ritual monster"@[0] != "normal monster"@[0]); assert("ritual monster"@[0] != "fusion monster"@[0]); assert("ritual monster"@[0] != "synchro monster"@[0]); assert("ritual monster"@[0] != "xyz monster"@[0]); assert("ritual monster"@[0] != "link monster"@[0]); },
        CardFilterKind::PendulumMonster => { assert("pendulum monster"@[0] != "monster"@[0]); assert("pendulum monster"@[0] != "spell"@[0]); assert("pendulum monster"@[0] != "trap"@[0]); assert("pendulum monster"@[0] != "card"@[0]); assert("pendulum monster"@[0] != "effect monster"@[0]); assert("pendulum monster"@[0] != "normal monster"@[0]); assert("pendulum monster"@[0] != "fusion monster"@[0]); assert("pendulum monster"@[0] != "synchro monster"@[0]); assert("pendulum monster"@[0] != "xyz monster"@[0]); assert("pendulum monster"@[0] != "link monster"@[0]); assert("pendulum monster"@[0] != "ritual monster"@[0]); },
        CardFilterKind::TunerMonster => { assert("tuner monster"@[0] != "monster"@[0]); assert("tuner monster"@[0] != "spell"@[0]); assert("tuner monster"@[1] != "trap"@[1]); assert("tuner monster"@[0] != "card"@[0]); assert("tuner monster"@[0] != "effect monster"@[0]); assert("tuner monster"@[0] != "normal monster"@[0]); assert("tuner monster"@[0] != "fusion monster"@[0]); assert("tuner monster"@[0] != "synchro monster"@[0]); assert("tuner monster"@[0] != "xyz monster"@[0]); assert("tuner monster"@[0] != "link monster"@[0]); assert("tuner monster"@[0] != "ritual monster"@[0]); assert("tuner monster"@[0] != "pendulum monster"@[0]); },
        CardFilterKind::NonTunerMonster => { assert("non-tuner monster"@[0] != "monster"@[0]); assert("non-tuner monster"@[0] != "spell"@[0]); assert("non-tuner monster"@[0] != "trap"@[0]); assert("non-tuner monster"@[0] != "card"@[0]); assert("non-tuner monster"@[0] != "effect monster"@[0]); assert("non-tuner monster"@[2] != "normal monster"@[2]); assert("non-tuner monster"@[0] != "fusion monster"@[0]); assert("non-tuner monster"@[0] != "synchro monster"@[0]); assert("non-tuner monster"@[0] != "xyz monster"@[0]); assert("non-tuner monster"@[0] != "link monster"@[0]); assert("non-tuner monster"@[0] != "ritual monster"@[0]); assert("non-tuner monster"@[0] != "pendulum monster"@[0]); assert("non-tuner monster"@[0] != "tuner monster"@[0]); },
        CardFilterKind::NonTokenMonster => { assert("non-token monster"@[0] != "monster"@[0]); assert("non-token monster"@[0] != "spell"@[0]); assert("non-token monster"@[0] != "trap"@[0]); assert("non-token monster"@[0] != "card"@[0]); assert("non-token monster"@[0] != "effect monster"@[0]); assert("non-token monster"@[2] != "normal monster"@[2]); assert("non-token monster"@[0] != "fusion monster"@[0]); assert("non-token monster"@[0] != "synchro monster"@[0]); assert("non-token monster"@[0] != "xyz monster"@[0]); assert("non-token monster"@[0] != "link monster"@[0]); assert("non-token monster"@[0] != "ritual monster"@[0]); assert("non-token monster"@[0] != "pendulum monster"@[0]); assert("non-token monster"@[0] != "tuner monster"@[0]); assert("non-token monster"@[5] != "non-tuner monster"@[5]); },
    }
}

/// The word the formatter writes for a position filter reads back as the same value.
pub proof fn law_position_filter_word_roundtrip(v: PositionFilter)
    ensures
        spec_position_filter_of(spec_position_filter_name(v)) == Some(v),
{
    reveal_strlit("except self");
    reveal_strlit("face_down");
    reveal_strlit("face_up");
    reveal_strlit("in attack_position");
    reveal_strlit("in defense_position");
    match v {
        PositionFilter::FaceUp => {  },
        PositionFilter::FaceDown => { assert("face_down"@[5] != "face_up"@[5]); },
        PositionFilter::AttackPosition => { assert("in attack_position"@[0] != "face_up"@[0]); assert("in attack_position"@[0] != "face_down"@[0]); },
        PositionFilter::DefensePosition => { assert("in defense_position"@[0] != "face_up"@[0]); assert("in defense_position"@[0] != "face_down"@[0]); assert("in defense_position"@[3] != "in attack_position"@[3]); },
        PositionFilter::ExceptSelf => { assert("except self"@[0] != "face_up"@[0]); assert("except self"@[0] != "face_down"@[0]); assert("except self"@[0] != "in attack_position"@[0]); assert("except self"@[0] != "in defense_position"@[0]); },
    }
}

/// The word the formatter writes for a controller clause reads back as the same value.
pub proof fn law_controller_word_roundtrip(v: Controller)
    ensures
        spec_controller_of(spec_controller_name(v)) == Some(v),
{
    reveal_strlit("either controls");
    reveal_strlit("opponent controls");
    reveal_strlit("you control");
    match v {
        Controller::You => {  },
        Controller::Opponent => { assert("opponent controls"@[0] != "you control"@[0]); },
        Controller::Either => { assert("either controls"@[0] != "you control"@[0]); assert("either controls"@[0] != "opponent controls"@[0]); },
    }
}

/// The word the formatter writes for a redirect scope reads back as the same value.
pub proof fn law_redirect_scope_word_roundtrip(v: RedirectScope)
    ensures
        spec_redirect_scope_of(spec_redirect_scope_name(v)) == Some(v),
{
    reveal_strlit("both_fields");
    reveal_strlit("field");
    reveal_strlit("opponent_field");
    reveal_strlit("self");
    match v {
        RedirectScope::Self_ => {  },
        RedirectScope::Field => { assert("field"@[0] != "self"@[0]); },
        RedirectScope::OpponentField => { assert("opponent_field"@[0] != "self"@[0]); assert("opponent_field"@[0] != "field"@[0]); },
        RedirectScope::BothFields => { assert("both_fields"@[0] != "self"@[0]); assert("both_fields"@[0] != "field"@[0]); assert("both_fields"@[0] != "opponent_field"@[0]); },
    }
}

/// The word the formatter writes for a granted ability reads back as the same value
/// (destruction by card effect reads back as destruction by effect).
pub proof fn law_grant_ability_word_roundtrip(v: GrantAbility)
    ensures
        spec_grant_ability_of(spec_grant_ability_name(v)) == (if v == GrantAbility::CannotBeDestroyed(Some(DestroyBy::CardEffect)) { Some(GrantAbility::CannotBeDestroyed(Some(DestroyBy::Effect))) } else { Some(v) }),
{
    reveal_strlit("attack_all_monsters");
    reveal_strlit("cannot_activate");
    reveal_strlit("cannot_activate effects");
    reveal_strlit("cannot_activate spells");
    reveal_strlit("cannot_activate traps");
    reveal_strlit("cannot_attack");
    reveal_strlit("cannot_attack_directly");
    reveal_strlit("cannot_be_destroyed");
    reveal_strlit("cannot_be_destroyed by battle");
    reveal_strlit("cannot_be_destroyed by effect");
    reveal_strlit("cannot_be_targeted");
    reveal_strlit("cannot_be_targeted by effects");
    reveal_strlit("cannot_be_targeted by monsters");
    reveal_strlit("cannot_be_targeted by opponent");
    reveal_strlit("cannot_be_targeted by spells");
    reveal_strlit("cannot_be_targeted by traps");
    reveal_strlit("cannot_be_tributed");
    reveal_strlit("cannot_be_used_as_material");
    reveal_strlit("cannot_change_position");
    reveal_strlit("cannot_normal_summon");
    reveal_strlit("cannot_special_summon");
    reveal_strlit("direct_attack");
    reveal_strlit("double_attack");
    reveal_strlit("immune_to_targeting");
    reveal_strlit("must_attack");
    reveal_strlit("piercing");
    reveal_strlit("triple_attack");
    reveal_strlit("unaffected_by effects");
    reveal_strlit("unaffected_by monsters");
    reveal_strlit("unaffected_by opponent_effects");
    reveal_strlit("unaffected_by spells");
    reveal_strlit("unaffected_by traps");
    match v {
        GrantAbility::CannotAttack => {  },
        GrantAbility::CannotAttackDirectly => { assert("cannot_attack_directly"@.len() != "cannot_attack"@.len()); },
        GrantAbility::CannotChangePosition => { assert("cannot_change_position"@[7] != "cannot_attack"@[7]); assert("cannot_change_position"@[7] != "cannot_attack_directly"@[7]); },
        GrantAbility::CannotBeDestroyed(None) => { assert("cannot_be_destroyed"@[7] != "cannot_attack"@[7]); assert("cannot_be_destroyed"@[7] != "cannot_attack_directly"@[7]); assert("cannot_be_destroyed"@[7] != "cannot_change_position"@[7]); },
        GrantAbility::CannotBeDestroyed(Some(DestroyBy::Battle)) => { assert("cannot_be_destroyed by battle"@[7] != "cannot_attack"@[7]); assert("cannot_be_destroyed by battle"@[7] != "cannot_attack_directly"@[7]); assert("cannot_be_destroyed by battle"@[7] != "cannot_change_position"@[7]); assert("cannot_be_destroyed by battle"@.len() != "cannot_be_destroyed"@.len()); },
        GrantAbility::CannotBeDestroyed(Some(DestroyBy::Effect)) => { assert("cannot_be_destroyed by effect"@[7] != "cannot_attack"@[7]); assert("cannot_be_destroyed by effect"@[7] != "cannot_attack_directly"@[7]); assert("cannot_be_destroyed by effect"@[7] != "cannot_change_position"@[7]); assert("cannot_be_destroyed by effect"@.len() != "cannot_be_destroyed"@.len()); assert("cannot_be_destroyed by effect"@[23] != "cannot_be_destroyed by battle"@[23]); },
        GrantAbility::CannotBeTargeted(None) => { assert("cannot_be_targeted"@[7] != "cannot_attack"@[7]); assert("cannot_be_targeted"@[7] != "cannot_attack_directly"@[7]); assert("cannot_be_targeted"@[7] != "cannot_change_position"@[7]); assert("cannot_be_targeted"@[10] != "cannot_be_destroyed"@[10]); assert("cannot_be_targeted"@[10] != "cannot_be_destroyed by battle"@[10]); assert("cannot_be_targeted"@[10] != "cannot_be_destroyed by effect"@[10]); },
        GrantAbility::CannotBeTargeted(Some(TargetedBy::Spells)) => { assert("cannot_be_targeted by spells"@[7] != "cannot_attack"@[7]); assert("cannot_be_targeted by spells"@[7] != "cannot_attack_directly"@[7]); assert("cannot_be_targeted by spells"@[7] != "cannot_change_position"@[7]); assert("cannot_be_targeted by spells"@[10] != "cannot_be_destroyed"@[10]); assert("cannot_be_targeted by spells"@[10] != "cannot_be_destroyed by battle"@[10]); assert("cannot_be_targeted by spells"@[10] != "cannot_be_destroyed by effect"@[10]); assert("cannot_be_targeted by spells"@.len() != "cannot_be_targeted"@.len()); },
        GrantAbility::CannotBeTargeted(Some(TargetedBy::Traps)) => { assert("cannot_be_targeted by traps"@[7] != "cannot_attack"@[7]); assert("cannot_be_targeted by traps"@[7] != "cannot_attack_directly"@[7]); assert("cannot_be_targeted by traps"@[7] != "cannot_change_position"@[7]); assert("cannot_be_targeted by traps"@[10] != "cannot_be_destroyed"@[10]); assert("cannot_be_targeted by traps"@[10] != "cannot_be_destroyed by battle"@[10]); assert("cannot_be_targeted by traps"@[10] != "cannot_be_destroyed by effect"@[10]); assert("cannot_be_targeted by traps"@.len() != "cannot_be_targeted"@.len()); assert("cannot_be_targeted by traps"@[22] != "cannot_be_targeted by spells"@[22]); },
        GrantAbility::CannotBeTargeted(Some(TargetedBy::Monsters)) => { assert("cannot_be_targeted by monsters"@[7] != "cannot_attack"@[7]); assert("cannot_be_targeted by monsters"@[7] != "cannot_attack_directly"@[7]); assert("cannot_be_targeted by monsters"@[7] != "cannot_change_position"@[7]); assert("cannot_be_targeted by monsters"@[10] != "cannot_be_destroyed"@[10]); assert("cannot_be_targeted by monsters"@[10] != "cannot_be_destroyed by battle"@[10]); assert("cannot_be_targeted by monsters"@[10] != "cannot_be_destroyed by effect"@[10]); assert("cannot_be_targeted by monsters"@.len() != "cannot_be_targeted"@.len()); assert("cannot_be_targeted by monsters"@[22] != "cannot_be_targeted by spells"@[22]); assert("cannot_be_targeted by monsters"@[22] != "cannot_be_targeted by traps"@[22]); },
        GrantAbility::CannotBeTargeted(Some(TargetedBy::Effects)) => { assert("cannot_be_targeted by effects"@[7] != "cannot_attack"@[7]); assert("cannot_be_targeted by effects"@[7] != "cannot_attack_directly"@[7]); assert("cannot_be_targeted by effects"@[7] != "cannot_change_position"@[7]); assert("cannot_be_targeted by effects"@[10] != "cannot_be_destroyed"@[10]); assert("cannot_be_targeted by effects"@[10] != "cannot_be_destroyed by battle"@[10]); assert("cannot_be_targeted by effects"@[10] != "cannot_be_destroyed by effect"@[10]); assert("cannot_be_targeted by effects"@.len() != "cannot_be_targeted"@.len()); assert("cannot_be_targeted by effects"@[22] != "cannot_be_targeted by spells"@[22]); assert("cannot_be_targeted by effects"@[22] != "cannot_be_targeted by traps"@[22]); assert("cannot_be_targeted by effects"@[22] != "cannot_be_targeted by monsters"@[22]); },
        GrantAbility::CannotBeTargeted(Some(TargetedBy::Opponent)) => { assert("cannot_be_targeted by opponent"@[7] != "cannot_attack"@[7]); assert("cannot_be_targeted by opponent"@[7] != "cannot_attack_directly"@[7]); assert("cannot_be_targeted by opponent"@[7] != "cannot_change_position"@[7]); assert("cannot_be_targeted by opponent"@[10] != "cannot_be_destroyed"@[10]); assert("cannot_be_targeted by opponent"@[10] != "cannot_be_destroyed by battle"@[10]); assert("cannot_be_targeted by opponent"@[10] != "cannot_be_destroyed by effect"@[10]); assert("cannot_be_targeted by opponent"@.len() != "cannot_be_targeted"@.len()); assert("cannot_be_targeted by opponent"@[22] != "cannot_be_targeted by spells"@[22]); assert("cannot_be_targeted by opponent"@[22] != "cannot_be_targeted by traps"@[22]); assert("cannot_be_targeted by opponent"@[22] != "cannot_be_targeted by monsters"@[22]); assert("cannot_be_targeted by opponent"@[22] != "cannot_be_targeted by effects"@[22]); },
        GrantAbility::CannotBeTributed => { assert("cannot_be_tributed"@[7] != "cannot_attack"@[7]); assert("cannot_be_tributed"@[7] != "cannot_attack_directly"@[7]); assert("cannot_be_tributed"@[7] != "cannot_change_position"@[7]); assert("cannot_be_tributed"@[10] != "cannot_be_destroyed"@[10]); assert("cannot_be_tributed"@[10] != "cannot_be_destroyed by battle"@[10]); assert("cannot_be_tributed"@[10] != "cannot_be_destroyed by effect"@[10]); assert("cannot_be_tributed"@[11] != "cannot_be_targeted"@[11]); assert("cannot_be_tributed"@[11] != "cannot_be_targeted by spells"@[11]); assert("cannot_be_tributed"@[11] != "cannot_be_targeted by traps"@[11]); assert("cannot_be_tributed"@[11] != "cannot_be_targeted by monsters"@[11]); assert("cannot_be_tributed"@[11] != "cannot_be_targeted by effects"@[11]); assert("cannot_be_tributed"@[11] != "cannot_be_targeted by opponent"@[11]); },
        GrantAbility::CannotBeUsedAsMaterial => { assert("cannot_be_used_as_material"@[7] != "cannot_attack"@[7]); assert("cannot_be_used_as_material"@[7] != "cannot_attack_directly"@[7]); assert("cannot_be_used_as_material"@[7] != "cannot_change_position"@[7]); assert("cannot_be_used_as_material"@[10] != "cannot_be_destroyed"@[10]); assert("cannot_be_used_as_material"@[10] != "cannot_be_destroyed by battle"@[10]); assert("cannot_be_used_as_material"@[10] != "cannot_be_destroyed by effect"@[10]); assert("cannot_be_used_as_material"@[10] != "cannot_be_targeted"@[10]); assert("cannot_be_used_as_material"@[10] != "cannot_be_targeted by spells"@[10]); assert("cannot_be_used_as_material"@[10] != "cannot_be_targeted by traps"@[10]); assert("cannot_be_used_as_material"@[10] != "cannot_be_targeted by monsters"@[10]); assert("cannot_be_used_as_material"@[10] != "cannot_be_targeted by effects"@[10]); assert("cannot_be_used_as_material"@[10] != "cannot_be_targeted by opponent"@[10]); assert("cannot_be_used_as_material"@[10] != "cannot_be_tributed"@[10]); },
        GrantAbility::CannotActivate(None) => { assert("cannot_activate"@[8] != "cannot_attack"@[8]); assert("cannot_activate"@[8] != "cannot_attack_directly"@[8]); assert("cannot_activate"@[7] != "cannot_change_position"@[7]); assert("cannot_activate"@[7] != "cannot_be_destroyed"@[7]); assert("cannot_activate"@[7] != "cannot_be_destroyed by battle"@[7]); assert("cannot_activate"@[7] != "cannot_be_destroyed by effect"@[7]); assert("cannot_activate"@[7] != "cannot_be_targeted"@[7]); assert("cannot_activate"@[7] != "cannot_be_targeted by spells"@[7]); assert("cannot_activate"@[7] != "cannot_be_targeted by traps"@[7]); assert("cannot_activate"@[7] != "cannot_be_targeted by monsters"@[7]); assert("cannot_activate"@[7] != "cannot_be_targeted by effects"@[7]); assert("cannot_activate"@[7] != "cannot_be_targeted by opponent"@[7]); assert("cannot_activate"@[7] != "cannot_be_tributed"@[7]); assert("cannot_activate"@[7] != "cannot_be_used_as_material"@[7]); },
        GrantAbility::CannotActivate(Some(ActivateWhat::Effects)) => { assert("cannot_activate effects"@[8] != "cannot_attack"@[8]); assert("cannot_activate effects"@[8] != "cannot_attack_directly"@[8]); assert("cannot_activate effects"@[7] != "cannot_change_position"@[7]); assert("cannot_activate effects"@[7] != "cannot_be_destroyed"@[7]); assert("cannot_activate effects"@[7] != "cannot_be_destroyed by battle"@[7]); assert("cannot_activate effects"@[7] != "cannot_be_destroyed by effect"@[7]); assert("cannot_activate effects"@[7] != "cannot_be_targeted"@[7]); assert("cannot_activate effects"@[7] != "cannot_be_targeted by spells"@[7]); assert("cannot_activate effects"@[7] != "cannot_be_targeted by traps"@[7]); assert("cannot_activate effects"@[7] != "cannot_be_targeted by monsters"@[7]); assert("cannot_activate effects"@[7] != "cannot_be_targeted by effects"@[7]); assert("cannot_activate effects"@[7] != "cannot_be_targeted by opponent"@[7]); assert("cannot_activate effects"@[7] != "cannot_be_tributed"@[7]); assert("cannot_activate effects"@[7] != "cannot_be_used_as_material"@[7]); assert("cannot_activate effects"@.len() != "cannot_activate"@.len()); },
        GrantAbility::CannotActivate(Some(ActivateWhat::Spells)) => { assert("cannot_activate spells"@[8] != "cannot_attack"@[8]); assert("cannot_activate spells"@[8] != "cannot_attack_directly"@[8]); assert("cannot_activate spells"@[7] != "cannot_change_position"@[7]); assert("cannot_activate spells"@[7] != "cannot_be_destroyed"@[7]); assert("cannot_activate spells"@[7] != "cannot_be_destroyed by battle"@[7]); assert("cannot_activate spells"@[7] != "cannot_be_destroyed by effect"@[7]); assert("cannot_activate spells"@[7] != "cannot_be_targeted"@[7]); assert("cannot_activate spells"@[7] != "cannot_be_targeted by spells"@[7]); assert("cannot_activate spells"@[7] != "cannot_be_targeted by traps"@[7]); assert("cannot_activate spells"@[7] != "cannot_be_targeted by monsters"@[7]); assert("cannot_activate spells"@[7] != "cannot_be_targeted by effects"@[7]); assert("cannot_activate spells"@[7] != "cannot_be_targeted by opponent"@[7]); assert("cannot_activate spells"@[7] != "cannot_be_tributed"@[7]); assert("cannot_activate spells"@[7] != "cannot_be_used_as_material"@[7]); assert("cannot_activate spells"@.len() != "cannot_activate"@.len()); assert("cannot_activate spells"@[16] != "cannot_activate effects"@[16]); },
        GrantAbility::CannotActivate(Some(ActivateWhat::Traps)) => { assert("cannot_activate traps"@[8] != "cannot_attack"@[8]); assert("cannot_activate traps"@[8] != "cannot_attack_directly"@[8]); assert("cannot_activate traps"@[7] != "cannot_change_position"@[7]); assert("cannot_activate traps"@[7] != "cannot_be_destroyed"@[7]); assert("cannot_activate traps"@[7] != "cannot_be_destroyed by battle"@[7]); assert("cannot_activate traps"@[7] != "cannot_be_destroyed by effect"@[7]); assert("cannot_activate traps"@[7] != "cannot_be_targeted"@[7]); assert("cannot_activate traps"@[7] != "cannot_be_targeted by spells"@[7]); assert("cannot_activate traps"@[7] != "cannot_be_targeted by traps"@[7]); assert("cannot_activate traps"@[7] != "cannot_be_targeted by monsters"@[7]); assert("cannot_activate traps"@[7] != "cannot_be_targeted by effects"@[7]); assert("cannot_activate traps"@[7] != "cannot_be_targeted by opponent"@[7]); assert("cannot_activate traps"@[7] != "cannot_be_tributed"@[7]); assert("cannot_activate traps"@[7] != "cannot_be_used_as_material"@[7]); assert("cannot_activate traps"@.len() != "cannot_activate"@.len()); assert("cannot_activate traps"@[16] != "cannot_activate effects"@[16]); assert("cannot_activate traps"@[16] != "cannot_activate spells"@[16]); },
        GrantAbility::CannotNormalSummon => { assert("cannot_normal_summon"@[7] != "cannot_attack"@[7]); assert("cannot_normal_summon"@[7] != "cannot_attack_directly"@[7]); assert("cannot_normal_summon"@[7] != "cannot_change_position"@[7]); assert("cannot_normal_summon"@[7] != "cannot_be_destroyed"@[7]); assert("cannot_normal_summon"@[7] != "cannot_be_destroyed by battle"@[7]); assert("cannot_normal_summon"@[7] != "cannot_be_destroyed by effect"@[7]); assert("cannot_normal_summon"@[7] != "cannot_be_targeted"@[7]); assert("cannot_normal_summon"@[7] != "cannot_be_targeted by spells"@[7]); assert("cannot_normal_summon"@[7] != "cannot_be_targeted by traps"@[7]); assert("cannot_normal_summon"@[7] != "cannot_be_targeted by monsters"@[7]); assert("cannot_normal_summon"@[7] != "cannot_be_targeted by effects"@[7]); assert("cannot_normal_summon"@[7] != "cannot_be_targeted by opponent"@[7]); assert("cannot_normal_summon"@[7] != "cannot_be_tributed"@[7]); assert("cannot_normal_summon"@[7] != "cannot_be_used_as_material"@[7]); assert("cannot_normal_summon"@[7] != "cannot_activate"@[7]); assert("cannot_normal_summon"@[7] != "cannot_activate effects"@[7]); assert("cannot_normal_summon"@[7] != "cannot_activate spells"@[7]); assert("cannot_normal_summon"@[7] != "cannot_activate traps"@[7]); },
        GrantAbility::CannotSpecialSummon => { assert("cannot_special_summon"@[7] != "cannot_attack"@[7]); assert("cannot_special_summon"@[7] != "cannot_attack_directly"@[7]); assert("cannot_special_summon"@[7] != "cannot_change_position"@[7]); assert("cannot_special_summon"@[7] != "cannot_be_destroyed"@[7]); assert("cannot_special_summon"@[7] != "cannot_be_destroyed by battle"@[7]); assert("cannot_special_summon"@[7] != "cannot_be_destroyed by effect"@[7]); assert("cannot_special_summon"@[7] != "cannot_be_targeted"@[7]); assert("cannot_special_summon"@[7] != "cannot_be_targeted by spells"@[7]); assert("cannot_special_summon"@[7] != "cannot_be_targeted by traps"@[7]); assert("cannot_special_summon"@[7] != "cannot_be_targeted by monsters"@[7]); assert("cannot_special_summon"@[7] != "cannot_be_targeted by effects"@[7]); assert("cannot_special_summon"@[7] != "cannot_be_targeted by opponent"@[7]); assert("cannot_special_summon"@[7] != "cannot_be_tributed"@[7]); assert("cannot_special_summon"@[7] != "cannot_be_used_as_material"@[7]); assert("cannot_special_summon"@[7] != "cannot_activate"@[7]); assert("cannot_special_summon"@[7] != "cannot_activate effects"@[7]); assert("cannot_special_summon"@[7] != "cannot_activate spells"@[7]); assert("cannot_special_summon"@[7] != "cannot_activate traps"@[7]); assert("cannot_special_summon"@[7] != "cannot_normal_summon"@[7]); },
        GrantAbility::UnaffectedBy(UnaffectedSource::Spells) => { assert("unaffected_by spells"@[0] != "cannot_attack"@[0]); assert("unaffected_by spells"@[0] != "cannot_attack_directly"@[0]); assert("unaffected_by spells"@[0] != "cannot_change_position"@[0]); assert("unaffected_by spells"@[0] != "cannot_be_destroyed"@[0]); assert("unaffected_by spells"@[0] != "cannot_be_destroyed by battle"@[0]); assert("unaffected_by spells"@[0] != "cannot_be_destroyed by effect"@[0]); assert("unaffected_by spells"@[0] != "cannot_be_targeted"@[0]); assert("unaffected_by spells"@[0] != "cannot_be_targeted by spells"@[0]); assert("unaffected_by spells"@[0] != "cannot_be_targeted by traps"@[0]); assert("unaffected_by spells"@[0] != "cannot_be_targeted by monsters"@[0]); assert("unaffected_by spells"@[0] != "cannot_be_targeted by effects"@[0]); assert("unaffected_by spells"@[0] != "cannot_be_targeted by opponent"@[0]); assert("unaffected_by spells"@[0] != "cannot_be_tributed"@[0]); assert("unaffected_by spells"@[0] != "cannot_be_used_as_material"@[0]); assert("unaffected_by spells"@[0] != "cannot_activate"@[0]); assert("unaffected_by spells"@[0] != "cannot_activate effects"@[0]); assert("unaffected_by spells"@[0] != "cannot_activate spells"@[0]); assert("unaffected_by spells"@[0] != "cannot_activate traps"@[0]); assert("unaffected_by spells"@[0] != "cannot_normal_summon"@[0]); assert("unaffected_by spells"@[0] != "cannot_special_summon"@[0]); },
        GrantAbility::UnaffectedBy(UnaffectedSource::Traps) => { assert("unaffected_by traps"@[0] != "cannot_attack"@[0]); assert("unaffected_by traps"@[0] != "cannot_attack_directly"@[0]); assert("unaffected_by traps"@[0] != "cannot_change_position"@[0]); assert("unaffected_by traps"@[0] != "cannot_be_destroyed"@[0]); assert("unaffected_by traps"@[0] != "cannot_be_destroyed by battle"@[0]); assert("unaffected_by traps"@[0] != "cannot_be_destroyed by effect"@[0]); assert("unaffected_by traps"@[0] != "cannot_be_targeted"@[0]); assert("unaffected_by traps"@[0] != "cannot_be_targeted by spells"@[0]); assert("unaffected_by traps"@[0] != "cannot_be_targeted by traps"@[0]); assert("unaffected_by traps"@[0] != "cannot_be_targeted by monsters"@[0]); assert("unaffected_by traps"@[0] != "cannot_be_targeted by effects"@[0]); assert("unaffected_by traps"@[0] != "cannot_be_targeted by opponent"@[0]); assert("unaffected_by traps"@[0] != "cannot_be_tributed"@[0]); assert("unaffected_by traps"@[0] != "cannot_be_used_as_material"@[0]); assert("unaffected_by traps"@[0] != "cannot_activate"@[0]); assert("unaffected_by traps"@[0] != "cannot_activate effects"@[0]); assert("unaffected_by traps"@[0] != "cannot_activate spells"@[0]); assert("unaffected_by traps"@[0] != "cannot_activate traps"@[0]); assert("unaffected_by traps"@[0] != "cannot_normal_summon"@[0]); assert("unaffected_by traps"@[0] != "cannot_special_summon"@[0]); assert("unaffected_by traps"@[14] != "unaffected_by spells"@[14]); },
        GrantAbility::UnaffectedBy(UnaffectedSource::Monsters) => { assert("unaffected_by monsters"@[0] != "cannot_attack"@[0]); assert("unaffected_by monsters"@[0] != "cannot_attack_directly"@[0]); assert("unaffected_by monsters"@[0] != "cannot_change_position"@[0]); assert("unaffected_by monsters"@[0] != "cannot_be_destroyed"@[0]); assert("unaffected_by monsters"@[0] != "cannot_be_destroyed by battle"@[0]); assert("unaffected_by monsters"@[0] != "cannot_be_destroyed by effect"@[0]); assert("unaffected_by monsters"@[0] != "cannot_be_targeted"@[0]); assert("unaffected_by monsters"@[0] != "cannot_be_targeted by spells"@[0]); assert("unaffected_by monsters"@[0] != "cannot_be_targeted by traps"@[0]); assert("unaffected_by monsters"@[0] != "cannot_be_targeted by monsters"@[0]); assert("unaffected_by monsters"@[0] != "cannot_be_targeted by effects"@[0]); assert("unaffected_by monsters"@[0] != "cannot_be_targeted by opponent"@[0]); assert("unaffected_by monsters"@[0] != "cannot_be_tributed"@[0]); assert("unaffected_by monsters"@[0] != "cannot_be_used_as_material"@[0]); assert("unaffected_by monsters"@[0] != "cannot_activate"@[0]); assert("unaffected_by monsters"@[0] != "cannot_activate effects"@[0]); assert("unaffected_by monsters"@[0] != "cannot_activate spells"@[0]); assert("unaffected_by monsters"@[0] != "cannot_activate traps"@[0]); assert("unaffected_by monsters"@[0] != "cannot_normal_summon"@[0]); assert("unaffected_by monsters"@[0] != "cannot_special_summon"@[0]); assert("unaffected_by monsters"@[14] != "unaffected_by spells"@[14]); assert("unaffected_by monsters"@[14] != "unaffected_by traps"@[14]); },
        GrantAbility::UnaffectedBy(UnaffectedSource::Effects) => { assert("unaffected_by effects"@[0] != "cannot_attack"@[0]); assert("unaffected_by effects"@[0] != "cannot_attack_directly"@[0]); assert("unaffected_by effects"@[0] != "cannot_change_position"@[0]); assert("unaffected_by effects"@[0] != "cannot_be_destroyed"@[0]); assert("unaffected_by effects"@[0] != "cannot_be_destroyed by battle"@[0]); assert("unaffected_by effects"@[0] != "cannot_be_destroyed by effect"@[0]); assert("unaffected_by effects"@[0] != "cannot_be_targeted"@[0]); assert("unaffected_by effects"@[0] != "cannot_be_targeted by spells"@[0]); assert("unaffected_by effects"@[0] != "cannot_be_targeted by traps"@[0]); assert("unaffected_by effects"@[0] != "cannot_be_targeted by monsters"@[0]); assert("unaffected_by effects"@[0] != "cannot_be_targeted by effects"@[0]); assert("unaffected_by effects"@[0] != "cannot_be_targeted by opponent"@[0]); assert("unaffected_by effects"@[0] != "cannot_be_tributed"@[0]); assert("unaffected_by effects"@[0] != "cannot_be_used_as_material"@[0]); assert("unaffected_by effects"@[0] != "cannot_activate"@[0]); assert("unaffected_by effects"@[0] != "cannot_activate effects"@[0]); assert("unaffected_by effects"@[0] != "cannot_activate spells"@[0]); assert("unaffected_by effects"@[0] != "cannot_activate traps"@[0]); assert("unaffected_by effects"@[0] != "cannot_normal_summon"@[0]); assert("unaffected_by effects"@[0] != "cannot_special_summon"@[0]); assert("unaffected_by effects"@[14] != "unaffected_by spells"@[14]); assert("unaffected_by effects"@[14] != "unaffected_by traps"@[14]); assert("unaffected_by effects"@[14] != "unaffected_by monsters"@[14]); },
        GrantAbility::UnaffectedBy(UnaffectedSource::OpponentEffects) => { assert("unaffected_by opponent_effects"@[0] != "cannot_attack"@[0]); assert("unaffected_by opponent_effects"@[0] != "cannot_attack_directly"@[0]); assert("unaffected_by opponent_effects"@[0] != "cannot_change_position"@[0]); assert("unaffected_by opponent_effects"@[0] != "cannot_be_destroyed"@[0]); assert("unaffected_by opponent_effects"@[0] != "cannot_be_destroyed by battle"@[0]); assert("unaffected_by opponent_effects"@[0] != "cannot_be_destroyed by effect"@[0]); assert("unaffected_by opponent_effects"@[0] != "cannot_be_targeted"@[0]); assert("unaffected_by opponent_effects"@[0] != "cannot_be_targeted by spells"@[0]); assert("unaffected_by opponent_effects"@[0] != "cannot_be_targeted by traps"@[0]); assert("unaffected_by opponent_effects"@[0] != "cannot_be_targeted by monsters"@[0]); assert("unaffected_by opponent_effects"@[0] != "cannot_be_targeted by effects"@[0]); assert("unaffected_by opponent_effects"@[0] != "cannot_be_targeted by opponent"@[0]); assert("unaffected_by opponent_effects"@[0] != "cannot_be_tributed"@[0]); assert("unaffected_by opponent_effects"@[0] != "cannot_be_used_as_material"@[0]); assert("unaffected_by opponent_effects"@[0] != "cannot_activate"@[0]); assert("unaffected_by opponent_effects"@[0] != "cannot_activate effects"@[0]); assert("unaffected_by opponent_effects"@[0] != "cannot_activate spells"@[0]); assert("unaffected_by opponent_effects"@[0] != "cannot_activate traps"@[0]); assert("unaffected_by opponent_effects"@[0] != "cannot_normal_summon"@[0]); assert("unaffected_by opponent_effects"@[0] != "cannot_special_summon"@[0]); assert("unaffected_by opponent_effects"@[14] != "unaffected_by spells"@[14]); assert("unaffected_by opponent_effects"@[14] != "unaffected_by traps"@[14]); assert("unaffected_by opponent_effects"@[14] != "unaffected_by monsters"@[14]); assert("unaffected_by opponent_effects"@[14] != "unaffected_by effects"@[14]); },
        GrantAbility::Piercing => { assert("piercing"@[0] != "cannot_attack"@[0]); assert("piercing"@[0] != "cannot_attack_directly"@[0]); assert("piercing"@[0] != "cannot_change_position"@[0]); assert("piercing"@[0] != "cannot_be_destroyed"@[0]); assert("piercing"@[0] != "cannot_be_destroyed by battle"@[0]); assert("piercing"@[0] != "cannot_be_destroyed by effect"@[0]); assert("piercing"@[0] != "cannot_be_targeted"@[0]); assert("piercing"@[0] != "cannot_be_targeted by spells"@[0]); assert("piercing"@[0] != "cannot_be_targeted by traps"@[0]); assert("piercing"@[0] != "cannot_be_targeted by monsters"@[0]); assert("piercing"@[0] != "cannot_be_targeted by effects"@[0]); assert("piercing"@[0] != "cannot_be_targeted by opponent"@[0]); assert("piercing"@[0] != "cannot_be_tributed"@[0]); assert("piercing"@[0] != "cannot_be_used_as_material"@[0]); assert("piercing"@[0] != "cannot_activate"@[0]); assert("piercing"@[0] != "cannot_activate effects"@[0]); assert("piercing"@[0] != "cannot_activate spells"@[0]); assert("piercing"@[0] != "cannot_activate traps"@[0]); assert("piercing"@[0] != "cannot_normal_summon"@[0]); assert("piercing"@[0] != "cannot_special_summon"@[0]); assert("piercing"@[0] != "unaffected_by spells"@[0]); assert("piercing"@[0] != "unaffected_by traps"@[0]); assert("piercing"@[0] != "unaffected_by monsters"@[0]); assert("piercing"@[0] != "unaffected_by effects"@[0]); assert("piercing"@[0] != "unaffected_by opponent_effects"@[0]); },
        GrantAbility::DirectAttack => { assert("direct_attack"@[0] != "cannot_attack"@[0]); assert("direct_attack"@[0] != "cannot_attack_directly"@[0]); assert("direct_attack"@[0] != "cannot_change_position"@[0]); assert("direct_attack"@[0] != "cannot_be_destroyed"@[0]); assert("direct_attack"@[0] != "cannot_be_destroyed by battle"@[0]); assert("direct_attack"@[0] != "cannot_be_destroyed by effect"@[0]); assert("direct_attack"@[0] != "cannot_be_targeted"@[0]); assert("direct_attack"@[0] != "cannot_be_targeted by spells"@[0]); assert("direct_attack"@[0] != "cannot_be_targeted by traps"@[0]); assert("direct_attack"@[0] != "cannot_be_targeted by monsters"@[0]); assert("direct_attack"@[0] != "cannot_be_targeted by effects"@[0]); assert("direct_attack"@[0] != "cannot_be_targeted by opponent"@[0]); assert("direct_attack"@[0] != "cannot_be_tributed"@[0]); assert("direct_attack"@[0] != "cannot_be_used_as_material"@[0]); assert("direct_attack"@[0] != "cannot_activate"@[0]); assert("direct_attack"@[0] != "cannot_activate effects"@[0]); assert("direct_attack"@[0] != "cannot_activate spells"@[0]); assert("direct_attack"@[0] != "cannot_activate traps"@[0]); assert("direct_attack"@[0] != "cannot_normal_summon"@[0]); assert("direct_attack"@[0] != "cannot_special_summon"@[0]); assert("direct_attack"@[0] != "unaffected_by spells"@[0]); assert("direct_attack"@[0] != "unaffected_by traps"@[0]); assert("direct_attack"@[0] != "unaffected_by monsters"@[0]); assert("direct_attack"@[0] != "unaffected_by effects"@[0]); assert("direct_attack"@[0] != "unaffected_by opponent_effects"@[0]); assert("direct_attack"@[0] != "piercing"@[0]); },
        GrantAbility::DoubleAttack => { assert("double_attack"@[0] != "cannot_attack"@[0]); assert("double_attack"@[0] != "cannot_attack_directly"@[0]); assert("double_attack"@[0] != "cannot_change_position"@[0]); assert("double_attack"@[0] != "cannot_be_destroyed"@[0]); assert("double_attack"@[0] != "cannot_be_destroyed by battle"@[0]); assert("double_attack"@[0] != "cannot_be_destroyed by effect"@[0]); assert("double_attack"@[0] != "cannot_be_targeted"@[0]); assert("double_attack"@[0] != "cannot_be_targeted by spells"@[0]); assert("double_attack"@[0] != "cannot_be_targeted by traps"@[0]); assert("double_attack"@[0] != "cannot_be_targeted by monsters"@[0]); assert("double_attack"@[0] != "cannot_be_targeted by effects"@[0]); assert("double_attack"@[0] != "cannot_be_targeted by opponent"@[0]); assert("double_attack"@[0] != "cannot_be_tributed"@[0]); assert("double_attack"@[0] != "cannot_be_used_as_material"@[0]); assert("double_attack"@[0] != "cannot_activate"@[0]); assert("double_attack"@[0] != "cannot_activate effects"@[0]); assert("double_attack"@[0] != "cannot_activate spells"@[0]); assert("double_attack"@[0] != "cannot_activate traps"@[0]); assert("double_attack"@[0] != "cannot_normal_summon"@[0]); assert("double_attack"@[0] != "cannot_special_summon"@[0]); assert("double_attack"@[0] != "unaffected_by spells"@[0]); assert("double_attack"@[0] != "unaffected_by traps"@[0]); assert("double_attack"@[0] != "unaffected_by monsters"@[0]); assert("double_attack"@[0] != "unaffected_by effects"@[0]); assert("double_attack"@[0] != "unaffected_by opponent_effects"@[0]); assert("double_attack"@[0] != "piercing"@[0]); assert("double_attack"@[1] != "direct_attack"@[1]); },
        GrantAbility::TripleAttack => { assert("triple_attack"@[0] != "cannot_attack"@[0]); assert("triple_attack"@[0] != "cannot_attack_directly"@[0]); assert("triple_attack"@[0] != "cannot_change_position"@[0]); assert("triple_attack"@[0] != "cannot_be_destroyed"@[0]); assert("triple_attack"@[0] != "cannot_be_destroyed by battle"@[0]); assert("triple_attack"@[0] != "cannot_be_destroyed by effect"@[0]); assert("triple_attack"@[0] != "cannot_be_targeted"@[0]); assert("triple_attack"@[0] != "cannot_be_targeted by spells"@[0]); assert("triple_attack"@[0] != "cannot_be_targeted by traps"@[0]); assert("triple_attack"@[0] != "cannot_be_targeted by monsters"@[0]); assert("triple_attack"@[0] != "cannot_be_targeted by effects"@[0]); assert("triple_attack"@[0] != "cannot_be_targeted by opponent"@[0]); assert("triple_attack"@[0] != "cannot_be_tributed"@[0]); assert("triple_attack"@[0] != "cannot_be_used_as_material"@[0]); assert("triple_attack"@[0] != "cannot_activate"@[0]); assert("triple_attack"@[0] != "cannot_activate effects"@[0]); assert("triple_attack"@[0] != "cannot_activate spells"@[0]); assert("triple_attack"@[0] != "cannot_activate traps"@[0]); assert("triple_attack"@[0] != "cannot_normal_summon"@[0]); assert("triple_attack"@[0] != "cannot_special_summon"@[0]); assert("triple_attack"@[0] != "unaffected_by spells"@[0]); assert("triple_attack"@[0] != "unaffected_by traps"@[0]); assert("triple_attack"@[0] != "unaffected_by monsters"@[0]); assert("triple_attack"@[0] != "unaffected_by effects"@[0]); assert("triple_attack"@[0] != "unaffected_by opponent_effects"@[0]); assert("triple_attack"@[0] != "piercing"@[0]); assert("triple_attack"@[0] != "direct_attack"@[0]); assert("triple_attack"@[0] != "double_attack"@[0]); },
        GrantAbility::AttackAllMonsters => { assert("attack_all_monsters"@[0] != "cannot_attack"@[0]); assert("attack_all_monsters"@[0] != "cannot_attack_directly"@[0]); assert("attack_all_monsters"@[0] != "cannot_change_position"@[0]); assert("attack_all_monsters"@[0] != "cannot_be_destroyed"@[0]); assert("attack_all_monsters"@[0] != "cannot_be_destroyed by battle"@[0]); assert("attack_all_monsters"@[0] != "cannot_be_destroyed by effect"@[0]); assert("attack_all_monsters"@[0] != "cannot_be_targeted"@[0]); assert("attack_all_monsters"@[0] != "cannot_be_targeted by spells"@[0]); assert("attack_all_monsters"@[0] != "cannot_be_targeted by traps"@[0]); assert("attack_all_monsters"@[0] != "cannot_be_targeted by monsters"@[0]); assert("attack_all_monsters"@[0] != "cannot_be_targeted by effects"@[0]); assert("attack_all_monsters"@[0] != "cannot_be_targeted by opponent"@[0]); assert("attack_all_monsters"@[0] != "cannot_be_tributed"@[0]); assert("attack_all_monsters"@[0] != "cannot_be_used_as_material"@[0]); assert("attack_all_monsters"@[0] != "cannot_activate"@[0]); assert("attack_all_monsters"@[0] != "cannot_activate effects"@[0]); assert("attack_all_monsters"@[0] != "cannot_activate spells"@[0]); assert("attack_all_monsters"@[0] != "cannot_activate traps"@[0]); assert("attack_all_monsters"@[0] != "cannot_normal_summon"@[0]); assert("attack_all_monsters"@[0] != "cannot_special_summon"@[0]); assert("attack_all_monsters"@[0] != "unaffected_by spells"@[0]); assert("attack_all_monsters"@[0] != "unaffected_by traps"@[0]); assert("attack_all_monsters"@[0] != "unaffected_by monsters"@[0]); assert("attack_all_monsters"@[0] != "unaffected_by effects"@[0]); assert("attack_all_monsters"@[0] != "unaffected_by opponent_effects"@[0]); assert("attack_all_monsters"@[0] != "piercing"@[0]); assert("attack_all_monsters"@[0] != "direct_attack"@[0]); assert("attack_all_monsters"@[0] != "double_attack"@[0]); assert("attack_all_monsters"@[0] != "triple_attack"@[0]); },
        GrantAbility::MustAttack => { assert("must_attack"@[0] != "cannot_attack"@[0]); assert("must_attack"@[0] != "cannot_attack_directly"@[0]); assert("must_attack"@[0] != "cannot_change_position"@[0]); assert("must_attack"@[0] != "cannot_be_destroyed"@[0]); assert("must_attack"@[0] != "cannot_be_destroyed by battle"@[0]); assert("must_attack"@[0] != "cannot_be_destroyed by effect"@[0]); assert("must_attack"@[0] != "cannot_be_targeted"@[0]); assert("must_attack"@[0] != "cannot_be_targeted by spells"@[0]); assert("must_attack"@[0] != "cannot_be_targeted by traps"@[0]); assert("must_attack"@[0] != "cannot_be_targeted by monsters"@[0]); assert("must_attack"@[0] != "cannot_be_targeted by effects"@[0]); assert("must_attack"@[0] != "cannot_be_targeted by opponent"@[0]); assert("must_attack"@[0] != "cannot_be_tributed"@[0]); assert("must_attack"@[0] != "cannot_be_used_as_material"@[0]); assert("must_attack"@[0] != "cannot_activate"@[0]); assert("must_attack"@[0] != "cannot_activate effects"@[0]); assert("must_attack"@[0] != "cannot_activate spells"@[0]); assert("must_attack"@[0] != "cannot_activate traps"@[0]); assert("must_attack"@[0] != "cannot_normal_summon"@[0]); assert("must_attack"@[0] != "cannot_special_summon"@[0]); assert("must_attack"@[0] != "unaffected_by spells"@[0]); assert("must_attack"@[0] != "unaffected_by traps"@[0]); assert("must_attack"@[0] != "unaffected_by monsters"@[0]); assert("must_attack"@[0] != "unaffected_by effects"@[0]); assert("must_attack"@[0] != "unaffected_by opponent_effects"@[0]); assert("must_attack"@[0] != "piercing"@[0]); assert("must_attack"@[0] != "direct_attack"@[0]); assert("must_attack"@[0] != "double_attack"@[0]); assert("must_attack"@[0] != "triple_attack"@[0]); assert("must_attack"@[0] != "attack_all_monsters"@[0]); },
        GrantAbility::ImmuneToTargeting => { assert("immune_to_targeting"@[0] != "cannot_attack"@[0]); assert("immune_to_targeting"@[0] != "cannot_attack_directly"@[0]); assert("immune_to_targeting"@[0] != "cannot_change_position"@[0]); assert("immune_to_targeting"@[0] != "cannot_be_destroyed"@[0]); assert("immune_to_targeting"@[0] != "cannot_be_destroyed by battle"@[0]); assert("immune_to_targeting"@[0] != "cannot_be_destroyed by effect"@[0]); assert("immune_to_targeting"@[0] != "cannot_be_targeted"@[0]); assert("immune_to_targeting"@[0] != "cannot_be_targeted by spells"@[0]); assert("immune_to_targeting"@[0] != "cannot_be_targeted by traps"@[0]); assert("immune_to_targeting"@[0] != "cannot_be_targeted by monsters"@[0]); assert("immune_to_targeting"@[0] != "cannot_be_targeted by effects"@[0]); assert("immune_to_targeting"@[0] != "cannot_be_targeted by opponent"@[0]); assert("immune_to_targeting"@[0] != "cannot_be_tributed"@[0]); assert("immune_to_targeting"@[0] != "cannot_be_used_as_material"@[0]); assert("immune_to_targeting"@[0] != "cannot_activate"@[0]); assert("immune_to_targeting"@[0] != "cannot_activate effects"@[0]); assert("immune_to_targeting"@[0] != "cannot_activate spells"@[0]); assert("immune_to_targeting"@[0] != "cannot_activate traps"@[0]); assert("immune_to_targeting"@[0] != "cannot_normal_summon"@[0]); assert("immune_to_targeting"@[0] != "cannot_special_summon"@[0]); assert("immune_to_targeting"@[0] != "unaffected_by spells"@[0]); assert("immune_to_targeting"@[0] != "unaffected_by traps"@[0]); assert("immune_to_targeting"@[0] != "unaffected_by monsters"@[0]); assert("immune_to_targeting"@[0] != "unaffected_by effects"@[0]); assert("immune_to_targeting"@[0] != "unaffected_by opponent_effects"@[0]); assert("immune_to_targeting"@[0] != "piercing"@[0]); assert("immune_to_targeting"@[0] != "direct_attack"@[0]); assert("immune_to_targeting"@[0] != "double_attack"@[0]); assert("immune_to_targeting"@[0] != "triple_attack"@[0]); assert("immune_to_targeting"@[0] != "attack_all_monsters"@[0]); assert("immune_to_targeting"@[0] != "must_attack"@[0]); },
        GrantAbility::CannotBeDestroyed(Some(DestroyBy::CardEffect)) => {},
    }
}
} // verus!
