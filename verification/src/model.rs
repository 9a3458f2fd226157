//! Application-level selections that influence composition: the playable
//! character class (which picks the start-node artwork) and the active view.

use vstd::prelude::*;

verus! {

/// The seven playable character classes. The selected class decides which
/// start-node sprite is drawn at a class start node.
#[derive(Debug, PartialEq, Eq, Structural, Clone, Copy)]
pub enum CharacterClass {
    Scion,
    Marauder,
    Ranger,
    Witch,
    Duelist,
    Templar,
    Shadow,
}

impl CharacterClass {
    /// Numeric identifier of the class; class start nodes carry the same
    /// number in their `class_start_index` field.
    pub open spec fn spec_id(self) -> int {
        match self {
            CharacterClass::Scion => 0,
            CharacterClass::Marauder => 1,
            CharacterClass::Ranger => 2,
            CharacterClass::Witch => 3,
            CharacterClass::Duelist => 4,
            CharacterClass::Templar => 5,
            CharacterClass::Shadow => 6,
        }
    }

    pub fn id(&self) -> (r: i32)
        ensures
            r == self.spec_id(),
            0 <= r < 7,
    {
        match self {
            CharacterClass::Scion => 0,
            CharacterClass::Marauder => 1,
            CharacterClass::Ranger => 2,
            CharacterClass::Witch => 3,
            CharacterClass::Duelist => 4,
            CharacterClass::Templar => 5,
            CharacterClass::Shadow => 6,
        }
    }
}

/// Which screen the application is showing.
pub enum AppView {
    PassiveTree,
    Note,
    NoteEdit,
}

/// Name of the start-node artwork for a class start index. Indices 0 to 6
/// are the class-specific center pieces; index 7 is the generic inactive
/// backdrop drawn when the start node does not belong to the selected class.
pub open spec fn spec_class_art(i: int) -> Seq<char> {
    if i == 0 {
        "centerscion"@
    } else if i == 1 {
        "centermarauder"@
    } else if i == 2 {
        "centerranger"@
    } else if i == 3 {
        "centerwitch"@
    } else if i == 4 {
        "centerduelist"@
    } else if i == 5 {
        "centertemplar"@
    } else if i == 6 {
        "centershadow"@
    } else {
        "PSStartNodeBackgroundInactive"@
    }
}

/// Start-node artwork names, one per class start index plus the generic
/// inactive backdrop.
pub fn class_art(index: usize) -> (r: &'static str)
    requires
        index < 8,
    ensures
        r@ == spec_class_art(index as int),
{
    match index {
        0 => "centerscion",
        1 => "centermarauder",
        2 => "centerranger",
        3 => "centerwitch",
        4 => "centerduelist",
        5 => "centertemplar",
        6 => "centershadow",
        _ => "PSStartNodeBackgroundInactive",
    }
}

} // verus!
