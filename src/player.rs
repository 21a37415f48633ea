use vstd::prelude::*;

verus! {

/// The stat that an upgrade improves.
#[derive(Clone, Copy, Debug, PartialEq, Eq, Structural)]
pub enum UpgradeType {
    Toughness,
    Accuracy,
    Endurance,
}

/// How far an upgrade goes.
#[derive(Clone, Copy, Debug, PartialEq, Eq, Structural)]
pub enum UpgradeLevel {
    Level1,
    Level2,
}

/// One upgrade that the player may buy.
#[derive(Clone, Copy, Debug, PartialEq, Eq, Structural)]
pub struct Upgrade {
    pub typ: UpgradeType,
    pub level: UpgradeLevel,
}

/// One of the player's three ranged weapon slots.
#[derive(Clone, Copy, Debug, PartialEq, Eq, Structural)]
pub enum RangedWeaponSlot {
    Slot1,
    Slot2,
    Slot3,
}

impl RangedWeaponSlot {
    pub open spec fn spec_index(self) -> nat {
        match self {
            RangedWeaponSlot::Slot1 => 0,
            RangedWeaponSlot::Slot2 => 1,
            RangedWeaponSlot::Slot3 => 2,
        }
    }

    /// The slot's position, counting from zero.
    pub fn index(self) -> (r: usize)
        ensures
            r as nat == self.spec_index(),
    {
        match self {
            RangedWeaponSlot::Slot1 => 0,
            RangedWeaponSlot::Slot2 => 1,
            RangedWeaponSlot::Slot3 => 2,
        }
    }
}

/// What the player has come to hold through the operations of this crate:
/// the upgrades that the engine accepted, oldest first.
pub struct Player {
    pub(crate) upgrades: Vec<Upgrade>,
}

impl View for Player {
    type V = Seq<Upgrade>;

    closed spec fn view(&self) -> Seq<Upgrade> {
        self.upgrades@
    }
}

impl Player {
    pub fn new() -> (r: Player)
        ensures
            r@ == Seq::<Upgrade>::empty(),
    {
        Player { upgrades: Vec::new() }
    }

    pub(crate) fn from_upgrades(upgrades: Vec<Upgrade>) -> (r: Player)
        ensures
            r@ == upgrades@,
    {
        Player { upgrades }
    }

    pub(crate) fn add_upgrade(&mut self, upgrade: Upgrade)
        ensures
            final(self)@ == old(self)@.push(upgrade),
    {
        self.upgrades.push(upgrade);
    }

    /// The upgrades applied so far, oldest first.
    pub fn upgrades(&self) -> (r: &Vec<Upgrade>)
        ensures
            r@ == self@,
    {
        &self.upgrades
    }
}

} // verus!
