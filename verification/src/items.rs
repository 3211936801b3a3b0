use vstd::prelude::*;
use crate::character::Character;

verus! {

/// A capability applied to a character. One application may change the
/// target's life and the item's own internal state; it touches nothing
/// else of the target.
pub trait Item: Sized {
    /// The item's state and the target's life after one application.
    spec fn spec_apply(self, life: u8) -> (Self, u8);

    /// The item's immutable name.
    spec fn spec_name(self) -> Seq<char>;

    /// Applies the item to `target`: the target's life and the item's own
    /// state move to what [`Item::spec_apply`] says; every other field of
    /// the target is left unchanged.
    fn apply(&mut self, target: &mut Character)
        ensures
            *final(self) == old(self).spec_apply(old(target).life).0,
            *final(target) == (Character {
                life: old(self).spec_apply(old(target).life).1,
                ..*old(target)
            }),
    ;

    /// Returns the item's immutable name.
    fn get_name(&self) -> (r: &'static str)
        ensures
            r@ == self.spec_name(),
    ;
}

/// A weapon: applying it to a character reduces the target's life by
/// `damage` and wears its own durability down by half the damage, both
/// saturating at zero. A weapon whose durability has reached zero is
/// broken, and applying it does nothing at all.
pub struct Weapon {
    pub name: &'static str,
    pub damage: u8,
    pub durability: u8,
}

impl Weapon {
    /// Creates a weapon with the given name, damage and durability.
    pub fn new(name: &'static str, damage: u8, durability: u8) -> (w: Self)
        ensures
            w == (Weapon { name, damage, durability }),
    {
        Weapon { name, damage, durability }
    }

    /// Wears the weapon down by half its damage (integer division),
    /// saturating at zero durability.
    fn reduce_durability(&mut self)
        ensures
            *final(self) == (Weapon {
                durability: old(self).durability.saturating_sub(old(self).damage / 2),
                ..*old(self)
            }),
    {
        self.durability = self.durability.saturating_sub(self.damage / 2);
    }

    /// A weapon is broken once its durability has reached zero. Broken is
    /// terminal: no operation ever raises durability again.
    pub fn is_broken(&self) -> (r: bool)
        ensures
            r == (self.durability == 0),
    {
        self.durability == 0
    }
}

impl Item for Weapon {
    open spec fn spec_apply(self, life: u8) -> (Self, u8) {
        if self.durability == 0 {
            (self, life)
        } else {
            (
                Weapon {
                    durability: self.durability.saturating_sub(self.damage / 2),
                    ..self
                },
                life.saturating_sub(self.damage),
            )
        }
    }

    open spec fn spec_name(self) -> Seq<char> {
        self.name@
    }

    fn apply(&mut self, target: &mut Character) {
        if !self.is_broken() {
            target.life = target.life.saturating_sub(self.damage);
            self.reduce_durability();
        }
    }

    fn get_name(&self) -> (r: &'static str) {
        self.name
    }
}

/// A potion: applying it to a character restores `heal` life to the
/// target, saturating at the largest representable life value. The model
/// does not track uses: a potion may be applied again and again.
pub struct Potion {
    pub name: &'static str,
    pub heal: u8,
}

impl Potion {
    /// Creates a potion with the given name and heal amount.
    pub fn new(name: &'static str, heal: u8) -> (p: Self)
        ensures
            p == (Potion { name, heal }),
    {
        Potion { name, heal }
    }
}

impl Item for Potion {
    open spec fn spec_apply(self, life: u8) -> (Self, u8) {
        (self, life.saturating_add(self.heal))
    }

    open spec fn spec_name(self) -> Seq<char> {
        self.name@
    }

    fn apply(&mut self, target: &mut Character) {
        target.life = target.life.saturating_add(self.heal);
    }

    fn get_name(&self) -> (r: &'static str) {
        self.name
    }
}

/// The closed set of item variants a character can hold, dispatched by
/// pattern matching.
pub enum ItemKind {
    Weapon(Weapon),
    Potion(Potion),
}

impl Item for ItemKind {
    open spec fn spec_apply(self, life: u8) -> (Self, u8) {
        match self {
            ItemKind::Weapon(w) => (ItemKind::Weapon(w.spec_apply(life).0), w.spec_apply(life).1),
            ItemKind::Potion(p) => (ItemKind::Potion(p.spec_apply(life).0), p.spec_apply(life).1),
        }
    }

    open spec fn spec_name(self) -> Seq<char> {
        match self {
            ItemKind::Weapon(w) => w.spec_name(),
            ItemKind::Potion(p) => p.spec_name(),
        }
    }

    fn apply(&mut self, target: &mut Character) {
        match self {
            ItemKind::Weapon(w) => w.apply(target),
            ItemKind::Potion(p) => p.apply(target),
        }
    }

    fn get_name(&self) -> (r: &'static str) {
        match self {
            ItemKind::Weapon(w) => w.get_name(),
            ItemKind::Potion(p) => p.get_name(),
        }
    }
}

/// The weapon's state and the target's life after `n` successive
/// applications of the weapon to the same target, with no other mutation
/// in between.
pub open spec fn weapon_apply_times(w: Weapon, life: u8, n: nat) -> (Weapon, u8)
    decreases n,
{
    if n == 0 {
        (w, life)
    } else {
        let (w2, l2) = weapon_apply_times(w, life, (n - 1) as nat);
        w2.spec_apply(l2)
    }
}

/// Law: a weapon's durability is monotonically non-increasing across any
/// number of successive applications — and, being unsigned, it never goes
/// below zero.
pub proof fn lemma_durability_non_increasing(w: Weapon, life: u8, m: nat, n: nat)
    requires
        m <= n,
    ensures
        weapon_apply_times(w, life, n).0.durability <= weapon_apply_times(w, life, m).0.durability,
    decreases n,
{
    if m < n {
        lemma_durability_non_increasing(w, life, m, (n - 1) as nat);
    }
}

/// Law: a broken weapon (durability zero) is inert: applying it changes
/// neither the target's life nor the weapon itself, however often it is
/// tried.
pub proof fn lemma_broken_weapon_inert(w: Weapon, life: u8)
    requires
        w.durability == 0,
    ensures
        w.spec_apply(life) == (w, life),
{
}

/// Law: broken is terminal. Once a weapon's durability has reached zero
/// after some number of applications, every further application leaves
/// both the weapon and the target's life exactly where they were.
pub proof fn lemma_broken_weapon_stays_broken(w: Weapon, life: u8, m: nat, n: nat)
    requires
        m <= n,
        weapon_apply_times(w, life, m).0.durability == 0,
    ensures
        weapon_apply_times(w, life, n) == weapon_apply_times(w, life, m),
    decreases n,
{
    if m < n {
        lemma_broken_weapon_stays_broken(w, life, m, (n - 1) as nat);
    }
}

/// Law: applying a potion heals the target by exactly `heal`, saturating
/// at the largest representable life value, and leaves the potion itself
/// unchanged.
pub proof fn lemma_potion_heals_exactly(p: Potion, life: u8)
    ensures
        p.spec_apply(life).0 == p,
        life + p.heal <= u8::MAX ==> p.spec_apply(life).1 == life + p.heal,
        life + p.heal > u8::MAX ==> p.spec_apply(life).1 == u8::MAX,
{
}

} // verus!
