use vstd::prelude::*;
use crate::items::Item;
use crate::items::ItemKind;

verus! {

/// An entity with vital stats: current life, an attack strength, a mana
/// reserve, a fixed name, and at most one held item. All arithmetic on
/// the stats saturates, so life and mana can never wrap below zero.
pub struct Character {
    pub life: u8,
    pub damage: u8,
    pub mana: u8,
    pub name: &'static str,
    pub item: Option<ItemKind>,
}

impl Character {
    /// Creates a fully initialized character with the given vitals,
    /// holding no item.
    pub fn new(life: u8, damage: u8, mana: u8, name: &'static str) -> (c: Self)
        ensures
            c == (Character { life, damage, mana, name, item: None::<ItemKind> }),
    {
        Character { life, damage, mana, name, item: None }
    }

    /// Attacks another character: reduces the other's life by this
    /// character's damage, saturating at zero. Nothing else changes on
    /// either side. Returns `self` for chaining.
    pub fn attack(&mut self, other: &mut Self) -> (r: &mut Self)
        ensures
            *r == *old(self),
            *final(self) == *final(r),
            *final(other) == (Character {
                life: old(other).life.saturating_sub(old(self).damage),
                ..*old(other)
            }),
    {
        other.life = other.life.saturating_sub(self.damage);
        self
    }

    /// Consumes `consumption` mana, saturating at zero. Returns `self`
    /// for chaining.
    pub fn consume_mana(&mut self, consumption: u8) -> (r: &mut Self)
        ensures
            *r == (Character {
                mana: old(self).mana.saturating_sub(consumption),
                ..*old(self)
            }),
            *final(self) == *final(r),
    {
        self.mana = self.mana.saturating_sub(consumption);
        self
    }

    /// Returns the character's immutable name.
    pub fn get_name(&self) -> (r: &str)
        ensures
            r@ == self.name@,
    {
        self.name
    }

    /// Replaces the held item (which may be `None`) and returns `self`
    /// for chaining.
    pub fn set_item(&mut self, item: Option<ItemKind>) -> (r: &mut Self)
        ensures
            *r == (Character { item, ..*old(self) }),
            *final(self) == *final(r),
    {
        self.item = item;
        self
    }

    /// Uses the held item on this character itself: the item is taken
    /// out, applied, and put back, so it is held again as soon as the
    /// call returns. With no held item this is a no-op.
    pub fn use_item(&mut self)
        ensures
            old(self).item is None ==> *final(self) == *old(self),
            (old(self).item matches Some(it) ==> *final(self) == (Character {
                life: it.spec_apply(old(self).life).1,
                item: Some(it.spec_apply(old(self).life).0),
                ..*old(self)
            })),
    {
        let held = self.item.take();
        match held {
            Some(mut it) => {
                it.apply(self);
                self.item = Some(it);
            }
            None => {}
        }
    }

    /// Uses the held item on another character: the item is taken out,
    /// applied to `target`, and put back. The target's life moves as the
    /// item dictates; nothing of this character changes but the item's
    /// own state. With no held item this is a no-op.
    pub fn use_item_on(&mut self, target: &mut Character)
        ensures
            old(self).item is None ==> *final(self) == *old(self) && *final(target) == *old(
                target,
            ),
            (old(self).item matches Some(it) ==> *final(target) == (Character {
                life: it.spec_apply(old(target).life).1,
                ..*old(target)
            }) && *final(self) == (Character {
                item: Some(it.spec_apply(old(target).life).0),
                ..*old(self)
            })),
    {
        let held = self.item.take();
        match held {
            Some(mut it) => {
                it.apply(target);
                self.item = Some(it);
            }
            None => {}
        }
    }
}

/// The life remaining after a sequence of damage amounts has been applied
/// in order, each step saturating at zero. This is the step both
/// [`Character::attack`] and a weapon's application take on the target's
/// life.
pub open spec fn life_after_damage(life: u8, hits: Seq<u8>) -> u8
    decreases hits.len(),
{
    if hits.len() == 0 {
        life
    } else {
        life_after_damage(life.saturating_sub(hits[0]), hits.drop_first())
    }
}

/// Law: however much damage is applied, in however many steps, life never
/// goes below zero — each step saturates — and damage never raises it.
pub proof fn lemma_life_never_below_zero(life: u8, hits: Seq<u8>)
    ensures
        0 <= life_after_damage(life, hits) <= life,
    decreases hits.len(),
{
    if hits.len() > 0 {
        lemma_life_never_below_zero(life.saturating_sub(hits[0]), hits.drop_first());
    }
}

} // verus!
