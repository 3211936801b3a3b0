use vstd::prelude::*;

verus! {

/// A standalone weapon with a fixed name, a damage value, and a durability
/// that wears down as the weapon is used. Once the durability reaches zero
/// the weapon is broken, and [`Weapon::if_not_broken`] refuses to act.
pub struct Weapon {
    pub name: &'static str,
    pub damage: u8,
    pub durability: u8,
}

impl Weapon {
    /// Creates a weapon with the given name, damage and durability.
    pub fn new(name: &'static str, damage: u8, durability: u8) -> (w: Self)
        ensures
            w == (Weapon { name, damage, durability }),
    {
        Weapon { name, damage, durability }
    }

    /// Wears the weapon down by half its damage (integer division),
    /// saturating at zero durability. Returns `self` for chaining.
    pub fn consume(&mut self) -> (r: &mut Self)
        ensures
            *r == (Weapon {
                durability: old(self).durability.saturating_sub(old(self).damage / 2),
                ..*old(self)
            }),
            *final(self) == *final(r),
    {
        self.durability = self.durability.saturating_sub(self.damage / 2);
        self
    }

    /// A weapon is broken once its durability has reached zero.
    fn is_broken(&self) -> (r: bool)
        ensures
            r == (self.durability == 0),
    {
        self.durability == 0
    }

    /// Runs `fun` on the weapon's damage if the weapon is not broken and
    /// returns its result; on a broken weapon does nothing and returns
    /// `None`. The weapon itself is left unchanged either way.
    pub fn if_not_broken<F, T>(&mut self, fun: F) -> (r: Option<T>) where
        F: FnOnce(u8) -> T,
        requires
            old(self).durability > 0 ==> call_requires(fun, (old(self).damage,)),
        ensures
            *final(self) == *old(self),
            (r is None) == (old(self).durability == 0),
            (r matches Some(t) ==> call_ensures(fun, (old(self).damage,), t)),
    {
        if !self.is_broken() {
            Some(fun(self.damage))
        } else {
            None
        }
    }

    /// Returns the weapon's immutable name.
    pub fn get_name(&self) -> (r: &'static str)
        ensures
            r@ == self.name@,
    {
        self.name
    }
}

} // verus!
