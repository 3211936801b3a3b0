//! A small role-playing-game domain model.
//!
//! A [`character::Character`] holds vital stats (life, mana), an attack
//! strength, a fixed name, and at most one held item. An item
//! ([`items::Weapon`] or [`items::Potion`]) is a capability that can be
//! applied to a character, mutating the target's life and, for a weapon,
//! the item's own durability. All arithmetic on life, mana and durability
//! saturates: nothing ever wraps below zero or above the representable
//! maximum.

pub mod character;
pub mod items;
pub mod weapon;
