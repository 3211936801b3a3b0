use rpg_model::character::Character;
use rpg_model::items::Item;
use rpg_model::items::ItemKind;
use rpg_model::items::Potion;
use rpg_model::items::Weapon;

#[test]
fn build() {
    let w = Weapon::new("test", 10, 100);
    assert_eq!(w.damage, 10);
    assert_eq!(w.durability, 100);
    assert_eq!(w.get_name(), w.name);
}

#[test]
/// One application: the target loses the full damage, the weapon loses
/// half of it in durability.
fn weapon_applied_once() {
    let mut w = Weapon::new("sword", 10, 100);
    let mut c = Character::new(200, 0, 0, "hero");
    w.apply(&mut c);
    assert_eq!(c.life, 190);
    assert_eq!(w.durability, 95);
}

#[test]
/// Twenty applications wear the durability from 100 down to exactly 0;
/// after that, further applications change nothing.
fn weapon_wears_out_after_twenty_uses() {
    let mut w = Weapon::new("sword", 10, 100);
    let mut c = Character::new(255, 0, 0, "hero");
    let mut previous: u8 = w.durability;
    for _ in 0..20 {
        w.apply(&mut c);
        assert!(w.durability <= previous);
        previous = w.durability;
    }
    assert_eq!(w.durability, 0);
    assert!(w.is_broken());

    let life_before = c.life;
    w.apply(&mut c);
    assert_eq!(c.life, life_before);
    assert_eq!(w.durability, 0);
}

#[test]
/// A broken weapon neither damages the target nor changes its own state.
fn broken_weapon_is_inert() {
    let mut w = Weapon::new("shard", 10, 0);
    let mut c = Character::new(100, 0, 0, "hero");
    assert!(w.is_broken());
    w.apply(&mut c);
    assert_eq!(c.life, 100);
    assert_eq!(w.durability, 0);
}

#[test]
/// Damage beyond the remaining life saturates the target's life at zero.
fn weapon_damage_saturates_at_zero() {
    let mut w = Weapon::new("maul", 200, 100);
    let mut c = Character::new(50, 0, 0, "hero");
    w.apply(&mut c);
    assert_eq!(c.life, 0);
    w.apply(&mut c);
    assert_eq!(c.life, 0);
}

#[test]
/// A potion heals by exactly its heal amount.
fn potion_heals_exactly() {
    let mut p = Potion::new("elixir", 50);
    let mut c = Character::new(100, 0, 0, "hero");
    p.apply(&mut c);
    assert_eq!(c.life, 150);
    assert_eq!(p.heal, 50);
}

#[test]
/// Healing beyond the representable maximum saturates there instead of
/// wrapping.
fn potion_heal_saturates_at_max() {
    let mut p = Potion::new("elixir", 200);
    let mut c = Character::new(100, 0, 0, "hero");
    p.apply(&mut c);
    assert_eq!(c.life, 255);
    p.apply(&mut c);
    assert_eq!(c.life, 255);
}

#[test]
/// The item variants report the name they were built with.
fn item_names() {
    let w = Weapon::new("sword", 10, 100);
    assert_eq!(w.get_name(), "sword");
    let p = Potion::new("elixir", 50);
    assert_eq!(p.get_name(), "elixir");
    let held = ItemKind::Weapon(Weapon::new("axe", 5, 5));
    assert_eq!(held.get_name(), "axe");
    let held = ItemKind::Potion(Potion::new("tonic", 5));
    assert_eq!(held.get_name(), "tonic");
}

#[test]
/// Applying through the variant enum dispatches to the right item.
fn item_kind_dispatches() {
    let mut c = Character::new(100, 0, 0, "hero");
    let mut held = ItemKind::Weapon(Weapon::new("axe", 10, 100));
    held.apply(&mut c);
    assert_eq!(c.life, 90);
    let mut held = ItemKind::Potion(Potion::new("tonic", 5));
    held.apply(&mut c);
    assert_eq!(c.life, 95);
}
