use partial_init::attack::Attack;
use partial_init::spell::PartialSpell;
use partial_init::spell::Spell;
use partial_init::PartialInit;

#[test]
fn attack_default_range_substituted() {
    let a = Attack::uninit().damage(5u32).build();
    assert_eq!(a.damage, 5);
    assert_eq!(a.range, 10);
}

#[test]
fn attack_explicit_range_overrides_default() {
    let a = Attack::uninit().damage(5u32).range(20u32).build();
    assert_eq!(a.damage, 5);
    assert_eq!(a.range, 20);
}

#[test]
fn attack_deinit_then_set_matches_direct() {
    let via_deinit = Attack::uninit().deinit_damage().damage(7u32).range(3u32).build();
    let direct = Attack::uninit().damage(7u32).range(3u32).build();
    assert_eq!(via_deinit.damage, direct.damage);
    assert_eq!(via_deinit.range, direct.range);

    let via_deinit = Attack::uninit().deinit_range().range(4u32).damage(1u32).build();
    let direct = Attack::uninit().range(4u32).damage(1u32).build();
    assert_eq!(via_deinit.damage, direct.damage);
    assert_eq!(via_deinit.range, direct.range);
}

#[test]
fn attack_deinit_resets_to_default() {
    let a = Attack::uninit().damage(2u32).range(99u32).deinit_range().build();
    assert_eq!(a.damage, 2);
    assert_eq!(a.range, 10);
}

#[test]
fn spell_chain_sets_every_field() {
    let s: Spell<u8> = Spell::<u8>::uninit()
        .with_name("Fireball".to_string())
        .damage(50u32)
        .range(8u32)
        .build();
    assert_eq!(s.name, "Fireball".to_string());
    assert_eq!(s.damage, 50);
    assert_eq!(s.range, 8);
    assert_eq!(s.effects, Vec::<u8>::new());
}

#[test]
fn spell_defaults_substituted() {
    let s: Spell<u8> = Spell::<u8>::uninit()
        .with_name("Sleep".to_string())
        .damage(1u32)
        .build();
    assert_eq!(s.name, "Sleep".to_string());
    assert_eq!(s.damage, 1);
    assert_eq!(s.range, 10);
    assert_eq!(s.effects, Vec::<u8>::new());
}

#[test]
fn spell_effects_kept_when_set() {
    let s: Spell<u8> = Spell::<u8>::uninit()
        .with_name("Poison".to_string())
        .damage(3u32)
        .effects(vec![1u8, 2u8])
        .build();
    assert_eq!(s.effects, vec![1u8, 2u8]);
}

#[test]
fn spell_deinit_each_field_then_set_again() {
    let s: Spell<u8> = Spell::<u8>::uninit()
        .with_name("Old".to_string())
        .deinit_with_name()
        .with_name("New".to_string())
        .damage(9u32)
        .deinit_damage()
        .damage(4u32)
        .range(6u32)
        .deinit_range()
        .effects(vec![7u8])
        .deinit_effects()
        .build();
    assert_eq!(s.name, "New".to_string());
    assert_eq!(s.damage, 4);
    assert_eq!(s.range, 10);
    assert_eq!(s.effects, Vec::<u8>::new());
}

#[test]
fn spell_setters_are_order_insensitive() {
    let a: Spell<u8> = Spell::<u8>::uninit()
        .with_name("Gust".to_string())
        .damage(2u32)
        .range(5u32)
        .build();
    let b: Spell<u8> = Spell::<u8>::uninit()
        .range(5u32)
        .damage(2u32)
        .with_name("Gust".to_string())
        .build();
    assert_eq!(a.name, b.name);
    assert_eq!(a.damage, b.damage);
    assert_eq!(a.range, b.range);
    assert_eq!(a.effects, b.effects);
}

#[test]
fn partial_spell_built_directly() {
    let p = PartialSpell {
        with_name: "Zap".to_string(),
        damage: 11u32,
        range: 2u32,
        effects: vec![5u8],
        __phantom_data__partial_init_: Default::default(),
    };
    let s = p.build();
    assert_eq!(s.name, "Zap".to_string());
    assert_eq!(s.damage, 11);
    assert_eq!(s.range, 2);
    assert_eq!(s.effects, vec![5u8]);
}
