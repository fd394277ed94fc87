use rustopia::magic::{calculate_magic, cast_on_space, combo_announcement, combo_text, record_magic_inputs, ElementColor, MagicCast, MagicElement, MagicInput};

#[test]
fn rune_labels() {
    assert_eq!(MagicInput::Fire.label(), "Feu");
    assert_eq!(MagicInput::Frost.label(), "Givre");
    assert_eq!(MagicInput::Wind.label(), "Vent");
    assert_eq!(MagicInput::Arcane.label(), "Arcane");
}

#[test]
fn element_labels_match_runes() {
    assert_eq!(MagicElement::Fire.label(), MagicInput::Fire.label());
    assert_eq!(MagicElement::Frost.label(), MagicInput::Frost.label());
    assert_eq!(MagicElement::Wind.label(), MagicInput::Wind.label());
    assert_eq!(MagicElement::Arcane.label(), MagicInput::Arcane.label());
}

#[test]
fn element_default_is_fire() {
    assert_eq!(MagicElement::default(), MagicElement::Fire);
}

#[test]
fn element_colors() {
    assert_eq!(MagicElement::Fire.color(), ElementColor { red: 100, green: 40, blue: 10 });
    assert_eq!(MagicElement::Frost.color(), ElementColor { red: 20, green: 70, blue: 100 });
    assert_eq!(MagicElement::Wind.color(), ElementColor { red: 60, green: 100, blue: 30 });
    assert_eq!(MagicElement::Arcane.color(), ElementColor { red: 70, green: 20, blue: 100 });
}

#[test]
fn cast_labels() {
    assert_eq!(MagicCast::FlameWave.label(), "Vague de Flammes");
    assert_eq!(MagicCast::CrystalShield.label(), "Bouclier de Cristal");
    assert_eq!(MagicCast::StormOrb.label(), "Orbe de Tempête");
    assert_eq!(MagicCast::ChaosBolt.label(), "Projectile du Chaos");
    assert_eq!(MagicCast::WildSpark.label(), "Étincelle Sauvage");
}

#[test]
fn named_combos_cast_their_spell() {
    assert_eq!(calculate_magic(&[MagicInput::Fire, MagicInput::Wind]), MagicCast::FlameWave);
    assert_eq!(calculate_magic(&[MagicInput::Frost, MagicInput::Arcane]), MagicCast::CrystalShield);
    assert_eq!(calculate_magic(&[MagicInput::Wind, MagicInput::Arcane]), MagicCast::StormOrb);
    assert_eq!(calculate_magic(&[MagicInput::Fire, MagicInput::Arcane]), MagicCast::ChaosBolt);
    assert_eq!(calculate_magic(&[MagicInput::Fire, MagicInput::Frost, MagicInput::Wind]), MagicCast::WildSpark);
}

#[test]
fn other_combos_misfire() {
    assert_eq!(calculate_magic(&[]), MagicCast::ChaosBolt);
    assert_eq!(calculate_magic(&[MagicInput::Fire]), MagicCast::ChaosBolt);
    assert_eq!(calculate_magic(&[MagicInput::Wind, MagicInput::Fire]), MagicCast::ChaosBolt);
    assert_eq!(calculate_magic(&[MagicInput::Arcane, MagicInput::Arcane]), MagicCast::ChaosBolt);
    assert_eq!(calculate_magic(&[MagicInput::Fire, MagicInput::Frost, MagicInput::Arcane]), MagicCast::ChaosBolt);
    assert_eq!(calculate_magic(&[MagicInput::Fire, MagicInput::Wind, MagicInput::Fire, MagicInput::Wind]), MagicCast::ChaosBolt);
}

#[test]
fn keys_e_f_g_h_add_runes_in_order() {
    let mut combo = vec![MagicInput::Arcane];
    record_magic_inputs(&mut combo, true, false, true, true);
    assert_eq!(combo, vec![MagicInput::Arcane, MagicInput::Fire, MagicInput::Wind, MagicInput::Arcane]);
    record_magic_inputs(&mut combo, false, false, false, false);
    assert_eq!(combo.len(), 4);
    record_magic_inputs(&mut combo, false, true, false, false);
    assert_eq!(combo.last(), Some(&MagicInput::Frost));
}

#[test]
fn all_four_keys_in_one_frame() {
    let mut combo = Vec::new();
    record_magic_inputs(&mut combo, true, true, true, true);
    assert_eq!(combo, vec![MagicInput::Fire, MagicInput::Frost, MagicInput::Wind, MagicInput::Arcane]);
}

#[test]
fn combo_text_joins_labels() {
    assert_eq!(combo_text(&[]), "");
    assert_eq!(combo_text(&[MagicInput::Wind]), "Vent");
    assert_eq!(combo_text(&[MagicInput::Fire, MagicInput::Frost, MagicInput::Arcane]), "Feu + Givre + Arcane");
}

#[test]
fn announcement_only_for_nonempty_combo() {
    assert_eq!(combo_announcement(&[]), None);
    assert_eq!(
        combo_announcement(&[MagicInput::Fire, MagicInput::Wind]),
        Some("Combo en cours : Feu + Vent".to_string())
    );
}

#[test]
fn space_casts_the_combo_spell() {
    let combo = vec![MagicInput::Fire, MagicInput::Frost, MagicInput::Wind];
    assert_eq!(cast_on_space(&combo, true), Some(MagicCast::WildSpark));
    assert_eq!(cast_on_space(&[MagicInput::Frost, MagicInput::Arcane], true), Some(MagicCast::CrystalShield));
    assert_eq!(cast_on_space(&[MagicInput::Wind], true), Some(MagicCast::ChaosBolt));
}

#[test]
fn no_cast_without_space_or_combo() {
    assert_eq!(cast_on_space(&[MagicInput::Fire, MagicInput::Wind], false), None);
    assert_eq!(cast_on_space(&[], true), None);
}
