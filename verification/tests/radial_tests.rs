use rustopia::magic::MagicElement;
use rustopia::radial::{radial_step, RadialFrame, RadialMenu};

fn frame(just_pressed: bool, held: bool, just_released: bool, hovered: MagicElement) -> RadialFrame {
    RadialFrame { just_pressed, held, just_released, hovered }
}

#[test]
fn new_menu_is_closed_on_fire() {
    assert_eq!(RadialMenu::new(), RadialMenu { open: false, selected: MagicElement::Fire });
}

#[test]
fn press_opens_menu_on_fire() {
    let menu = RadialMenu { open: false, selected: MagicElement::Arcane };
    let out = radial_step(menu, MagicElement::Wind, frame(true, true, false, MagicElement::Frost));
    assert!(out.spawn_menu);
    assert!(!out.despawn_menu);
    assert_eq!(out.menu, RadialMenu { open: true, selected: MagicElement::Fire });
    assert_eq!(out.equipped, MagicElement::Wind);
    assert_eq!(out.highlight, None);
}

#[test]
fn hold_selects_and_highlights_hovered() {
    let menu = RadialMenu { open: true, selected: MagicElement::Fire };
    let out = radial_step(menu, MagicElement::Fire, frame(false, true, false, MagicElement::Arcane));
    assert_eq!(out.menu.selected, MagicElement::Arcane);
    assert_eq!(out.highlight, Some(MagicElement::Arcane));
    assert_eq!(out.equipped, MagicElement::Fire);
    assert!(out.menu.open);
}

#[test]
fn hold_without_menu_changes_nothing() {
    let menu = RadialMenu { open: false, selected: MagicElement::Frost };
    let out = radial_step(menu, MagicElement::Fire, frame(false, true, false, MagicElement::Arcane));
    assert_eq!(out.menu, menu);
    assert_eq!(out.highlight, None);
}

#[test]
fn release_equips_selection_and_closes() {
    let menu = RadialMenu { open: true, selected: MagicElement::Wind };
    let out = radial_step(menu, MagicElement::Fire, frame(false, false, true, MagicElement::Arcane));
    assert_eq!(out.equipped, MagicElement::Wind);
    assert!(out.despawn_menu);
    assert!(!out.menu.open);
}

#[test]
fn release_without_menu_still_equips_selection() {
    let menu = RadialMenu { open: false, selected: MagicElement::Frost };
    let out = radial_step(menu, MagicElement::Fire, frame(false, false, true, MagicElement::Wind));
    assert_eq!(out.equipped, MagicElement::Frost);
    assert!(!out.despawn_menu);
}

#[test]
fn press_hold_release_sequence() {
    let out = radial_step(RadialMenu::new(), MagicElement::Fire, frame(true, true, false, MagicElement::Fire));
    let out = radial_step(out.menu, out.equipped, frame(false, true, false, MagicElement::Frost));
    let out = radial_step(out.menu, out.equipped, frame(false, false, true, MagicElement::Wind));
    assert_eq!(out.equipped, MagicElement::Frost);
    assert!(!out.menu.open);
}
