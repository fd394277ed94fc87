use vstd::prelude::*;
use crate::magic::MagicElement;

verus! {

/// The part of the radial element menu that its rules read: whether a menu is
/// on screen and which element it currently points at.
#[derive(Clone, Copy, PartialEq, Eq, Debug, Structural)]
pub struct RadialMenu {
    pub open: bool,
    pub selected: MagicElement,
}

/// The right mouse button during one frame, and the element under the cursor
/// as seen from where the menu was opened.
#[derive(Clone, Copy, PartialEq, Eq, Debug, Structural)]
pub struct RadialFrame {
    pub just_pressed: bool,
    pub held: bool,
    pub just_released: bool,
    pub hovered: MagicElement,
}

/// What one frame of menu handling leaves behind and asks the world to do.
#[derive(Clone, Copy, PartialEq, Eq, Debug, Structural)]
pub struct RadialOutcome {
    /// The menu after the frame.
    pub menu: RadialMenu,
    /// The element the projectiles are made of after the frame.
    pub equipped: MagicElement,
    /// A new menu is put on screen at the cursor (the cursor becomes its centre).
    pub spawn_menu: bool,
    /// The slot to show as chosen (the other slots are dimmed).
    pub highlight: Option<MagicElement>,
    /// The menu on screen is taken away.
    pub despawn_menu: bool,
}

impl RadialMenu {
    /// No menu on screen, pointing at fire.
    pub fn new() -> (r: Self)
        ensures
            r == (RadialMenu { open: false, selected: MagicElement::Fire }),
    {
        RadialMenu { open: false, selected: MagicElement::Fire }
    }
}

/// The rules of the radial menu for one frame in which the cursor is inside the window.
/// A fresh press opens a menu pointing at fire and ends the frame. Otherwise, holding the
/// button over an open menu selects the hovered element, and releasing it equips the
/// selection and closes the menu.
pub open spec fn radial_rules(menu: RadialMenu, equipped: MagicElement, frame: RadialFrame) -> RadialOutcome {
    if frame.just_pressed {
        RadialOutcome {
            menu: RadialMenu { open: true, selected: MagicElement::Fire },
            equipped: equipped,
            spawn_menu: true,
            highlight: None,
            despawn_menu: false,
        }
    } else {
        let selecting = frame.held && menu.open;
        let selected = if selecting { frame.hovered } else { menu.selected };
        RadialOutcome {
            menu: RadialMenu {
                open: menu.open && !frame.just_released,
                selected: selected,
            },
            equipped: if frame.just_released { selected } else { equipped },
            spawn_menu: false,
            highlight: if selecting { Some(frame.hovered) } else { None },
            despawn_menu: frame.just_released && menu.open,
        }
    }
}

/// One frame of the radial element menu.
pub fn radial_step(menu: RadialMenu, equipped: MagicElement, frame: RadialFrame) -> (r: RadialOutcome)
    ensures
        r == radial_rules(menu, equipped, frame),
{
    if frame.just_pressed {
        return RadialOutcome {
            menu: RadialMenu { open: true, selected: MagicElement::Fire },
            equipped,
            spawn_menu: true,
            highlight: None,
            despawn_menu: false,
        };
    }
    let mut next = menu;
    let mut highlight = None;
    if frame.held {
        if next.open {
            next.selected = frame.hovered;
            highlight = Some(frame.hovered);
        }
    }
    let mut now_equipped = equipped;
    let mut despawn_menu = false;
    if frame.just_released {
        now_equipped = next.selected;
        if next.open {
            despawn_menu = true;
            next.open = false;
        }
    }
    RadialOutcome { menu: next, equipped: now_equipped, spawn_menu: false, highlight, despawn_menu }
}

/// Opening the menu, holding the button over an element and releasing it equips that
/// element and leaves no menu on screen, whatever was equipped or shown before.
pub proof fn lemma_press_hold_release_equips_hovered(
    menu: RadialMenu,
    equipped: MagicElement,
    press: RadialFrame,
    hold: RadialFrame,
    release: RadialFrame,
)
    requires
        press.just_pressed,
        !hold.just_pressed,
        hold.held,
        !hold.just_released,
        !release.just_pressed,
        !release.held,
        release.just_released,
    ensures
        ({
            let after_press = radial_rules(menu, equipped, press);
            let after_hold = radial_rules(after_press.menu, after_press.equipped, hold);
            let after_release = radial_rules(after_hold.menu, after_hold.equipped, release);
            &&& after_release.equipped == hold.hovered
            &&& !after_release.menu.open
            &&& after_release.despawn_menu
        }),
{
}

/// The equipped element changes only on a frame in which the button is released
/// (and that is not a fresh press).
pub proof fn lemma_equipped_changes_only_on_release(menu: RadialMenu, equipped: MagicElement, frame: RadialFrame)
    requires
        frame.just_pressed || !frame.just_released,
    ensures
        radial_rules(menu, equipped, frame).equipped == equipped,
{
}

/// A menu is spawned exactly on a fresh press, and only an open menu is ever despawned.
pub proof fn lemma_menu_lifecycle(menu: RadialMenu, equipped: MagicElement, frame: RadialFrame)
    ensures
        radial_rules(menu, equipped, frame).spawn_menu == frame.just_pressed,
        radial_rules(menu, equipped, frame).despawn_menu ==> menu.open && !radial_rules(menu, equipped, frame).menu.open,
        radial_rules(menu, equipped, frame).menu.open == (frame.just_pressed || (menu.open && !frame.just_released)),
{
}

/// Each frame of the menu, stated by the button's states: a fresh press opens a new
/// menu pointing at fire, highlights nothing and keeps the equipped element; otherwise,
/// holding over an open menu selects and highlights the hovered element (else the
/// selection stays and nothing is highlighted), and a release equips the selection and
/// takes an open menu away.
pub proof fn lemma_radial_cases(menu: RadialMenu, equipped: MagicElement, frame: RadialFrame)
    ensures
        ({
            let r = radial_rules(menu, equipped, frame);
            &&& frame.just_pressed ==> (r.spawn_menu && r.menu.open && r.menu.selected == MagicElement::Fire
                && r.equipped == equipped && r.highlight is None && !r.despawn_menu)
            &&& (!frame.just_pressed && frame.held && menu.open) ==> (r.menu.selected == frame.hovered
                && r.highlight == Some(frame.hovered))
            &&& (!frame.just_pressed && !(frame.held && menu.open)) ==> (r.menu.selected == menu.selected
                && r.highlight is None)
            &&& (!frame.just_pressed && frame.just_released) ==> (r.equipped == r.menu.selected && !r.menu.open
                && r.despawn_menu == menu.open)
            &&& (!frame.just_pressed && !frame.just_released) ==> (r.equipped == equipped && r.menu.open == menu.open
                && !r.despawn_menu)
            &&& !frame.just_pressed ==> !r.spawn_menu
        }),
{
}

} // verus!
