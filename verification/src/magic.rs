use vstd::prelude::*;
use vstd::string::StringExecFns;

verus! {

/// A rune typed on the keyboard while composing a spell combo.
#[derive(Clone, Copy, PartialEq, Eq, Debug, Structural)]
pub enum MagicInput {
    Fire,
    Frost,
    Wind,
    Arcane,
}

/// The element the projectiles are made of, chosen in the radial menu.
#[derive(Clone, Copy, PartialEq, Eq, Debug, Structural)]
pub enum MagicElement {
    Fire,
    Frost,
    Wind,
    Arcane,
}

/// The spells a combo can resolve to.
#[derive(Clone, Copy, PartialEq, Eq, Debug, Structural)]
pub enum MagicCast {
    FlameWave,
    CrystalShield,
    StormOrb,
    ChaosBolt,
    WildSpark,
}

/// A colour whose channels are given in hundredths (0 is none, 100 is full).
#[derive(Clone, Copy, PartialEq, Eq, Debug, Structural)]
pub struct ElementColor {
    pub red: u8,
    pub green: u8,
    pub blue: u8,
}

/// The French name shown for a rune.
pub open spec fn input_label(input: MagicInput) -> Seq<char> {
    match input {
        MagicInput::Fire => "Feu"@,
        MagicInput::Frost => "Givre"@,
        MagicInput::Wind => "Vent"@,
        MagicInput::Arcane => "Arcane"@,
    }
}

/// The French name shown for an element.
pub open spec fn element_label(element: MagicElement) -> Seq<char> {
    match element {
        MagicElement::Fire => "Feu"@,
        MagicElement::Frost => "Givre"@,
        MagicElement::Wind => "Vent"@,
        MagicElement::Arcane => "Arcane"@,
    }
}

/// The element that a rune stands for.
pub open spec fn element_of(input: MagicInput) -> MagicElement {
    match input {
        MagicInput::Fire => MagicElement::Fire,
        MagicInput::Frost => MagicElement::Frost,
        MagicInput::Wind => MagicElement::Wind,
        MagicInput::Arcane => MagicElement::Arcane,
    }
}

/// The colour of an element's projectiles, in hundredths per channel.
pub open spec fn element_color(element: MagicElement) -> ElementColor {
    match element {
        MagicElement::Fire => ElementColor { red: 100, green: 40, blue: 10 },
        MagicElement::Frost => ElementColor { red: 20, green: 70, blue: 100 },
        MagicElement::Wind => ElementColor { red: 60, green: 100, blue: 30 },
        MagicElement::Arcane => ElementColor { red: 70, green: 20, blue: 100 },
    }
}

/// The name shown for a spell.
pub open spec fn cast_label(cast: MagicCast) -> Seq<char> {
    match cast {
        MagicCast::FlameWave => "Vague de Flammes"@,
        MagicCast::CrystalShield => "Bouclier de Cristal"@,
        MagicCast::StormOrb => "Orbe de Tempête"@,
        MagicCast::ChaosBolt => "Projectile du Chaos"@,
        MagicCast::WildSpark => "Étincelle Sauvage"@,
    }
}

/// The spell a whole combo resolves to: five exact combos have their own spell,
/// every other sequence (the empty one included) misfires into a chaos bolt.
pub open spec fn spell_of(combo: Seq<MagicInput>) -> MagicCast {
    if combo == seq![MagicInput::Fire, MagicInput::Wind] {
        MagicCast::FlameWave
    } else if combo == seq![MagicInput::Frost, MagicInput::Arcane] {
        MagicCast::CrystalShield
    } else if combo == seq![MagicInput::Wind, MagicInput::Arcane] {
        MagicCast::StormOrb
    } else if combo == seq![MagicInput::Fire, MagicInput::Arcane] {
        MagicCast::ChaosBolt
    } else if combo == seq![MagicInput::Fire, MagicInput::Frost, MagicInput::Wind] {
        MagicCast::WildSpark
    } else {
        MagicCast::ChaosBolt
    }
}

impl MagicInput {
    /// The French name of the rune.
    pub fn label(self) -> (r: &'static str)
        ensures
            r@ == input_label(self),
    {
        match self {
            MagicInput::Fire => "Feu",
            MagicInput::Frost => "Givre",
            MagicInput::Wind => "Vent",
            MagicInput::Arcane => "Arcane",
        }
    }
}

impl MagicElement {
    /// The French name of the element.
    pub fn label(self) -> (r: &'static str)
        ensures
            r@ == element_label(self),
    {
        match self {
            MagicElement::Fire => "Feu",
            MagicElement::Frost => "Givre",
            MagicElement::Wind => "Vent",
            MagicElement::Arcane => "Arcane",
        }
    }

    /// The colour of the element's projectiles and menu slot.
    pub fn color(self) -> (r: ElementColor)
        ensures
            r == element_color(self),
    {
        match self {
            MagicElement::Fire => ElementColor { red: 100, green: 40, blue: 10 },
            MagicElement::Frost => ElementColor { red: 20, green: 70, blue: 100 },
            MagicElement::Wind => ElementColor { red: 60, green: 100, blue: 30 },
            MagicElement::Arcane => ElementColor { red: 70, green: 20, blue: 100 },
        }
    }
}

impl Default for MagicElement {
    /// Fire is the element a new game starts with.
    fn default() -> (r: Self)
        ensures
            r == MagicElement::Fire,
    {
        MagicElement::Fire
    }
}

impl MagicCast {
    /// The name of the spell.
    pub fn label(&self) -> (r: &'static str)
        ensures
            r@ == cast_label(*self),
    {
        match self {
            MagicCast::FlameWave => "Vague de Flammes",
            MagicCast::CrystalShield => "Bouclier de Cristal",
            MagicCast::StormOrb => "Orbe de Tempête",
            MagicCast::ChaosBolt => "Projectile du Chaos",
            MagicCast::WildSpark => "Étincelle Sauvage",
        }
    }
}

/// Resolves a combo into the spell it casts.
pub fn calculate_magic(combo: &[MagicInput]) -> (r: MagicCast)
    ensures
        r == spell_of(combo@),
{
    let n = combo.len();
    if n == 2 {
        let a = combo[0];
        let b = combo[1];
        proof {
            assert(combo@ =~= seq![a, b]);
        }
        if a == MagicInput::Fire && b == MagicInput::Wind {
            return MagicCast::FlameWave;
        }
        if a == MagicInput::Frost && b == MagicInput::Arcane {
            return MagicCast::CrystalShield;
        }
        if a == MagicInput::Wind && b == MagicInput::Arcane {
            return MagicCast::StormOrb;
        }
        if a == MagicInput::Fire && b == MagicInput::Arcane {
            return MagicCast::ChaosBolt;
        }
        return MagicCast::ChaosBolt;
    }
    if n == 3 {
        let a = combo[0];
        let b = combo[1];
        let c = combo[2];
        proof {
            assert(combo@ =~= seq![a, b, c]);
        }
        if a == MagicInput::Fire && b == MagicInput::Frost && c == MagicInput::Wind {
            return MagicCast::WildSpark;
        }
        return MagicCast::ChaosBolt;
    }
    proof {
        assert(seq![MagicInput::Fire, MagicInput::Wind].len() == 2);
        assert(seq![MagicInput::Fire, MagicInput::Frost, MagicInput::Wind].len() == 3);
    }
    MagicCast::ChaosBolt
}

/// The runes typed during one frame, in the order the keys are checked:
/// fire (E), frost (F), wind (G), arcane (H).
pub open spec fn runes_pressed(fire: bool, frost: bool, wind: bool, arcane: bool) -> Seq<MagicInput> {
    (if fire { seq![MagicInput::Fire] } else { Seq::empty() })
        + (if frost { seq![MagicInput::Frost] } else { Seq::empty() })
        + (if wind { seq![MagicInput::Wind] } else { Seq::empty() })
        + (if arcane { seq![MagicInput::Arcane] } else { Seq::empty() })
}

/// The labels of a combo joined by " + ".
pub open spec fn combo_text_of(combo: Seq<MagicInput>) -> Seq<char>
    decreases combo.len(),
{
    if combo.len() == 0 {
        Seq::empty()
    } else if combo.len() == 1 {
        input_label(combo[0])
    } else {
        combo_text_of(combo.drop_last()) + " + "@ + input_label(combo.last())
    }
}

/// Appends the runes typed this frame to the combo being composed.
pub fn record_magic_inputs(combo: &mut Vec<MagicInput>, fire: bool, frost: bool, wind: bool, arcane: bool)
    ensures
        final(combo)@ == old(combo)@ + runes_pressed(fire, frost, wind, arcane),
{
    let ghost start = combo@;
    if fire {
        combo.push(MagicInput::Fire);
    }
    let ghost after_fire = combo@;
    if frost {
        combo.push(MagicInput::Frost);
    }
    let ghost after_frost = combo@;
    if wind {
        combo.push(MagicInput::Wind);
    }
    let ghost after_wind = combo@;
    if arcane {
        combo.push(MagicInput::Arcane);
    }
    proof {
        let a = if fire { seq![MagicInput::Fire] } else { Seq::<MagicInput>::empty() };
        let b = if frost { seq![MagicInput::Frost] } else { Seq::<MagicInput>::empty() };
        let c = if wind { seq![MagicInput::Wind] } else { Seq::<MagicInput>::empty() };
        let d = if arcane { seq![MagicInput::Arcane] } else { Seq::<MagicInput>::empty() };
        assert(after_fire =~= start + a);
        assert(after_frost =~= start + a + b);
        assert(after_wind =~= start + a + b + c);
        assert(combo@ =~= start + a + b + c + d);
        assert(a + b + c + d =~= runes_pressed(fire, frost, wind, arcane));
        assert(start + a + b + c + d =~= start + (a + b + c + d));
    }
}

/// The labels of the combo joined by " + ", as shown while the combo is composed.
pub fn combo_text(combo: &[MagicInput]) -> (r: String)
    ensures
        r@ == combo_text_of(combo@),
{
    let mut text = String::new();
    let n = combo.len();
    let mut i: usize = 0;
    proof {
        assert(combo@.take(0) =~= Seq::<MagicInput>::empty());
    }
    while i < n
        invariant
            n == combo@.len(),
            i <= n,
            text@ == combo_text_of(combo@.take(i as int)),
        decreases n - i,
    {
        let rune = combo[i];
        if i > 0 {
            text.append(" + ");
        }
        text.append(rune.label());
        proof {
            let next = combo@.take(i + 1);
            assert(next.drop_last() =~= combo@.take(i as int));
            assert(next.last() == rune);
            if i == 0 {
                assert(next =~= seq![rune]);
                assert(text@ =~= input_label(rune));
            } else {
                assert(text@ =~= combo_text_of(combo@.take(i as int)) + " + "@ + input_label(rune));
            }
        }
        i = i + 1;
    }
    proof {
        assert(combo@.take(n as int) =~= combo@);
    }
    text
}

/// The line announced while a combo is being composed: nothing for an empty combo,
/// otherwise "Combo en cours : " followed by the combo's text.
pub fn combo_announcement(combo: &[MagicInput]) -> (r: Option<String>)
    ensures
        combo@.len() == 0 ==> r is None,
        combo@.len() > 0 ==> (r matches Some(line) && line@ == "Combo en cours : "@ + combo_text_of(combo@)),
{
    if combo.len() == 0 {
        return None;
    }
    let mut line = String::new();
    line.append("Combo en cours : ");
    let text = combo_text(combo);
    line.append(text.as_str());
    Some(line)
}

/// A rune and the element it stands for are shown under the same name.
pub proof fn lemma_rune_and_element_share_label(input: MagicInput)
    ensures
        input_label(input) == element_label(element_of(input)),
{
}

/// The five named combos cast their own spell; any combo of another length, the
/// empty one included, misfires into a chaos bolt.
pub proof fn lemma_spell_table(combo: Seq<MagicInput>)
    ensures
        spell_of(seq![MagicInput::Fire, MagicInput::Wind]) == MagicCast::FlameWave,
        spell_of(seq![MagicInput::Frost, MagicInput::Arcane]) == MagicCast::CrystalShield,
        spell_of(seq![MagicInput::Wind, MagicInput::Arcane]) == MagicCast::StormOrb,
        spell_of(seq![MagicInput::Fire, MagicInput::Arcane]) == MagicCast::ChaosBolt,
        spell_of(seq![MagicInput::Fire, MagicInput::Frost, MagicInput::Wind]) == MagicCast::WildSpark,
        combo.len() != 2 && combo.len() != 3 ==> spell_of(combo) == MagicCast::ChaosBolt,
{
    assert(seq![MagicInput::Fire, MagicInput::Wind] != seq![MagicInput::Frost, MagicInput::Arcane]) by {
        assert(seq![MagicInput::Fire, MagicInput::Wind][0] != seq![MagicInput::Frost, MagicInput::Arcane][0]);
    }
    assert(seq![MagicInput::Wind, MagicInput::Arcane] != seq![MagicInput::Fire, MagicInput::Wind]) by {
        assert(seq![MagicInput::Wind, MagicInput::Arcane][0] != seq![MagicInput::Fire, MagicInput::Wind][0]);
    }
    assert(seq![MagicInput::Wind, MagicInput::Arcane] != seq![MagicInput::Frost, MagicInput::Arcane]) by {
        assert(seq![MagicInput::Wind, MagicInput::Arcane][0] != seq![MagicInput::Frost, MagicInput::Arcane][0]);
    }
    assert(seq![MagicInput::Fire, MagicInput::Frost, MagicInput::Wind].len() == 3);
    assert(seq![MagicInput::Fire, MagicInput::Wind].len() == 2);
}

/// Recording runes never forgets earlier ones: the old combo stays a prefix and grows
/// by one rune per key pressed.
pub proof fn lemma_recording_extends(combo: Seq<MagicInput>, fire: bool, frost: bool, wind: bool, arcane: bool)
    ensures
        (combo + runes_pressed(fire, frost, wind, arcane)).len() == combo.len()
            + (if fire { 1int } else { 0int }) + (if frost { 1int } else { 0int })
            + (if wind { 1int } else { 0int }) + (if arcane { 1int } else { 0int }),
        (combo + runes_pressed(fire, frost, wind, arcane)).take(combo.len() as int) == combo,
{
    assert((combo + runes_pressed(fire, frost, wind, arcane)).take(combo.len() as int) =~= combo);
}

/// The spell cast by the cast key (Space) this frame: when it is pressed while a combo
/// is being composed, the combo's spell; otherwise nothing.
pub open spec fn cast_of(combo: Seq<MagicInput>, cast_pressed: bool) -> Option<MagicCast> {
    if cast_pressed && combo.len() > 0 {
        Some(spell_of(combo))
    } else {
        None
    }
}

/// Casts the spell of the combo being composed when the cast key (Space) is pressed.
pub fn cast_on_space(combo: &[MagicInput], space_just_pressed: bool) -> (r: Option<MagicCast>)
    ensures
        r == cast_of(combo@, space_just_pressed),
{
    if space_just_pressed && combo.len() > 0 {
        Some(calculate_magic(combo))
    } else {
        None
    }
}

/// Pressing Space with a combo under way casts exactly the spell of that combo; without
/// Space, or with no rune typed, nothing is cast.
pub proof fn lemma_space_casts_combo(combo: Seq<MagicInput>, cast_pressed: bool)
    ensures
        (cast_pressed && combo.len() > 0) ==> cast_of(combo, cast_pressed) == Some(spell_of(combo)),
        (!cast_pressed || combo.len() == 0) ==> cast_of(combo, cast_pressed) is None,
{
}

/// The text of a combo joins the label of every one of its runes, in order, with " + ":
/// no rune is shown for the empty combo, a single rune shows its label, and every rune
/// typed after the first adds " + " and its own label, whatever the runes before it.
pub proof fn lemma_combo_text_joins_every_rune(combo: Seq<MagicInput>, rune: MagicInput)
    ensures
        combo_text_of(Seq::empty()) == Seq::<char>::empty(),
        combo_text_of(seq![rune]) == input_label(rune),
        combo.len() > 0 ==> combo_text_of(combo.push(rune)) == combo_text_of(combo) + " + "@ + input_label(rune),
        combo.len() > 0 ==> combo_text_of(combo.push(rune)).len() == combo_text_of(combo).len() + 3 + input_label(rune).len(),
{
    reveal_strlit(" + ");
    assert(combo.push(rune).drop_last() =~= combo);
    assert(combo.push(rune).last() == rune);
}

/// Only the five named combos cast something other than a chaos bolt: each named combo
/// casts its own spell, and a spell other than the chaos bolt comes from exactly one combo.
pub proof fn lemma_only_named_combos_cast(combo: Seq<MagicInput>)
    ensures
        spell_of(seq![MagicInput::Fire, MagicInput::Wind]) == MagicCast::FlameWave,
        spell_of(seq![MagicInput::Frost, MagicInput::Arcane]) == MagicCast::CrystalShield,
        spell_of(seq![MagicInput::Wind, MagicInput::Arcane]) == MagicCast::StormOrb,
        spell_of(seq![MagicInput::Fire, MagicInput::Arcane]) == MagicCast::ChaosBolt,
        spell_of(seq![MagicInput::Fire, MagicInput::Frost, MagicInput::Wind]) == MagicCast::WildSpark,
        (combo != seq![MagicInput::Fire, MagicInput::Wind]
            && combo != seq![MagicInput::Frost, MagicInput::Arcane]
            && combo != seq![MagicInput::Wind, MagicInput::Arcane]
            && combo != seq![MagicInput::Fire, MagicInput::Frost, MagicInput::Wind])
            ==> spell_of(combo) == MagicCast::ChaosBolt,
        spell_of(combo) == MagicCast::FlameWave <==> combo == seq![MagicInput::Fire, MagicInput::Wind],
        spell_of(combo) == MagicCast::CrystalShield <==> combo == seq![MagicInput::Frost, MagicInput::Arcane],
        spell_of(combo) == MagicCast::StormOrb <==> combo == seq![MagicInput::Wind, MagicInput::Arcane],
        spell_of(combo) == MagicCast::WildSpark <==> combo == seq![MagicInput::Fire, MagicInput::Frost, MagicInput::Wind],
{
    lemma_spell_table(combo);
    let fw = seq![MagicInput::Fire, MagicInput::Wind];
    let fa = seq![MagicInput::Frost, MagicInput::Arcane];
    let wa = seq![MagicInput::Wind, MagicInput::Arcane];
    let xa = seq![MagicInput::Fire, MagicInput::Arcane];
    let ffw = seq![MagicInput::Fire, MagicInput::Frost, MagicInput::Wind];
    assert(fw[0] != fa[0] && fw[0] != wa[0] && fa[0] != wa[0]);
    assert(fw[1] != xa[1] && fa[0] != xa[0] && wa[0] != xa[0]);
    assert(ffw.len() != fw.len() && ffw.len() != fa.len() && ffw.len() != wa.len() && ffw.len() != xa.len());
}

/// The rank of a rune's key in the order the keys are read: E, F, G, H.
pub open spec fn key_rank(input: MagicInput) -> int {
    match input {
        MagicInput::Fire => 0,
        MagicInput::Frost => 1,
        MagicInput::Wind => 2,
        MagicInput::Arcane => 3,
    }
}

/// The runes typed in a frame are exactly those whose key was pressed, each once, in
/// key order (E fire, F frost, G wind, H arcane).
pub proof fn lemma_runes_pressed_are_the_pressed_keys(fire: bool, frost: bool, wind: bool, arcane: bool)
    ensures
        runes_pressed(fire, frost, wind, arcane).contains(MagicInput::Fire) == fire,
        runes_pressed(fire, frost, wind, arcane).contains(MagicInput::Frost) == frost,
        runes_pressed(fire, frost, wind, arcane).contains(MagicInput::Wind) == wind,
        runes_pressed(fire, frost, wind, arcane).contains(MagicInput::Arcane) == arcane,
        forall|i: int, j: int| 0 <= i < j < runes_pressed(fire, frost, wind, arcane).len() ==>
            key_rank(#[trigger] runes_pressed(fire, frost, wind, arcane)[i]) < key_rank(#[trigger] runes_pressed(fire, frost, wind, arcane)[j]),
{
    let a = if fire { seq![MagicInput::Fire] } else { Seq::<MagicInput>::empty() };
    let b = if frost { seq![MagicInput::Frost] } else { Seq::<MagicInput>::empty() };
    let c = if wind { seq![MagicInput::Wind] } else { Seq::<MagicInput>::empty() };
    let d = if arcane { seq![MagicInput::Arcane] } else { Seq::<MagicInput>::empty() };
    let s = runes_pressed(fire, frost, wind, arcane);
    assert(s == a + b + c + d);
    // Every position holds a rune of a pressed key, and positions follow the key order.
    assert forall|k: int| 0 <= k < s.len() implies
        (s[k] == MagicInput::Fire ==> fire) && (s[k] == MagicInput::Frost ==> frost)
        && (s[k] == MagicInput::Wind ==> wind) && (s[k] == MagicInput::Arcane ==> arcane)
        && key_rank(s[k]) >= k by {
    }
    if fire { assert(s[0] == MagicInput::Fire); }
    if frost { assert(s[a.len() as int] == MagicInput::Frost); }
    if wind { assert(s[(a.len() + b.len()) as int] == MagicInput::Wind); }
    if arcane { assert(s[(a.len() + b.len() + c.len()) as int] == MagicInput::Arcane); }
    assert forall|i: int, j: int| 0 <= i < j < s.len() implies key_rank(#[trigger] s[i]) < key_rank(#[trigger] s[j]) by {
    }
}

/// Different runes are shown under different names, and so are different elements;
/// different elements have different colours.
pub proof fn lemma_names_and_colours_are_distinct(a: MagicInput, b: MagicInput, x: MagicElement, y: MagicElement)
    ensures
        a != b ==> input_label(a) != input_label(b),
        x != y ==> element_label(x) != element_label(y),
        x != y ==> element_color(x) != element_color(y),
{
    reveal_strlit("Feu");
    reveal_strlit("Givre");
    reveal_strlit("Vent");
    reveal_strlit("Arcane");
    if a != b {
        assert(input_label(a).len() != input_label(b).len() || input_label(a)[0] != input_label(b)[0]);
    }
    if x != y {
        assert(element_label(x).len() != element_label(y).len() || element_label(x)[0] != element_label(y)[0]);
    }
}

} // verus!
