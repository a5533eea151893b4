use vstd::prelude::*;

verus! {

// Bit layout of a raw controller button bitmask.
pub const BUTTON_A: u64 = 0x1;
pub const BUTTON_B: u64 = 0x2;
pub const BUTTON_X: u64 = 0x4;
pub const BUTTON_Y: u64 = 0x8;
pub const BUTTON_STICK_L: u64 = 0x10;
pub const BUTTON_STICK_R: u64 = 0x20;
pub const BUTTON_L: u64 = 0x40;
pub const BUTTON_R: u64 = 0x80;
pub const BUTTON_ZL: u64 = 0x100;
pub const BUTTON_ZR: u64 = 0x200;
pub const BUTTON_PLUS: u64 = 0x400;
pub const BUTTON_MINUS: u64 = 0x800;
pub const BUTTON_DPAD_LEFT: u64 = 0x1000;
pub const BUTTON_DPAD_UP: u64 = 0x2000;
pub const BUTTON_DPAD_RIGHT: u64 = 0x4000;
pub const BUTTON_DPAD_DOWN: u64 = 0x8000;
pub const BUTTON_L_LEFT: u64 = 0x10000;
pub const BUTTON_L_UP: u64 = 0x20000;
pub const BUTTON_L_RIGHT: u64 = 0x40000;
pub const BUTTON_L_DOWN: u64 = 0x80000;
pub const BUTTON_R_LEFT: u64 = 0x100000;
pub const BUTTON_R_UP: u64 = 0x200000;
pub const BUTTON_R_RIGHT: u64 = 0x400000;
pub const BUTTON_R_DOWN: u64 = 0x800000;
pub const BUTTON_LEFT_SL: u64 = 0x1000000;
pub const BUTTON_LEFT_SR: u64 = 0x2000000;
pub const BUTTON_RIGHT_SL: u64 = 0x4000000;
pub const BUTTON_RIGHT_SR: u64 = 0x8000000;
/// A GameCube trigger pressed all the way down (past the analog travel).
pub const BUTTON_REAL_DIGITAL_L: u64 = 0x10000000;
pub const BUTTON_REAL_DIGITAL_R: u64 = 0x20000000;

/// Physical controller style of a player's pad; it decides which raw bit
/// stands for which logical button.
#[derive(Clone, Copy, Debug, PartialEq, Eq, Structural)]
pub enum ControllerStyle {
    Handheld,
    DualJoycon,
    LeftJoycon,
    RightJoycon,
    ProController,
    DebugPad,
    GCController,
}

/// A logical button of the application, independent of the pad's layout.
#[derive(Clone, Copy, Debug, PartialEq, Eq, Structural)]
pub enum ButtonConfig {
    A,
    B,
    X,
    Y,
    L,
    R,
    ZL,
    ZR,
    DpadUp,
    DpadDown,
    DpadLeft,
    DpadRight,
    Plus,
    Minus,
    LStick,
    RStick,
}

pub open spec fn has(bits: u64, mask: u64) -> bool {
    bits & mask != 0
}

/// Whether any bit of `mask` is set in `bits`.
pub fn is_set(bits: u64, mask: u64) -> (r: bool)
    ensures
        r == has(bits, mask),
{
    bits & mask != 0
}

/// Whether the logical button `config` is down in `bits` for a pad of `style`.
pub open spec fn maps(config: ButtonConfig, style: ControllerStyle, bits: u64) -> bool {
    let gc = style == ControllerStyle::GCController;
    match config {
        ButtonConfig::A => has(bits, BUTTON_A),
        ButtonConfig::B => has(bits, BUTTON_B),
        ButtonConfig::X => has(bits, BUTTON_X),
        ButtonConfig::Y => has(bits, BUTTON_Y),
        ButtonConfig::L => !gc && has(bits, BUTTON_L),
        ButtonConfig::R => if gc {
            has(bits, BUTTON_ZR)
        } else {
            has(bits, BUTTON_R)
        },
        ButtonConfig::ZL => if gc {
            has(bits, BUTTON_L) || has(bits, BUTTON_REAL_DIGITAL_L)
        } else {
            has(bits, BUTTON_ZL) || has(bits, BUTTON_LEFT_SL) || has(bits, BUTTON_RIGHT_SL)
        },
        ButtonConfig::ZR => if gc {
            has(bits, BUTTON_R) || has(bits, BUTTON_REAL_DIGITAL_R)
        } else {
            has(bits, BUTTON_ZR) || has(bits, BUTTON_LEFT_SR) || has(bits, BUTTON_RIGHT_SR)
        },
        ButtonConfig::DpadUp => has(bits, BUTTON_DPAD_UP),
        ButtonConfig::DpadDown => has(bits, BUTTON_DPAD_DOWN),
        ButtonConfig::DpadLeft => has(bits, BUTTON_DPAD_LEFT),
        ButtonConfig::DpadRight => has(bits, BUTTON_DPAD_RIGHT),
        ButtonConfig::Plus => has(bits, BUTTON_PLUS),
        ButtonConfig::Minus => has(bits, BUTTON_MINUS),
        ButtonConfig::LStick => has(bits, BUTTON_STICK_L),
        ButtonConfig::RStick => has(bits, BUTTON_STICK_R),
    }
}

/// Style-aware decoding of one logical button from a raw bitmask. A
/// GameCube pad has no separate L: its shoulders give ZL / ZR, whether
/// pressed lightly or all the way, and its Z gives R.
pub fn button_mapping(config: ButtonConfig, style: ControllerStyle, bits: u64) -> (r: bool)
    ensures
        r == maps(config, style, bits),
{
    let gc = style == ControllerStyle::GCController;
    match config {
        ButtonConfig::A => is_set(bits, BUTTON_A),
        ButtonConfig::B => is_set(bits, BUTTON_B),
        ButtonConfig::X => is_set(bits, BUTTON_X),
        ButtonConfig::Y => is_set(bits, BUTTON_Y),
        ButtonConfig::L => !gc && is_set(bits, BUTTON_L),
        ButtonConfig::R => if gc {
            is_set(bits, BUTTON_ZR)
        } else {
            is_set(bits, BUTTON_R)
        },
        ButtonConfig::ZL => if gc {
            is_set(bits, BUTTON_L) || is_set(bits, BUTTON_REAL_DIGITAL_L)
        } else {
            is_set(bits, BUTTON_ZL) || is_set(bits, BUTTON_LEFT_SL) || is_set(bits, BUTTON_RIGHT_SL)
        },
        ButtonConfig::ZR => if gc {
            is_set(bits, BUTTON_R) || is_set(bits, BUTTON_REAL_DIGITAL_R)
        } else {
            is_set(bits, BUTTON_ZR) || is_set(bits, BUTTON_LEFT_SR) || is_set(bits, BUTTON_RIGHT_SR)
        },
        ButtonConfig::DpadUp => is_set(bits, BUTTON_DPAD_UP),
        ButtonConfig::DpadDown => is_set(bits, BUTTON_DPAD_DOWN),
        ButtonConfig::DpadLeft => is_set(bits, BUTTON_DPAD_LEFT),
        ButtonConfig::DpadRight => is_set(bits, BUTTON_DPAD_RIGHT),
        ButtonConfig::Plus => is_set(bits, BUTTON_PLUS),
        ButtonConfig::Minus => is_set(bits, BUTTON_MINUS),
        ButtonConfig::LStick => is_set(bits, BUTTON_STICK_L),
        ButtonConfig::RStick => is_set(bits, BUTTON_STICK_R),
    }
}

/// A chord is satisfied when every one of its buttons is held.
pub open spec fn combo_holds(combo: Seq<ButtonConfig>, style: ControllerStyle, held: u64) -> bool {
    forall|i: int| 0 <= i < combo.len() ==> maps(#[trigger] combo[i], style, held)
}

/// Evaluates a configured chord (such as the one that opens the overlay)
/// against the live held-button state of a pad.
pub fn combo_passes(combo: &Vec<ButtonConfig>, style: ControllerStyle, held: u64) -> (r: bool)
    ensures
        r == combo_holds(combo@, style, held),
{
    let mut i: usize = 0;
    while i < combo.len()
        invariant
            i <= combo@.len(),
            forall|j: int| 0 <= j < i ==> maps(#[trigger] combo@[j], style, held),
        decreases combo@.len() - i,
    {
        if !button_mapping(combo[i], style, held) {
            return false;
        }
        i = i + 1;
    }
    true
}

} // verus!
