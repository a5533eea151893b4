use training_menu::buttons::{
    button_mapping, combo_passes, is_set, ButtonConfig, ControllerStyle, BUTTON_A, BUTTON_B,
    BUTTON_L, BUTTON_LEFT_SL, BUTTON_R, BUTTON_REAL_DIGITAL_L, BUTTON_RIGHT_SR, BUTTON_ZL,
    BUTTON_ZR,
};

#[test]
fn face_buttons_decode_on_every_style() {
    assert!(button_mapping(ButtonConfig::A, ControllerStyle::ProController, BUTTON_A));
    assert!(button_mapping(ButtonConfig::A, ControllerStyle::GCController, BUTTON_A));
    assert!(!button_mapping(ButtonConfig::A, ControllerStyle::ProController, BUTTON_B));
    assert!(button_mapping(ButtonConfig::B, ControllerStyle::Handheld, BUTTON_A | BUTTON_B));
}

#[test]
fn gamecube_shoulders_are_zl_and_zr() {
    let gc = ControllerStyle::GCController;
    assert!(button_mapping(ButtonConfig::ZL, gc, BUTTON_L));
    assert!(button_mapping(ButtonConfig::ZL, gc, BUTTON_REAL_DIGITAL_L));
    assert!(!button_mapping(ButtonConfig::L, gc, BUTTON_L));
    assert!(button_mapping(ButtonConfig::ZR, gc, BUTTON_R));
    assert!(button_mapping(ButtonConfig::R, gc, BUTTON_ZR));
    assert!(!button_mapping(ButtonConfig::R, gc, BUTTON_R));
}

#[test]
fn joycon_side_buttons_are_zl_and_zr() {
    let s = ControllerStyle::LeftJoycon;
    assert!(button_mapping(ButtonConfig::ZL, s, BUTTON_LEFT_SL));
    assert!(button_mapping(ButtonConfig::ZL, s, BUTTON_ZL));
    assert!(button_mapping(ButtonConfig::ZR, s, BUTTON_RIGHT_SR));
    assert!(!button_mapping(ButtonConfig::ZL, s, BUTTON_L));
    assert!(button_mapping(ButtonConfig::L, s, BUTTON_L));
}

#[test]
fn is_set_reads_single_bits() {
    assert!(is_set(0x5, 0x4));
    assert!(!is_set(0x5, 0x2));
    assert!(!is_set(0, u64::MAX));
}

#[test]
fn combo_needs_every_button_held() {
    let combo = vec![ButtonConfig::L, ButtonConfig::A];
    let s = ControllerStyle::ProController;
    assert!(combo_passes(&combo, s, BUTTON_L | BUTTON_A));
    assert!(combo_passes(&combo, s, BUTTON_L | BUTTON_A | BUTTON_B));
    assert!(!combo_passes(&combo, s, BUTTON_A));
    assert!(!combo_passes(&combo, ControllerStyle::GCController, BUTTON_L | BUTTON_A));
    assert!(combo_passes(&vec![], s, 0));
}
