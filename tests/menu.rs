use training_menu::buttons::{
    ButtonConfig, ControllerStyle, BUTTON_A, BUTTON_B, BUTTON_DPAD_DOWN, BUTTON_L_LEFT,
    BUTTON_PLUS, BUTTON_R, BUTTON_X, BUTTON_ZL,
};
use training_menu::holds::DirectionButton;
use training_menu::menu::{
    any_controller_connected, resolve_commands, ControllerState, MappedInputs, MenuCommand, QuickMenu,
};
use training_menu::holds::HoldTracker;

fn pad(held: u64, pressed: u64) -> ControllerState {
    ControllerState {
        style: ControllerStyle::ProController,
        current_buttons: held,
        previous_buttons: 0,
        just_down: pressed,
        just_release: 0,
    }
}

fn game_input() -> MappedInputs {
    MappedInputs { buttons: BUTTON_A, lstick_x: 40, lstick_y: -3, rstick_x: 0, rstick_y: 7 }
}

fn frame(m: &mut QuickMenu, ctl: ControllerState) -> (Vec<MenuCommand>, ControllerState, MappedInputs) {
    let mut c = ctl;
    let mut out = game_input();
    m.tick(true);
    let cmds = m.handle_final_input_mapping(0, &mut c, &mut out, true);
    (cmds, c, out)
}

fn open_menu(m: &mut QuickMenu) {
    let combo = vec![ButtonConfig::R, ButtonConfig::DpadDown];
    let ctl = pad(BUTTON_R | BUTTON_DPAD_DOWN, BUTTON_DPAD_DOWN);
    assert!(m.menu_condition(&combo, &ctl));
    m.spawn_menu();
}

#[test]
fn inactive_overlay_passes_input_through() {
    let mut m = QuickMenu::new();
    let (cmds, c, out) = frame(&mut m, pad(BUTTON_A, BUTTON_A));
    assert!(cmds.is_empty());
    assert_eq!(out, game_input());
    assert_eq!(c, pad(BUTTON_A, BUTTON_A));
    assert!(!m.is_active());
}

#[test]
fn open_press_b_and_close() {
    let mut m = QuickMenu::new();
    assert!(!m.is_active());
    open_menu(&mut m);
    assert!(m.is_active());
    let (cmds, _, out) = frame(&mut m, pad(BUTTON_B, BUTTON_B));
    assert_eq!(cmds, vec![MenuCommand::B]);
    assert_eq!(out, MappedInputs::empty());
    // the overlay reports that B at its root page closes it
    assert!(!m.after_command(MenuCommand::A, true));
    assert!(m.is_active());
    assert!(m.after_command(MenuCommand::B, true));
    assert!(!m.is_active());
    assert!(!m.after_command(MenuCommand::B, true));
    assert_eq!(m.close_frame_count(), 0);
    let (_, c, out) = frame(&mut m, pad(BUTTON_B, 0));
    assert_eq!(m.close_frame_count(), 1);
    assert_eq!(out, MappedInputs::empty());
    assert_eq!(c.current_buttons, 0);
}

#[test]
fn close_cooldown_lasts_fourteen_frames() {
    let mut m = QuickMenu::new();
    open_menu(&mut m);
    m.close_menu();
    for k in 1..15u32 {
        let (cmds, c, out) = frame(&mut m, pad(BUTTON_A, BUTTON_A));
        assert!(cmds.is_empty());
        assert_eq!(out, MappedInputs::empty(), "frame {k}");
        assert_eq!(c.just_down, 0);
        assert_eq!(m.close_frame_count(), k);
    }
    let (_, c, out) = frame(&mut m, pad(BUTTON_A, BUTTON_A));
    assert_eq!(out, game_input());
    assert_eq!(c, pad(BUTTON_A, BUTTON_A));
    assert_eq!(m.close_frame_count(), 0);
    let (_, _, out) = frame(&mut m, pad(BUTTON_A, BUTTON_A));
    assert_eq!(out, game_input());
    assert_eq!(m.close_frame_count(), 0);
}

#[test]
fn cooldown_counts_paused_frames_too() {
    let mut m = QuickMenu::new();
    open_menu(&mut m);
    m.close_menu();
    let mut c = pad(0, 0);
    let mut out = game_input();
    m.tick(false);
    m.handle_final_input_mapping(0, &mut c, &mut out, true);
    assert_eq!(m.close_frame_count(), 1);
    assert_eq!(out, MappedInputs::empty());
}

#[test]
fn held_direction_repeats_after_threshold() {
    let mut m = QuickMenu::new();
    open_menu(&mut m);
    let (cmds, _, _) = frame(&mut m, pad(BUTTON_L_LEFT, BUTTON_L_LEFT));
    assert_eq!(cmds, vec![MenuCommand::Left]);
    for _ in 2..=21 {
        let (cmds, _, _) = frame(&mut m, pad(BUTTON_L_LEFT, 0));
        assert!(cmds.is_empty());
    }
    let (cmds, _, _) = frame(&mut m, pad(BUTTON_L_LEFT, 0));
    assert_eq!(cmds, vec![MenuCommand::Left]);
}

#[test]
fn any_command_clears_every_hold_counter() {
    let mut m = QuickMenu::new();
    open_menu(&mut m);
    for _ in 0..10 {
        let (cmds, _, _) = frame(&mut m, pad(BUTTON_L_LEFT, 0));
        assert!(cmds.is_empty());
    }
    m.clear_received_input();
    let (cmds, _, _) = frame(&mut m, pad(BUTTON_L_LEFT | BUTTON_A, BUTTON_A));
    assert_eq!(cmds, vec![MenuCommand::A]);
    assert!(m.input_received());
    // the left counter restarted from zero: 20 more frames stay silent
    for _ in 0..20 {
        let (cmds, _, _) = frame(&mut m, pad(BUTTON_L_LEFT, 0));
        assert!(cmds.is_empty());
    }
    let (cmds, _, _) = frame(&mut m, pad(BUTTON_L_LEFT, 0));
    assert_eq!(cmds, vec![MenuCommand::Left]);
}

#[test]
fn commands_come_once_each_in_order() {
    let holds = HoldTracker::new();
    let pressed = BUTTON_DPAD_DOWN | BUTTON_X | BUTTON_A | BUTTON_ZL | BUTTON_L_LEFT | BUTTON_PLUS;
    let cmds = resolve_commands(ControllerStyle::ProController, pressed, &holds);
    assert_eq!(
        cmds,
        vec![MenuCommand::A, MenuCommand::X, MenuCommand::ZL, MenuCommand::Left, MenuCommand::Down]
    );
}

#[test]
fn disconnect_drops_the_overlay_without_cooldown() {
    let mut m = QuickMenu::new();
    open_menu(&mut m);
    m.clear_received_input();
    let mut c = pad(BUTTON_B, BUTTON_B);
    let mut out = game_input();
    m.tick(true);
    let cmds = m.handle_final_input_mapping(0, &mut c, &mut out, false);
    assert!(cmds.is_empty());
    assert!(!m.is_active());
    assert!(!m.input_received());
    assert_eq!(m.close_frame_count(), 0);
    let (_, _, out) = frame(&mut m, pad(BUTTON_A, BUTTON_A));
    assert_eq!(out, game_input());
}

#[test]
fn other_slots_are_untouched() {
    let mut m = QuickMenu::new();
    open_menu(&mut m);
    let mut c = pad(BUTTON_B, BUTTON_B);
    c.style = ControllerStyle::GCController;
    let mut out = game_input();
    let cmds = m.handle_final_input_mapping(1, &mut c, &mut out, true);
    assert!(cmds.is_empty());
    assert_eq!(out, game_input());
    assert!(m.is_active());
    assert_eq!(m.p1_controller_style(), ControllerStyle::ProController);
}

#[test]
fn style_snapshot_follows_slot_zero() {
    let mut m = QuickMenu::new();
    let mut c = pad(0, 0);
    c.style = ControllerStyle::GCController;
    let mut out = game_input();
    m.handle_final_input_mapping(0, &mut c, &mut out, true);
    assert_eq!(m.p1_controller_style(), ControllerStyle::GCController);
    assert_eq!(DirectionButton::RUp.ordinal(), 7);
}

#[test]
fn chord_held_without_fresh_press_opens() {
    let m = QuickMenu::new();
    let combo = vec![ButtonConfig::R, ButtonConfig::DpadDown];
    assert!(m.menu_condition(&combo, &pad(BUTTON_R | BUTTON_DPAD_DOWN, 0)));
    assert!(!m.menu_condition(&combo, &pad(BUTTON_R, BUTTON_R)));
}

#[test]
fn b_without_close_page_keeps_overlay() {
    let mut m = QuickMenu::new();
    open_menu(&mut m);
    assert!(!m.after_command(MenuCommand::B, false));
    assert!(m.is_active());
    assert_eq!(m.close_frame_count(), 0);
    let (_, _, out) = frame(&mut m, pad(0, 0));
    assert_eq!(out, MappedInputs::empty());
}

#[test]
fn connected_when_any_slot_has_a_style() {
    assert!(!any_controller_connected(&vec![0; 9]));
    let mut flags = vec![0u32; 9];
    flags[8] = 0x4;
    assert!(any_controller_connected(&flags));
    assert!(!any_controller_connected(&vec![]));
}
