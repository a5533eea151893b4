use training_menu::tech::{
    change_motion, check_button_on, get_command_flag_cat, init_settings,
    should_perform_defensive_option, CommandAction, DefensiveState, FighterStatus, Motion,
    PadButton, TechState,
};

#[test]
fn tech_choice_on_down() {
    let down = FighterStatus::Down;
    assert_eq!(init_settings(TechState::InPlace, true, down, 0), Some(FighterStatus::Passive));
    assert_eq!(init_settings(TechState::Roll, true, down, 2), Some(FighterStatus::PassiveFb));
    assert_eq!(init_settings(TechState::Random, true, down, 0), None);
    assert_eq!(init_settings(TechState::Random, true, down, 1), Some(FighterStatus::Passive));
    assert_eq!(init_settings(TechState::Random, true, down, 2), Some(FighterStatus::PassiveFb));
    assert_eq!(init_settings(TechState::NoTech, true, down, 1), None);
    assert_eq!(init_settings(TechState::Roll, false, down, 1), None);
    assert_eq!(init_settings(TechState::Roll, true, FighterStatus::Other, 1), None);
}

#[test]
fn defensive_option_after_tech_or_getup() {
    assert!(should_perform_defensive_option(FighterStatus::PassiveFb, true));
    assert!(should_perform_defensive_option(FighterStatus::DownStandAttack, true));
    assert!(!should_perform_defensive_option(FighterStatus::PassiveFb, false));
    assert!(!should_perform_defensive_option(FighterStatus::DownWait, true));
}

#[test]
fn command_hook_decisions() {
    let t = TechState::Random;
    assert_eq!(
        get_command_flag_cat(t, true, FighterStatus::Other, FighterStatus::DownWait, true, 1),
        CommandAction::RequestStatus(FighterStatus::DownStandFb)
    );
    assert_eq!(
        get_command_flag_cat(t, true, FighterStatus::Other, FighterStatus::DownWaitContinue, false, 2),
        CommandAction::RequestStatus(FighterStatus::DownStandAttack)
    );
    assert_eq!(
        get_command_flag_cat(t, true, FighterStatus::Passive, FighterStatus::Other, true, 0),
        CommandAction::PerformDefensiveOption
    );
    assert_eq!(
        get_command_flag_cat(t, true, FighterStatus::Passive, FighterStatus::Other, false, 0),
        CommandAction::Nothing
    );
    assert_eq!(
        get_command_flag_cat(TechState::NoTech, true, FighterStatus::Passive, FighterStatus::DownWait, true, 0),
        CommandAction::Nothing
    );
}

#[test]
fn shield_is_forced_only_when_due() {
    let sh = DefensiveState::Shield;
    assert_eq!(check_button_on(PadButton::Guard, true, sh, FighterStatus::Passive, true), Some(true));
    assert_eq!(check_button_on(PadButton::GuardHold, true, sh, FighterStatus::DownStand, true), Some(true));
    assert_eq!(check_button_on(PadButton::Other, true, sh, FighterStatus::Passive, true), None);
    assert_eq!(check_button_on(PadButton::Guard, true, DefensiveState::Roll, FighterStatus::Passive, true), None);
    assert_eq!(check_button_on(PadButton::Guard, false, sh, FighterStatus::Passive, true), None);
}

#[test]
fn getup_motion_coin_flip() {
    let t = TechState::InPlace;
    assert_eq!(change_motion(t, true, Motion::PassiveStandB, true), Some(Motion::PassiveStandF));
    assert_eq!(change_motion(t, true, Motion::PassiveStandF, false), Some(Motion::PassiveStandB));
    assert_eq!(change_motion(t, true, Motion::DownBackU, true), Some(Motion::DownForwardU));
    assert_eq!(change_motion(t, true, Motion::DownForwardD, false), Some(Motion::DownBackD));
    assert_eq!(change_motion(t, true, Motion::Other, true), None);
    assert_eq!(change_motion(TechState::NoTech, true, Motion::DownBackU, true), None);
}
