use vstd::prelude::*;

verus! {

/// Fighter status kinds that the tech decisions read or request.
#[derive(Clone, Copy, Debug, PartialEq, Eq, Structural)]
pub enum FighterStatus {
    Down,
    Passive,
    PassiveFb,
    DownStand,
    DownStandFb,
    DownStandAttack,
    DownWait,
    DownWaitContinue,
    Other,
}

/// Configured reaction to landing on the ground after being launched.
#[derive(Clone, Copy, Debug, PartialEq, Eq, Structural)]
pub enum TechState {
    NoTech,
    Random,
    InPlace,
    Roll,
}

/// Configured option out of a knockdown or tech.
#[derive(Clone, Copy, Debug, PartialEq, Eq, Structural)]
pub enum DefensiveState {
    NoOption,
    Random,
    Spotdodge,
    Roll,
    Jab,
    Shield,
}

/// Pad buttons asked about by the game.
#[derive(Clone, Copy, Debug, PartialEq, Eq, Structural)]
pub enum PadButton {
    Guard,
    GuardHold,
    Other,
}

/// Motion kinds of getting up from a tech or knockdown.
#[derive(Clone, Copy, Debug, PartialEq, Eq, Structural)]
pub enum Motion {
    PassiveStandF,
    PassiveStandB,
    DownForwardU,
    DownBackU,
    DownForwardD,
    DownBackD,
    Other,
}

/// What the command hook should do this frame.
#[derive(Clone, Copy, Debug, PartialEq, Eq, Structural)]
pub enum CommandAction {
    Nothing,
    RequestStatus(FighterStatus),
    PerformDefensiveOption,
}

/// Random tech picks among staying down, teching in place and tech rolling.
pub open spec fn random_tech_choice(i: int) -> FighterStatus {
    if i == 0 { FighterStatus::Down } else if i == 1 { FighterStatus::Passive } else { FighterStatus::PassiveFb }
}

/// Getting up from a knockdown picks among stand, roll and getup attack.
pub open spec fn getup_choice(i: int) -> FighterStatus {
    if i == 0 { FighterStatus::DownStand } else if i == 1 { FighterStatus::DownStandFb } else { FighterStatus::DownStandAttack }
}

/// Status to request when a CPU in training enters the down status, if any.
/// `random_index` is a draw in `0..3`, used only for random teching.
pub fn init_settings(
    tech_state: TechState,
    cpu_in_training: bool,
    status_kind: FighterStatus,
    random_index: usize,
) -> (r: Option<FighterStatus>)
    requires
        random_index < 3,
    ensures
        r == (if cpu_in_training && status_kind == FighterStatus::Down {
            match tech_state {
                TechState::Random => if random_tech_choice(random_index as int) != FighterStatus::Down {
                    Some(random_tech_choice(random_index as int))
                } else {
                    None
                },
                TechState::InPlace => Some(FighterStatus::Passive),
                TechState::Roll => Some(FighterStatus::PassiveFb),
                TechState::NoTech => None,
            }
        } else {
            None
        }),
{
    if !(cpu_in_training && status_kind == FighterStatus::Down) {
        return None;
    }
    match tech_state {
        TechState::Random => {
            let choices = [FighterStatus::Down, FighterStatus::Passive, FighterStatus::PassiveFb];
            let s = choices[random_index];
            if s != FighterStatus::Down {
                Some(s)
            } else {
                None
            }
        },
        TechState::InPlace => Some(FighterStatus::Passive),
        TechState::Roll => Some(FighterStatus::PassiveFb),
        TechState::NoTech => None,
    }
}

pub open spec fn after_tech_or_getup(s: FighterStatus) -> bool {
    s == FighterStatus::Passive || s == FighterStatus::PassiveFb || s == FighterStatus::DownStand
        || s == FighterStatus::DownStandFb || s == FighterStatus::DownStandAttack
}

/// A defensive option is due right after a tech or getup, as soon as the
/// fighter may shield or cancel (`can_act`).
pub fn should_perform_defensive_option(prev_status: FighterStatus, can_act: bool) -> (r: bool)
    ensures
        r == (after_tech_or_getup(prev_status) && can_act),
{
    let after = prev_status == FighterStatus::Passive || prev_status == FighterStatus::PassiveFb
        || prev_status == FighterStatus::DownStand || prev_status == FighterStatus::DownStandFb
        || prev_status == FighterStatus::DownStandAttack;
    after && can_act
}

/// Decision of the command hook for a CPU in training: lying on the ground it
/// gets up in a random way (`random_index` in `0..3`); right after a tech or
/// getup it performs its defensive option.
pub fn get_command_flag_cat(
    tech_state: TechState,
    cpu_in_training: bool,
    prev_status: FighterStatus,
    status: FighterStatus,
    can_act: bool,
    random_index: usize,
) -> (r: CommandAction)
    requires
        random_index < 3,
    ensures
        r == (if tech_state != TechState::NoTech && cpu_in_training {
            if status == FighterStatus::DownWait || status == FighterStatus::DownWaitContinue {
                CommandAction::RequestStatus(getup_choice(random_index as int))
            } else if after_tech_or_getup(prev_status) && can_act {
                CommandAction::PerformDefensiveOption
            } else {
                CommandAction::Nothing
            }
        } else {
            CommandAction::Nothing
        }),
{
    if tech_state == TechState::NoTech || !cpu_in_training {
        return CommandAction::Nothing;
    }
    if status == FighterStatus::DownWait || status == FighterStatus::DownWaitContinue {
        let choices = [FighterStatus::DownStand, FighterStatus::DownStandFb, FighterStatus::DownStandAttack];
        CommandAction::RequestStatus(choices[random_index])
    } else if should_perform_defensive_option(prev_status, can_act) {
        CommandAction::PerformDefensiveOption
    } else {
        CommandAction::Nothing
    }
}

/// Forces the shield button on for a CPU in training whose defensive option
/// is shield, when that option is due.
pub fn check_button_on(
    button: PadButton,
    cpu_in_training: bool,
    defensive_state: DefensiveState,
    prev_status: FighterStatus,
    can_act: bool,
) -> (r: Option<bool>)
    ensures
        r == (if (button == PadButton::Guard || button == PadButton::GuardHold) && cpu_in_training
            && defensive_state == DefensiveState::Shield && after_tech_or_getup(prev_status) && can_act {
            Some(true)
        } else {
            None
        }),
{
    if (button == PadButton::Guard || button == PadButton::GuardHold) && cpu_in_training
        && defensive_state == DefensiveState::Shield && should_perform_defensive_option(prev_status, can_act) {
        Some(true)
    } else {
        None
    }
}

/// Replaces a directional getup motion by a coin flip between its forward
/// and backward forms (`coin` is the flip: forward when set).
pub fn change_motion(tech_state: TechState, cpu_in_training: bool, motion: Motion, coin: bool) -> (r: Option<Motion>)
    ensures
        r == (if tech_state != TechState::NoTech && cpu_in_training {
            match motion {
                Motion::PassiveStandF | Motion::PassiveStandB =>
                    Some(if coin { Motion::PassiveStandF } else { Motion::PassiveStandB }),
                Motion::DownForwardU | Motion::DownBackU =>
                    Some(if coin { Motion::DownForwardU } else { Motion::DownBackU }),
                Motion::DownForwardD | Motion::DownBackD =>
                    Some(if coin { Motion::DownForwardD } else { Motion::DownBackD }),
                Motion::Other => None,
            }
        } else {
            None
        }),
{
    if tech_state == TechState::NoTech || !cpu_in_training {
        return None;
    }
    match motion {
        Motion::PassiveStandF | Motion::PassiveStandB =>
            Some(if coin { Motion::PassiveStandF } else { Motion::PassiveStandB }),
        Motion::DownForwardU | Motion::DownBackU =>
            Some(if coin { Motion::DownForwardU } else { Motion::DownBackU }),
        Motion::DownForwardD | Motion::DownBackD =>
            Some(if coin { Motion::DownForwardD } else { Motion::DownBackD }),
        Motion::Other => None,
    }
}

} // verus!
