use vstd::prelude::*;
use crate::buttons::{
    button_mapping, combo_holds, combo_passes, has, is_set, maps, ButtonConfig, ControllerStyle,
    BUTTON_DPAD_DOWN, BUTTON_DPAD_LEFT, BUTTON_DPAD_RIGHT, BUTTON_DPAD_UP, BUTTON_L_DOWN,
    BUTTON_L_LEFT, BUTTON_L_RIGHT, BUTTON_L_UP, BUTTON_R_DOWN, BUTTON_R_LEFT, BUTTON_R_RIGHT,
    BUTTON_R_UP,
};
use crate::frame_counter::{FrameCounter, FrameCounterType, FrameCounters, ticked};
use crate::holds::{all_zero, held_update, DirectionButton, HoldTracker, DIRECTION_HOLD_REPEAT_FRAMES};

verus! {

/// Frames after a close during which all input to the game is neutral.
pub const MENU_CLOSE_WAIT_FRAMES: u32 = 15;

/// Raw state of one controller for the current frame.
#[derive(Clone, Copy, Debug, PartialEq, Eq, Structural)]
pub struct ControllerState {
    pub style: ControllerStyle,
    pub current_buttons: u64,
    pub previous_buttons: u64,
    pub just_down: u64,
    pub just_release: u64,
}

/// The input that is handed on to the game for one player.
#[derive(Clone, Copy, Debug, PartialEq, Eq, Structural)]
pub struct MappedInputs {
    pub buttons: u64,
    pub lstick_x: i8,
    pub lstick_y: i8,
    pub rstick_x: i8,
    pub rstick_y: i8,
}

pub open spec fn neutral() -> MappedInputs {
    MappedInputs { buttons: 0, lstick_x: 0, lstick_y: 0, rstick_x: 0, rstick_y: 0 }
}

impl MappedInputs {
    /// No button down and both sticks centred.
    pub fn empty() -> (r: Self)
        ensures
            r == neutral(),
    {
        MappedInputs { buttons: 0, lstick_x: 0, lstick_y: 0, rstick_x: 0, rstick_y: 0 }
    }
}

/// The controller with every button field cleared; its style is kept.
pub open spec fn cleared(c: ControllerState) -> ControllerState {
    ControllerState { current_buttons: 0, previous_buttons: 0, just_down: 0, just_release: 0, ..c }
}

/// Whether any controller slot reports a device: `style_flags` holds the
/// style flags of every monitored slot, zero for an empty slot.
pub fn any_controller_connected(style_flags: &Vec<u32>) -> (r: bool)
    ensures
        r == (exists|i: int| 0 <= i < style_flags@.len() && #[trigger] style_flags@[i] != 0),
{
    let mut i: usize = 0;
    while i < style_flags.len()
        invariant
            i <= style_flags@.len(),
            forall|j: int| 0 <= j < i ==> #[trigger] style_flags@[j] == 0,
        decreases style_flags@.len() - i,
    {
        if style_flags[i] != 0 {
            return true;
        }
        i = i + 1;
    }
    false
}

/// A navigation event forwarded to the overlay.
#[derive(Clone, Copy, Debug, PartialEq, Eq, Structural)]
pub enum MenuCommand {
    A,
    B,
    X,
    Y,
    ZL,
    ZR,
    R,
    Left,
    Right,
    Up,
    Down,
}

pub open spec fn when(c: bool, m: MenuCommand) -> Seq<MenuCommand> {
    if c { seq![m] } else { Seq::empty() }
}

pub open spec fn repeating(frames: Seq<u32>, i: int) -> bool {
    frames[i] > DIRECTION_HOLD_REPEAT_FRAMES
}

/// A direction fires on a fresh press of the d-pad or either stick, or when
/// either stick has been held past the repeat threshold.
pub open spec fn left_fires(pressed: u64, frames: Seq<u32>) -> bool {
    has(pressed, BUTTON_DPAD_LEFT) || has(pressed, BUTTON_L_LEFT) || has(pressed, BUTTON_R_LEFT)
        || repeating(frames, 0) || repeating(frames, 1)
}

pub open spec fn down_fires(pressed: u64, frames: Seq<u32>) -> bool {
    has(pressed, BUTTON_DPAD_DOWN) || has(pressed, BUTTON_L_DOWN) || has(pressed, BUTTON_R_DOWN)
        || repeating(frames, 2) || repeating(frames, 3)
}

pub open spec fn right_fires(pressed: u64, frames: Seq<u32>) -> bool {
    has(pressed, BUTTON_DPAD_RIGHT) || has(pressed, BUTTON_L_RIGHT) || has(pressed, BUTTON_R_RIGHT)
        || repeating(frames, 4) || repeating(frames, 5)
}

pub open spec fn up_fires(pressed: u64, frames: Seq<u32>) -> bool {
    has(pressed, BUTTON_DPAD_UP) || has(pressed, BUTTON_L_UP) || has(pressed, BUTTON_R_UP)
        || repeating(frames, 6) || repeating(frames, 7)
}

/// The commands of one frame, each at most once, in dispatch order:
/// A, B, X, Y, ZL, ZR, R, then left, right, up, down.
pub open spec fn menu_commands(style: ControllerStyle, pressed: u64, frames: Seq<u32>) -> Seq<MenuCommand> {
    when(maps(ButtonConfig::A, style, pressed), MenuCommand::A)
        + when(maps(ButtonConfig::B, style, pressed), MenuCommand::B)
        + when(maps(ButtonConfig::X, style, pressed), MenuCommand::X)
        + when(maps(ButtonConfig::Y, style, pressed), MenuCommand::Y)
        + when(maps(ButtonConfig::ZL, style, pressed), MenuCommand::ZL)
        + when(maps(ButtonConfig::ZR, style, pressed), MenuCommand::ZR)
        + when(maps(ButtonConfig::R, style, pressed), MenuCommand::R)
        + when(left_fires(pressed, frames), MenuCommand::Left)
        + when(right_fires(pressed, frames), MenuCommand::Right)
        + when(up_fires(pressed, frames), MenuCommand::Up)
        + when(down_fires(pressed, frames), MenuCommand::Down)
}

fn push_when(v: &mut Vec<MenuCommand>, c: bool, m: MenuCommand)
    ensures
        final(v)@ == old(v)@ + when(c, m),
{
    if c {
        v.push(m);
    } else {
        assert(old(v)@ + when(c, m) =~= old(v)@);
    }
}

/// Resolves the navigation commands of one frame from the just-pressed
/// bitmask and the (already updated) hold counters.
pub fn resolve_commands(style: ControllerStyle, pressed: u64, holds: &HoldTracker) -> (r: Vec<MenuCommand>)
    requires
        holds@.len() == 8,
    ensures
        r@ == menu_commands(style, pressed, holds@),
{
    let mut v: Vec<MenuCommand> = Vec::new();
    push_when(&mut v, button_mapping(ButtonConfig::A, style, pressed), MenuCommand::A);
    push_when(&mut v, button_mapping(ButtonConfig::B, style, pressed), MenuCommand::B);
    push_when(&mut v, button_mapping(ButtonConfig::X, style, pressed), MenuCommand::X);
    push_when(&mut v, button_mapping(ButtonConfig::Y, style, pressed), MenuCommand::Y);
    push_when(&mut v, button_mapping(ButtonConfig::ZL, style, pressed), MenuCommand::ZL);
    push_when(&mut v, button_mapping(ButtonConfig::ZR, style, pressed), MenuCommand::ZR);
    push_when(&mut v, button_mapping(ButtonConfig::R, style, pressed), MenuCommand::R);
    let left = is_set(pressed, BUTTON_DPAD_LEFT) || is_set(pressed, BUTTON_L_LEFT)
        || is_set(pressed, BUTTON_R_LEFT) || holds.is_repeating(DirectionButton::LLeft)
        || holds.is_repeating(DirectionButton::RLeft);
    push_when(&mut v, left, MenuCommand::Left);
    let right = is_set(pressed, BUTTON_DPAD_RIGHT) || is_set(pressed, BUTTON_L_RIGHT)
        || is_set(pressed, BUTTON_R_RIGHT) || holds.is_repeating(DirectionButton::LRight)
        || holds.is_repeating(DirectionButton::RRight);
    push_when(&mut v, right, MenuCommand::Right);
    let up = is_set(pressed, BUTTON_DPAD_UP) || is_set(pressed, BUTTON_L_UP)
        || is_set(pressed, BUTTON_R_UP) || holds.is_repeating(DirectionButton::LUp)
        || holds.is_repeating(DirectionButton::RUp);
    push_when(&mut v, up, MenuCommand::Up);
    let down = is_set(pressed, BUTTON_DPAD_DOWN) || is_set(pressed, BUTTON_L_DOWN)
        || is_set(pressed, BUTTON_R_DOWN) || holds.is_repeating(DirectionButton::LDown)
        || holds.is_repeating(DirectionButton::RDown);
    push_when(&mut v, down, MenuCommand::Down);
    v
}


/// The close counter while a cooldown runs suppresses input.
pub open spec fn in_cooldown(c: FrameCounter) -> bool {
    0 < c.count < MENU_CLOSE_WAIT_FRAMES
}

/// Cooldown bookkeeping of one frame: once the window has passed, the close
/// counter is stopped and reset.
pub open spec fn after_gate(c: FrameCounter) -> FrameCounter {
    if c.count >= MENU_CLOSE_WAIT_FRAMES {
        FrameCounter { counting: false, count: 0, ..c }
    } else {
        c
    }
}

/// Hold counters at the end of an active frame: updated from what is held,
/// then all cleared if any command fired.
pub open spec fn holds_after_frame(style: ControllerStyle, c: ControllerState, frames: Seq<u32>) -> Seq<u32> {
    let f = held_update(frames, c.current_buttons);
    if menu_commands(style, c.just_down, f).len() > 0 {
        Seq::new(8, |i: int| 0u32)
    } else {
        f
    }
}

/// Overlay navigation state owned by the frame handler: whether the overlay
/// holds the input stream, the hold counters, the frame counters with the
/// close-cooldown counter among them, and the last seen pad style.
pub struct QuickMenu {
    counters: FrameCounters,
    close_counter: usize,
    active: bool,
    holds: HoldTracker,
    received_input: bool,
    style: ControllerStyle,
}

impl QuickMenu {
    pub closed spec fn counters(&self) -> Seq<FrameCounter> {
        self.counters@
    }

    pub closed spec fn close_handle(&self) -> int {
        self.close_counter as int
    }

    pub open spec fn close_counter(&self) -> FrameCounter {
        self.counters()[self.close_handle()]
    }

    pub closed spec fn active(&self) -> bool {
        self.active
    }

    pub closed spec fn hold_frames(&self) -> Seq<u32> {
        self.holds@
    }

    pub closed spec fn received_input(&self) -> bool {
        self.received_input
    }

    pub closed spec fn style(&self) -> ControllerStyle {
        self.style
    }

    pub closed spec fn wf(&self) -> bool {
        &&& self.close_counter < self.counters@.len()
        &&& self.counters@[self.close_counter as int].kind == FrameCounterType::Real
        &&& self.holds@.len() == 8
    }

    /// A closed overlay with a stopped close counter and zeroed hold counters.
    pub fn new() -> (r: Self)
        ensures
            r.wf(),
            !r.active(),
            r.received_input(),
            r.style() == ControllerStyle::ProController,
            all_zero(r.hold_frames()),
            r.counters().len() == 1,
            r.close_counter() == (FrameCounter { kind: FrameCounterType::Real, counting: false, count: 0 }),
    {
        let mut counters = FrameCounters::new();
        let close_counter = counters.register_counter(FrameCounterType::Real);
        QuickMenu {
            counters,
            close_counter,
            active: false,
            holds: HoldTracker::new(),
            received_input: true,
            style: ControllerStyle::ProController,
        }
    }

    pub fn is_active(&self) -> (r: bool)
        ensures
            r == self.active(),
    {
        self.active
    }

    pub fn input_received(&self) -> (r: bool)
        ensures
            r == self.received_input(),
    {
        self.received_input
    }

    /// Marks pending input as handled (after the overlay was redrawn).
    pub fn clear_received_input(&mut self)
        ensures
            !final(self).received_input(),
            final(self).active() == old(self).active(),
            final(self).counters() == old(self).counters(),
            final(self).close_handle() == old(self).close_handle(),
            final(self).hold_frames() == old(self).hold_frames(),
            final(self).style() == old(self).style(),
            old(self).wf() ==> final(self).wf(),
    {
        self.received_input = false;
    }

    pub fn p1_controller_style(&self) -> (r: ControllerStyle)
        ensures
            r == self.style(),
    {
        self.style
    }

    pub fn close_frame_count(&self) -> (r: u32)
        requires
            self.wf(),
        ensures
            r == self.close_counter().count,
    {
        self.counters.get_frame_count(self.close_counter)
    }

    /// Advances every frame counter by one frame.
    pub fn tick(&mut self, simulation_running: bool)
        requires
            old(self).wf(),
        ensures
            final(self).wf(),
            final(self).counters().len() == old(self).counters().len(),
            forall|i: int| 0 <= i < old(self).counters().len() ==>
                #[trigger] final(self).counters()[i] == ticked(old(self).counters()[i], simulation_running),
            final(self).close_handle() == old(self).close_handle(),
            final(self).close_counter() == ticked(old(self).close_counter(), simulation_running),
            final(self).active() == old(self).active(),
            final(self).hold_frames() == old(self).hold_frames(),
            final(self).received_input() == old(self).received_input(),
            final(self).style() == old(self).style(),
    {
        self.counters.tick(simulation_running);
    }

    /// Whether the configured open chord is satisfied on this controller.
    pub fn menu_condition(&self, open_combo: &Vec<ButtonConfig>, controller: &ControllerState) -> (r: bool)
        ensures
            r == combo_holds(open_combo@, controller.style, controller.current_buttons),
    {
        combo_passes(open_combo, controller.style, controller.current_buttons)
    }

    /// Opens the overlay. Hold counters start from zero so that nothing held
    /// before opening can trigger a repeat.
    pub fn spawn_menu(&mut self)
        requires
            old(self).wf(),
        ensures
            final(self).wf(),
            final(self).active(),
            final(self).received_input(),
            all_zero(final(self).hold_frames()),
            final(self).counters() == old(self).counters(),
            final(self).close_handle() == old(self).close_handle(),
            final(self).style() == old(self).style(),
    {
        self.active = true;
        self.holds.reset_all();
        self.received_input = true;
    }

    /// Commits a close requested by the overlay: the overlay lets go of the
    /// input stream and the close cooldown starts.
    pub fn close_menu(&mut self)
        requires
            old(self).wf(),
        ensures
            final(self).wf(),
            !final(self).active(),
            final(self).close_handle() == old(self).close_handle(),
            final(self).counters() == old(self).counters().update(
                old(self).close_handle(),
                FrameCounter { counting: true, ..old(self).close_counter() },
            ),
            final(self).close_counter() == (FrameCounter { counting: true, ..old(self).close_counter() }),
            final(self).hold_frames() == old(self).hold_frames(),
            final(self).received_input() == old(self).received_input(),
            final(self).style() == old(self).style(),
    {
        self.counters.start_counting(self.close_counter);
        self.active = false;
    }

    /// Commits what the overlay made of one forwarded command: a B after
    /// which the overlay reports its close page closes it in the same frame.
    /// On `true` the caller applies the overlay's settings to the document
    /// and enqueues the close event with them; otherwise nothing changes.
    pub fn after_command(&mut self, cmd: MenuCommand, close_requested: bool) -> (commit: bool)
        requires
            old(self).wf(),
        ensures
            final(self).wf(),
            commit == (cmd == MenuCommand::B && close_requested && old(self).active()),
            commit ==> {
                &&& !final(self).active()
                &&& final(self).close_counter() == (FrameCounter { counting: true, ..old(self).close_counter() })
                &&& final(self).counters() == old(self).counters().update(
                    old(self).close_handle(),
                    FrameCounter { counting: true, ..old(self).close_counter() },
                )
            },
            !commit ==> *final(self) == *old(self),
            final(self).close_handle() == old(self).close_handle(),
            final(self).hold_frames() == old(self).hold_frames(),
            final(self).received_input() == old(self).received_input(),
            final(self).style() == old(self).style(),
    {
        if cmd == MenuCommand::B && close_requested && self.active {
            self.close_menu();
            true
        } else {
            false
        }
    }

    /// The per-frame gate for one player slot. Only slot 0 is handled; other
    /// slots pass through untouched. During the close cooldown the controller
    /// is cleared and the game gets neutral input; while the overlay is open
    /// the game gets neutral input and the returned commands are the ones to
    /// forward to the overlay, in order. If no controller is connected the
    /// overlay is dropped without any command, cooldown or hold update.
    pub fn handle_final_input_mapping(
        &mut self,
        player_idx: i32,
        controller: &mut ControllerState,
        out: &mut MappedInputs,
        any_controller_connected: bool,
    ) -> (cmds: Vec<MenuCommand>)
        requires
            old(self).wf(),
        ensures
            final(self).wf(),
            final(self).close_handle() == old(self).close_handle(),
            player_idx != 0 ==> {
                &&& *final(self) == *old(self)
                &&& *final(controller) == *old(controller)
                &&& *final(out) == *old(out)
                &&& cmds@.len() == 0
            },
            player_idx == 0 ==> {
                let c = old(self).close_counter();
                let ctl = *final(controller);
                &&& final(self).style() == old(controller).style
                &&& ctl == (if in_cooldown(c) { cleared(*old(controller)) } else { *old(controller) })
                &&& final(self).counters() == old(self).counters().update(old(self).close_handle(), after_gate(c))
                &&& final(self).close_counter() == after_gate(c)
                &&& *final(out) == (if in_cooldown(c) || old(self).active() { neutral() } else { *old(out) })
                &&& (!old(self).active() ==> {
                    &&& cmds@.len() == 0
                    &&& !final(self).active()
                    &&& final(self).hold_frames() == old(self).hold_frames()
                    &&& final(self).received_input() == old(self).received_input()
                })
                &&& (old(self).active() && !any_controller_connected ==> {
                    &&& cmds@.len() == 0
                    &&& !final(self).active()
                    &&& final(self).hold_frames() == old(self).hold_frames()
                    &&& final(self).received_input() == old(self).received_input()
                })
                &&& (old(self).active() && any_controller_connected ==> {
                    let f = held_update(old(self).hold_frames(), ctl.current_buttons);
                    &&& cmds@ == menu_commands(ctl.style, ctl.just_down, f)
                    &&& final(self).active()
                    &&& final(self).hold_frames() == holds_after_frame(ctl.style, ctl, old(self).hold_frames())
                    &&& (cmds@.len() > 0 ==> all_zero(final(self).hold_frames()))
                    &&& final(self).received_input() == (old(self).received_input() || cmds@.len() > 0)
                })
            },
    {
        if player_idx != 0 {
            return Vec::new();
        }
        self.style = controller.style;
        let count = self.counters.get_frame_count(self.close_counter);
        if count > 0 && count < MENU_CLOSE_WAIT_FRAMES {
            *out = MappedInputs::empty();
            controller.current_buttons = 0;
            controller.previous_buttons = 0;
            controller.just_down = 0;
            controller.just_release = 0;
        } else if count >= MENU_CLOSE_WAIT_FRAMES {
            self.counters.stop_counting(self.close_counter);
            self.counters.reset_frame_count(self.close_counter);
        }
        if !self.active {
            return Vec::new();
        }
        *out = MappedInputs::empty();
        if !any_controller_connected {
            self.active = false;
            return Vec::new();
        }
        let style = controller.style;
        self.holds.update(controller.current_buttons);
        let cmds = resolve_commands(style, controller.just_down, &self.holds);
        if cmds.len() > 0 {
            self.holds.reset_all();
            assert(self.holds@ =~= Seq::new(8, |i: int| 0u32));
            self.received_input = true;
        }
        cmds
    }
}

/// The close counter after `n` frames, each a tick followed by the cooldown
/// bookkeeping; `running[k]` says whether the simulation ran in frame `k`.
pub open spec fn cooldown_after(c: FrameCounter, running: Seq<bool>, n: nat) -> FrameCounter
    decreases n,
{
    if n == 0 {
        c
    } else {
        after_gate(ticked(cooldown_after(c, running, (n - 1) as nat), running[n - 1]))
    }
}

/// The close counter that the input gate reads in frame `n` after a close,
/// for `n >= 1`: the counter left by frame `n - 1`, advanced by one tick.
pub open spec fn cooldown_seen(c: FrameCounter, running: Seq<bool>, n: nat) -> FrameCounter {
    ticked(cooldown_after(c, running, (n - 1) as nat), running[n - 1])
}

/// After a close, the game sees neutral input in each of the next 14 frames,
/// whether or not the simulation runs; in the 15th frame the close counter is
/// stopped and reset and input passes through again.
pub proof fn lemma_close_cooldown(c: FrameCounter, running: Seq<bool>)
    requires
        c == (FrameCounter { kind: FrameCounterType::Real, counting: true, count: 0 }),
        running.len() >= 15,
    ensures
        forall|n: nat| 1 <= n < 15 ==> #[trigger] in_cooldown(cooldown_seen(c, running, n)),
        !in_cooldown(cooldown_seen(c, running, 15)),
        cooldown_after(c, running, 15) == (FrameCounter { kind: FrameCounterType::Real, counting: false, count: 0 }),
{
    lemma_cooldown_counts(c, running, 14);
    assert forall|n: nat| 1 <= n < 15 implies #[trigger] in_cooldown(cooldown_seen(c, running, n)) by {
        lemma_cooldown_counts(c, running, (n - 1) as nat);
    }
}

proof fn lemma_cooldown_counts(c: FrameCounter, running: Seq<bool>, n: nat)
    requires
        c == (FrameCounter { kind: FrameCounterType::Real, counting: true, count: 0 }),
        n < 15,
    ensures
        cooldown_after(c, running, n) == (FrameCounter { count: n as u32, ..c }),
    decreases n,
{
    if n > 0 {
        lemma_cooldown_counts(c, running, (n - 1) as nat);
    }
}

/// A pad on which only `held` is held and nothing is freshly pressed.
pub open spec fn holding(style: ControllerStyle, held: u64) -> ControllerState {
    ControllerState { style, current_buttons: held, previous_buttons: held, just_down: 0, just_release: 0 }
}

/// Hold counters after `n` active frames of holding `held`, starting from
/// all zero (as they are right after an accepted command).
pub open spec fn holds_after_holding(style: ControllerStyle, held: u64, n: nat) -> Seq<u32>
    decreases n,
{
    if n == 0 {
        Seq::new(8, |i: int| 0u32)
    } else {
        holds_after_frame(style, holding(style, held), holds_after_holding(style, held, (n - 1) as nat))
    }
}

/// The commands of the `n`-th frame (counted from 1) of such a hold.
pub open spec fn commands_while_holding(style: ControllerStyle, held: u64, n: nat) -> Seq<MenuCommand> {
    menu_commands(style, 0, held_update(holds_after_holding(style, held, (n - 1) as nat), held))
}

pub open spec fn direction_command(d: DirectionButton) -> MenuCommand {
    match d {
        DirectionButton::LLeft | DirectionButton::RLeft => MenuCommand::Left,
        DirectionButton::LDown | DirectionButton::RDown => MenuCommand::Down,
        DirectionButton::LRight | DirectionButton::RRight => MenuCommand::Right,
        DirectionButton::LUp | DirectionButton::RUp => MenuCommand::Up,
    }
}

pub open spec fn direction_bit(i: int) -> u64 {
    if i == 0 { 16 }
    else if i == 1 { 20 }
    else if i == 2 { 19 }
    else if i == 3 { 23 }
    else if i == 4 { 18 }
    else if i == 5 { 22 }
    else if i == 6 { 17 }
    else { 21 }
}

proof fn lemma_single_bits(a: u64, b: u64)
    requires
        a < 64,
        b < 64,
    ensures
        ((1u64 << a) & (1u64 << b) != 0) == (a == b),
        (0u64 & (1u64 << a)) == 0,
{
    assert(((1u64 << a) & (1u64 << b) != 0) == (a == b)) by (bit_vector)
        requires a < 64, b < 64;
    assert((0u64 & (1u64 << a)) == 0) by (bit_vector);
}

proof fn lemma_direction_masks(i: int)
    requires
        0 <= i < 8,
    ensures
        crate::holds::direction_mask(i) == 1u64 << direction_bit(i),
{
    assert(0x10000u64 == 1u64 << 16u64) by (bit_vector);
    assert(0x20000u64 == 1u64 << 17u64) by (bit_vector);
    assert(0x40000u64 == 1u64 << 18u64) by (bit_vector);
    assert(0x80000u64 == 1u64 << 19u64) by (bit_vector);
    assert(0x100000u64 == 1u64 << 20u64) by (bit_vector);
    assert(0x200000u64 == 1u64 << 21u64) by (bit_vector);
    assert(0x400000u64 == 1u64 << 22u64) by (bit_vector);
    assert(0x800000u64 == 1u64 << 23u64) by (bit_vector);
}

proof fn lemma_nothing_pressed()
    ensures
        forall|m: u64| !#[trigger] has(0, m),
{
    assert forall|m: u64| !#[trigger] has(0, m) by {
        assert(0u64 & m == 0) by (bit_vector);
    }
}

/// While one stick direction is held with no fresh press, starting right
/// after an accepted command (counters all zero): the next 20 frames give no
/// command, the 21st gives exactly that direction's command, and since an
/// accepted command clears every counter, the counters are then back to zero.
pub proof fn lemma_hold_repeat(style: ControllerStyle, d: DirectionButton)
    ensures
        forall|n: nat| 1 <= n <= 20 ==> #[trigger] commands_while_holding(style, crate::holds::direction_mask(d.index()), n).len() == 0,
        commands_while_holding(style, crate::holds::direction_mask(d.index()), 21) == seq![direction_command(d)],
        holds_after_holding(style, crate::holds::direction_mask(d.index()), 21) == Seq::new(8, |i: int| 0u32),
{
    let held = crate::holds::direction_mask(d.index());
    lemma_nothing_pressed();
    lemma_direction_masks(d.index());
    assert forall|i: int| 0 <= i < 8 implies #[trigger] has(held, crate::holds::direction_mask(i)) == (i == d.index()) by {
        lemma_direction_masks(i);
        lemma_single_bits(direction_bit(d.index()), direction_bit(i));
    }
    assert forall|n: nat| 1 <= n <= 20 implies #[trigger] commands_while_holding(style, held, n).len() == 0 by {
        lemma_holding_counts(style, d, (n - 1) as nat);
        lemma_holding_counts(style, d, n);
    }
    lemma_holding_counts(style, d, 20);
    let f = held_update(holds_after_holding(style, held, 20), held);
    assert(f[d.index()] == 21);
    assert(commands_while_holding(style, held, 21) =~= seq![direction_command(d)]);
    assert(holds_after_holding(style, held, 21) =~= Seq::new(8, |i: int| 0u32));
}

proof fn lemma_holding_counts(style: ControllerStyle, d: DirectionButton, n: nat)
    requires
        n <= 20,
        forall|m: u64| !#[trigger] has(0, m),
        forall|i: int| 0 <= i < 8 ==> #[trigger] has(crate::holds::direction_mask(d.index()), crate::holds::direction_mask(i)) == (i == d.index()),
    ensures
        holds_after_holding(style, crate::holds::direction_mask(d.index()), n)
            == Seq::new(8, |i: int| if i == d.index() { n as u32 } else { 0u32 }),
        menu_commands(style, 0, held_update(holds_after_holding(style, crate::holds::direction_mask(d.index()), n), crate::holds::direction_mask(d.index()))).len()
            == (if n == 20 { 1int } else { 0int }),
    decreases n,
{
    let held = crate::holds::direction_mask(d.index());
    if n > 0 {
        lemma_holding_counts(style, d, (n - 1) as nat);
        let prev = holds_after_holding(style, held, (n - 1) as nat);
        let f = held_update(prev, held);
        assert(f =~= Seq::new(8, |i: int| if i == d.index() { n as u32 } else { 0u32 }));
        assert(holds_after_holding(style, held, n) =~= Seq::new(8, |i: int| if i == d.index() { n as u32 } else { 0u32 }));
    } else {
        assert(holds_after_holding(style, held, 0) =~= Seq::new(8, |i: int| if i == d.index() { 0u32 } else { 0u32 }));
    }
    let f2 = held_update(holds_after_holding(style, held, n), held);
    assert(f2 =~= Seq::new(8, |i: int| if i == d.index() { (n + 1) as u32 } else { 0u32 }));
}

proof fn lemma_in_middle(pre: Seq<MenuCommand>, c: MenuCommand, post: Seq<MenuCommand>)
    ensures
        (pre + seq![c] + post).contains(c),
{
    assert((pre + seq![c] + post)[pre.len() as int] == c);
}

/// A fresh press of a stick direction fires that direction's command in the
/// same frame, whatever the hold counters hold.
pub proof fn lemma_press_fires(style: ControllerStyle, d: DirectionButton, frames: Seq<u32>)
    requires
        frames.len() == 8,
    ensures
        menu_commands(style, crate::holds::direction_mask(d.index()), frames).contains(direction_command(d)),
{
    let m = crate::holds::direction_mask(d.index());
    lemma_direction_masks(d.index());
    lemma_single_bits(direction_bit(d.index()), direction_bit(d.index()));
    let cs = menu_commands(style, m, frames);
    let head = when(maps(ButtonConfig::A, style, m), MenuCommand::A)
        + when(maps(ButtonConfig::B, style, m), MenuCommand::B)
        + when(maps(ButtonConfig::X, style, m), MenuCommand::X)
        + when(maps(ButtonConfig::Y, style, m), MenuCommand::Y)
        + when(maps(ButtonConfig::ZL, style, m), MenuCommand::ZL)
        + when(maps(ButtonConfig::ZR, style, m), MenuCommand::ZR)
        + when(maps(ButtonConfig::R, style, m), MenuCommand::R);
    let l = when(left_fires(m, frames), MenuCommand::Left);
    let r = when(right_fires(m, frames), MenuCommand::Right);
    let u = when(up_fires(m, frames), MenuCommand::Up);
    let w = when(down_fires(m, frames), MenuCommand::Down);
    match d {
        DirectionButton::LLeft | DirectionButton::RLeft => {
            assert(left_fires(m, frames));
            assert(cs =~= head + seq![MenuCommand::Left] + (r + u + w));
            lemma_in_middle(head, MenuCommand::Left, r + u + w);
        },
        DirectionButton::LRight | DirectionButton::RRight => {
            assert(right_fires(m, frames));
            assert(cs =~= (head + l) + seq![MenuCommand::Right] + (u + w));
            lemma_in_middle(head + l, MenuCommand::Right, u + w);
        },
        DirectionButton::LUp | DirectionButton::RUp => {
            assert(up_fires(m, frames));
            assert(cs =~= (head + l + r) + seq![MenuCommand::Up] + w);
            lemma_in_middle(head + l + r, MenuCommand::Up, w);
        },
        DirectionButton::LDown | DirectionButton::RDown => {
            assert(down_fires(m, frames));
            assert(cs =~= (head + l + r + u) + seq![MenuCommand::Down] + Seq::empty());
            lemma_in_middle(head + l + r + u, MenuCommand::Down, Seq::empty());
        },
    }
}

} // verus!
