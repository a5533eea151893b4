use vstd::prelude::*;
use crate::buttons::{has, is_set, BUTTON_L_LEFT, BUTTON_R_LEFT, BUTTON_L_DOWN, BUTTON_R_DOWN,
    BUTTON_L_RIGHT, BUTTON_R_RIGHT, BUTTON_L_UP, BUTTON_R_UP};

verus! {

/// Number of frames a stick direction must be held before it auto-repeats.
pub const DIRECTION_HOLD_REPEAT_FRAMES: u32 = 20;

/// One stick side and one direction.
#[derive(Clone, Copy, Debug, PartialEq, Eq, Structural)]
pub enum DirectionButton {
    LLeft,
    RLeft,
    LDown,
    RDown,
    LRight,
    RRight,
    LUp,
    RUp,
}

impl DirectionButton {
    pub open spec fn index(self) -> int {
        match self {
            DirectionButton::LLeft => 0,
            DirectionButton::RLeft => 1,
            DirectionButton::LDown => 2,
            DirectionButton::RDown => 3,
            DirectionButton::LRight => 4,
            DirectionButton::RRight => 5,
            DirectionButton::LUp => 6,
            DirectionButton::RUp => 7,
        }
    }

    pub fn ordinal(self) -> (r: usize)
        ensures
            r == self.index(),
    {
        match self {
            DirectionButton::LLeft => 0,
            DirectionButton::RLeft => 1,
            DirectionButton::LDown => 2,
            DirectionButton::RDown => 3,
            DirectionButton::LRight => 4,
            DirectionButton::RRight => 5,
            DirectionButton::LUp => 6,
            DirectionButton::RUp => 7,
        }
    }
}

/// Raw stick bit of the direction with the given ordinal.
pub open spec fn direction_mask(i: int) -> u64 {
    if i == 0 { BUTTON_L_LEFT }
    else if i == 1 { BUTTON_R_LEFT }
    else if i == 2 { BUTTON_L_DOWN }
    else if i == 3 { BUTTON_R_DOWN }
    else if i == 4 { BUTTON_L_RIGHT }
    else if i == 5 { BUTTON_R_RIGHT }
    else if i == 6 { BUTTON_L_UP }
    else { BUTTON_R_UP }
}

fn mask_of(i: usize) -> (r: u64)
    requires
        i < 8,
    ensures
        r == direction_mask(i as int),
{
    if i == 0 { BUTTON_L_LEFT }
    else if i == 1 { BUTTON_R_LEFT }
    else if i == 2 { BUTTON_L_DOWN }
    else if i == 3 { BUTTON_R_DOWN }
    else if i == 4 { BUTTON_L_RIGHT }
    else if i == 5 { BUTTON_R_RIGHT }
    else if i == 6 { BUTTON_L_UP }
    else { BUTTON_R_UP }
}

/// The counters after one frame in which `held` is the held-button bitmask:
/// a held direction counts up (saturating), a released one drops to zero.
pub open spec fn held_update(frames: Seq<u32>, held: u64) -> Seq<u32> {
    Seq::new(8, |i: int|
        if has(held, direction_mask(i)) {
            if frames[i] < u32::MAX { (frames[i] + 1) as u32 } else { frames[i] }
        } else {
            0u32
        }
    )
}

pub open spec fn all_zero(frames: Seq<u32>) -> bool {
    forall|i: int| 0 <= i < 8 ==> #[trigger] frames[i] == 0
}

/// Per-direction counts of consecutive frames held.
pub struct HoldTracker {
    frames: [u32; 8],
}

impl HoldTracker {
    pub closed spec fn view(&self) -> Seq<u32> {
        self.frames@
    }

    pub fn new() -> (r: Self)
        ensures
            r@.len() == 8,
            all_zero(r@),
    {
        HoldTracker { frames: [0u32; 8] }
    }

    pub fn frames(&self, d: DirectionButton) -> (r: u32)
        ensures
            r == self@[d.index()],
    {
        self.frames[d.ordinal()]
    }

    /// Re-evaluates every counter against the held-button bitmask.
    pub fn update(&mut self, held: u64)
        ensures
            final(self)@ == held_update(old(self)@, held),
    {
        let mut i: usize = 0;
        while i < 8
            invariant
                i <= 8,
                self@.len() == 8,
                old(self)@.len() == 8,
                forall|j: int| 0 <= j < i ==> #[trigger] self@[j] == held_update(old(self)@, held)[j],
                forall|j: int| i <= j < 8 ==> #[trigger] self@[j] == old(self)@[j],
            decreases 8 - i,
        {
            let f = self.frames[i];
            if is_set(held, mask_of(i)) {
                self.frames[i] = if f < u32::MAX { f + 1 } else { f };
            } else {
                self.frames[i] = 0;
            }
            i = i + 1;
        }
        assert(self@ =~= held_update(old(self)@, held));
    }

    /// Whether a direction has been held past the repeat threshold.
    pub fn is_repeating(&self, d: DirectionButton) -> (r: bool)
        ensures
            r == (self@[d.index()] > DIRECTION_HOLD_REPEAT_FRAMES),
    {
        self.frames[d.ordinal()] > DIRECTION_HOLD_REPEAT_FRAMES
    }

    pub fn reset_all(&mut self)
        ensures
            final(self)@.len() == 8,
            all_zero(final(self)@),
    {
        self.frames = [0u32; 8];
    }
}

} // verus!
