//! The display effect the desktop window can put over the picture.
//!
//! The effect itself is a GPU pass and lives with the window; what is decided here is
//! which effect is selected, how F3 steps through them, and whether the pass is needed
//! at all.
use vstd::prelude::*;

verus! {

/// Which display effect the pass applies.
///
/// Cycled with F3 rather than toggled, because this is the first of several: the
/// intermediate texture exists so that a full CRT treatment can be added as another
/// variant without disturbing the plumbing.
#[derive(Debug, Clone, Copy, PartialEq, Eq, Structural)]
pub enum CrtMode {
    /// Straight to the surface. No intermediate texture, no second pass.
    Off,
    /// Dark rows between the emulated scanlines, brightness-compensated.
    Scanlines,
}

impl CrtMode {
    /// Every mode, in the order F3 steps through them.
    ///
    /// One list rather than a hand-written `match` in `next`, so adding a variant cannot
    /// accidentally leave it unreachable from the key.
    pub const ALL: [CrtMode; 2] = [CrtMode::Off, CrtMode::Scanlines];

    /// The mode after `self` in [`CrtMode::ALL`], wrapping round.
    pub open spec fn next_spec(self) -> CrtMode {
        match self {
            CrtMode::Off => CrtMode::Scanlines,
            CrtMode::Scanlines => CrtMode::Off,
        }
    }

    /// The next mode in the cycle, wrapping round to [`CrtMode::Off`].
    pub fn next(self) -> (r: Self)
        ensures
            r == self.next_spec(),
    {
        let all = Self::ALL;
        let mut index: usize = 0;
        while index < 2
            invariant
                index <= 2,
                all@ == seq![CrtMode::Off, CrtMode::Scanlines],
                forall|j: int| 0 <= j < index ==> all@[j] != self,
            ensures
                index <= 2,
                index < 2 ==> all@[index as int] == self,
                forall|j: int| 0 <= j < index ==> all@[j] != self,
            decreases 2 - index,
        {
            if all[index] == self {
                break;
            }
            index = index + 1;
        }
        let found = if index < 2 {
            index
        } else {
            0
        };
        all[(found + 1) % 2]
    }

    /// How to name it in the overlay.
    pub fn label(self) -> (r: &'static str)
        ensures
            r@ == match self {
                CrtMode::Off => "off"@,
                CrtMode::Scanlines => "scanlines"@,
            },
    {
        match self {
            CrtMode::Off => "off",
            CrtMode::Scanlines => "scanlines",
        }
    }

    /// Whether this mode needs the post-processing pass to run at all.
    ///
    /// `Off` is not "the effect with its strength at zero": it skips the intermediate
    /// texture and the second pass entirely, so a feature that is switched off costs a
    /// branch rather than a render pass.
    pub fn needs_pass(self) -> (r: bool)
        ensures
            r == (self != CrtMode::Off),
    {
        !matches!(self, CrtMode::Off)
    }
}

impl Default for CrtMode {
    fn default() -> (r: Self)
        ensures
            r == CrtMode::Off,
    {
        CrtMode::Off
    }
}

/// Pressing F3 repeatedly visits every mode once and comes back to the start.
pub proof fn lemma_f3_cycles(mode: CrtMode)
    ensures
        mode.next_spec() != mode,
        mode.next_spec().next_spec() == mode,
{
}

} // verus!
