use vstd::prelude::*;

use crate::error::CLIError;
use vstd::string::StringExecFns;

verus! {

/// Bit of the anchor set: stick to the top edge.
pub const ANCHOR_TOP: u8 = 0x1;

/// Bit of the anchor set: stick to the left edge.
pub const ANCHOR_LEFT: u8 = 0x2;

/// Bit of the anchor set: stick to the bottom edge.
pub const ANCHOR_BOTTOM: u8 = 0x4;

/// Bit of the anchor set: stick to the right edge.
pub const ANCHOR_RIGHT: u8 = 0x8;

/// Bound on every screen or window dimension and margin magnitude the
/// positioning arithmetic accepts.
pub const POSITION_BOUND: u32 = 0x0FFF_FFFF;

/// The screen edges a window is anchored to, as a small bit-set.
#[derive(Clone, Copy, Debug, PartialEq, Eq, Structural)]
pub struct Anchor {
    /// The anchor bits.
    pub bits: u8,
}

/// An ASCII upper-case letter folded to lower case; any other character
/// unchanged.
pub open spec fn lower_char(c: char) -> char {
    if 'A' <= c && c <= 'Z' {
        ((c as u8) + 32) as char
    } else {
        c
    }
}

/// The anchor a name's first letter denotes, where it denotes one.
pub open spec fn anchor_of(s: Seq<char>) -> Option<u8> {
    if s.len() == 0 {
        Option::<u8>::None
    } else if lower_char(s[0]) == 't' {
        Option::Some(ANCHOR_TOP)
    } else if lower_char(s[0]) == 'l' {
        Option::Some(ANCHOR_LEFT)
    } else if lower_char(s[0]) == 'b' {
        Option::Some(ANCHOR_BOTTOM)
    } else if lower_char(s[0]) == 'r' {
        Option::Some(ANCHOR_RIGHT)
    } else {
        Option::<u8>::None
    }
}

impl Anchor {
    /// No edge.
    pub fn none() -> (r: Anchor)
        ensures
            r.bits == 0,
    {
        Anchor { bits: 0 }
    }

    /// Whether every edge of `other` is also in `self`.
    pub fn contains(self, other: Anchor) -> (r: bool)
        ensures
            r == (self.bits & other.bits == other.bits),
    {
        self.bits & other.bits == other.bits
    }

    /// The union of the two edge sets.
    pub fn union(self, other: Anchor) -> (r: Anchor)
        ensures
            r.bits == self.bits | other.bits,
    {
        Anchor { bits: self.bits | other.bits }
    }

    /// Read an anchor from the first letter of its name, upper or lower
    /// case: top, left, bottom or right.  Any other text is refused, and
    /// the error carries it.
    pub fn try_from(s: &String) -> (r: Result<Anchor, CLIError>)
        ensures
            match anchor_of(s@) {
                Option::Some(bits) => r matches Result::Ok(a) && a.bits == bits,
                Option::None => r matches Result::Err(e) && e == CLIError::Anchor(*s),
            },
    {
        if s.as_str().unicode_len() == 0 {
            return Result::Err(CLIError::Anchor(s.clone()));
        }
        let c = s.as_str().get_char(0);
        let lc: char = if c >= 'A' && c <= 'Z' {
            ((c as u8) + 32) as char
        } else {
            c
        };
        if lc == 't' {
            Result::Ok(Anchor { bits: ANCHOR_TOP })
        } else if lc == 'l' {
            Result::Ok(Anchor { bits: ANCHOR_LEFT })
        } else if lc == 'b' {
            Result::Ok(Anchor { bits: ANCHOR_BOTTOM })
        } else if lc == 'r' {
            Result::Ok(Anchor { bits: ANCHOR_RIGHT })
        } else {
            Result::Err(CLIError::Anchor(s.clone()))
        }
    }
}

/// The margin that stands at position `i`, zero where the list is shorter.
pub open spec fn margin_at(margins: Seq<i32>, i: int) -> int {
    if 0 <= i < margins.len() {
        margins[i] as int
    } else {
        0
    }
}

/// Whether the bit `flag` is set in `bits`.
pub open spec fn has_bit(bits: u8, flag: u8) -> bool {
    bits & flag == flag
}

/// The position among the set anchor bits that the left flag takes.
pub open spec fn idx_left(bits: u8) -> int {
    if has_bit(bits, ANCHOR_TOP) {
        1
    } else {
        0
    }
}

/// The position among the set anchor bits that the bottom flag takes.
pub open spec fn idx_bottom(bits: u8) -> int {
    idx_left(bits) + if has_bit(bits, ANCHOR_LEFT) {
        1int
    } else {
        0int
    }
}

/// The position among the set anchor bits that the right flag takes.
pub open spec fn idx_right(bits: u8) -> int {
    idx_bottom(bits) + if has_bit(bits, ANCHOR_BOTTOM) {
        1int
    } else {
        0int
    }
}

/// The horizontal position the anchors place a window at.
pub open spec fn position_x(bits: u8, margins: Seq<i32>, screen: (u32, u32), window: (u32, u32)) -> int {
    (if has_bit(bits, ANCHOR_LEFT) {
        margin_at(margins, idx_left(bits))
    } else {
        0
    }) + (if has_bit(bits, ANCHOR_RIGHT) {
        screen.0 as int - window.0 as int - margin_at(margins, idx_right(bits))
    } else {
        0
    })
}

/// The vertical position the anchors place a window at.
pub open spec fn position_y(bits: u8, margins: Seq<i32>, screen: (u32, u32), window: (u32, u32)) -> int {
    (if has_bit(bits, ANCHOR_TOP) {
        margin_at(margins, 0)
    } else {
        0
    }) + (if has_bit(bits, ANCHOR_BOTTOM) {
        screen.1 as int - window.1 as int - margin_at(margins, idx_bottom(bits))
    } else {
        0
    })
}

impl Anchor {
    /// Place a window on the screen: each anchored edge adds its margin,
    /// and the bottom and right edges measure from the far side of the
    /// screen.  Margins pair with the anchors in top, left, bottom, right
    /// order, counting only the set ones; missing margins count as zero.
    pub fn position(&self, margins: &Vec<i32>, screen: (u32, u32), window: (u32, u32)) -> (r: (
        i32,
        i32,
    ))
        requires
            screen.0 <= POSITION_BOUND,
            screen.1 <= POSITION_BOUND,
            window.0 <= POSITION_BOUND,
            window.1 <= POSITION_BOUND,
            forall|i: int|
                0 <= i < margins@.len() ==> -(POSITION_BOUND as int) <= #[trigger] margins@[i]
                    <= POSITION_BOUND as int,
        ensures
            r.0 as int == position_x(self.bits, margins@, screen, window),
            r.1 as int == position_y(self.bits, margins@, screen, window),
    {
        let mut x: i32 = 0;
        let mut y: i32 = 0;
        let mut i: usize = 0;
        if self.contains(Anchor { bits: ANCHOR_TOP }) {
            let m = if i < margins.len() {
                margins[i]
            } else {
                0
            };
            y = y + m;
            i = i + 1;
        }
        if self.contains(Anchor { bits: ANCHOR_LEFT }) {
            proof {
                assert(i as int == idx_left(self.bits));
            }
            let m = if i < margins.len() {
                margins[i]
            } else {
                0
            };
            x = x + m;
            i = i + 1;
        }
        if self.contains(Anchor { bits: ANCHOR_BOTTOM }) {
            proof {
                assert(i as int == idx_bottom(self.bits));
            }
            let m = if i < margins.len() {
                margins[i]
            } else {
                0
            };
            y = y + (screen.1 as i32 - window.1 as i32 - m);
            i = i + 1;
        }
        if self.contains(Anchor { bits: ANCHOR_RIGHT }) {
            proof {
                assert(i as int == idx_right(self.bits));
            }
            let m = if i < margins.len() {
                margins[i]
            } else {
                0
            };
            x = x + (screen.0 as i32 - window.0 as i32 - m);
        }
        (x, y)
    }
}

} // verus!
