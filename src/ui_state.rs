use vstd::prelude::*;

verus! {

/// A snapshot of the eight buttons; `true` is pressed.
#[derive(Clone, Copy, Debug, PartialEq, Eq, Structural)]
pub struct UIState {
    pub a: bool,
    pub b: bool,
    pub up: bool,
    pub right: bool,
    pub down: bool,
    pub left: bool,
    pub start: bool,
    pub select: bool,
}

/// Whether some button is pressed in `to` that was not pressed in `from`.
pub open spec fn negative_edge(from: UIState, to: UIState) -> bool {
    (!from.a && to.a) || (!from.b && to.b) || (!from.up && to.up) || (!from.right && to.right) || (
    !from.down && to.down) || (!from.left && to.left) || (!from.start && to.start) || (!from.select
        && to.select)
}

impl UIState {
    /// No button pressed.
    pub fn new() -> (r: UIState)
        ensures
            !r.a && !r.b && !r.up && !r.right && !r.down && !r.left && !r.start && !r.select,
    {
        UIState {
            a: false,
            b: false,
            up: false,
            right: false,
            down: false,
            left: false,
            start: false,
            select: false,
        }
    }

    /// The snapshot held in a button mask: bit 0 A, 1 B, 2 Select, 3 Start, 4 Right, 5 Left,
    /// 6 Up, 7 Down.
    pub fn from_mask(mask: u8) -> (r: UIState)
        ensures
            r.a == (mask & 0x01 != 0),
            r.b == (mask & 0x02 != 0),
            r.select == (mask & 0x04 != 0),
            r.start == (mask & 0x08 != 0),
            r.right == (mask & 0x10 != 0),
            r.left == (mask & 0x20 != 0),
            r.up == (mask & 0x40 != 0),
            r.down == (mask & 0x80 != 0),
    {
        UIState {
            a: mask & 0x01 != 0,
            b: mask & 0x02 != 0,
            select: mask & 0x04 != 0,
            start: mask & 0x08 != 0,
            right: mask & 0x10 != 0,
            left: mask & 0x20 != 0,
            up: mask & 0x40 != 0,
            down: mask & 0x80 != 0,
        }
    }

    /// Whether a button went from released to pressed between the two snapshots.
    pub fn has_negative_edge(from_state: &UIState, to_state: &UIState) -> (r: bool)
        ensures
            r == negative_edge(*from_state, *to_state),
    {
        (!from_state.a && to_state.a) || (!from_state.b && to_state.b) || (!from_state.up
            && to_state.up) || (!from_state.right && to_state.right) || (!from_state.down
            && to_state.down) || (!from_state.left && to_state.left) || (!from_state.start
            && to_state.start) || (!from_state.select && to_state.select)
    }

    pub fn any_pressed(&self) -> (r: bool)
        ensures
            r == (self.a || self.b || self.up || self.right || self.down || self.left || self.start
                || self.select),
    {
        self.a || self.b || self.up || self.right || self.down || self.left || self.start
            || self.select
    }
}

} // verus!
