use vstd::prelude::*;

verus! {

/// The buttons of one joypad; `true` is pressed.
#[derive(Clone, Copy, Debug, PartialEq, Eq, Structural, Default)]
pub struct JoypadState {
    pub a: bool,
    pub b: bool,
    pub select: bool,
    pub start: bool,
    pub up: bool,
    pub down: bool,
    pub left: bool,
    pub right: bool,
}

/// What the input source reports for both ports.
#[derive(Clone, Copy, Debug, PartialEq, Eq, Structural, Default)]
pub struct InputState {
    pub joypad_1: JoypadState,
    pub joypad_2: JoypadState,
}

/// No button pressed on either port.
pub open spec fn released() -> InputState {
    InputState {
        joypad_1: JoypadState {
            a: false, b: false, select: false, start: false, up: false, down: false, left: false, right: false,
        },
        joypad_2: JoypadState {
            a: false, b: false, select: false, start: false, up: false, down: false, left: false, right: false,
        },
    }
}

/// The button shifted out at position `i` of a strobed read sequence:
/// A, B, Select, Start, Up, Down, Left, Right, then all ones.
pub open spec fn button_at(j: JoypadState, i: u8) -> bool {
    if i == 0 {
        j.a
    } else if i == 1 {
        j.b
    } else if i == 2 {
        j.select
    } else if i == 3 {
        j.start
    } else if i == 4 {
        j.up
    } else if i == 5 {
        j.down
    } else if i == 6 {
        j.left
    } else if i == 7 {
        j.right
    } else {
        true
    }
}

/// The strobe state of the $4016 latch.
#[derive(Clone, Copy, Debug, PartialEq, Eq, Structural)]
pub enum InputStrobe {
    /// Each read samples the current A button of port 1.
    Live,
    /// Reads shift the buttons of `state` out one by one.
    Strobed { state: InputState, read_port_1: u8, read_port_2: u8 },
}

#[derive(Clone, Copy, Debug, PartialEq, Eq, Structural)]
pub struct InputReader {
    pub strobe: InputStrobe,
}

/// What a read of port 1 returns, given the current input of the source.
pub open spec fn port_1_data(strobe: InputStrobe, current: InputState) -> bool {
    match strobe {
        InputStrobe::Live => current.joypad_1.a,
        InputStrobe::Strobed { state, read_port_1, .. } => button_at(state.joypad_1, read_port_1),
    }
}

/// The strobe after a read of port 1: the port-1 index moves on, saturating.
pub open spec fn strobe_after_read(strobe: InputStrobe) -> InputStrobe {
    match strobe {
        InputStrobe::Live => InputStrobe::Live,
        InputStrobe::Strobed { state, read_port_1, read_port_2 } => InputStrobe::Strobed {
            state,
            read_port_1: if read_port_1 == 255 { 255 } else { (read_port_1 + 1) as u8 },
            read_port_2,
        },
    }
}

impl InputReader {
    pub fn new() -> (r: InputReader)
        ensures
            r.strobe == InputStrobe::Live,
    {
        InputReader { strobe: InputStrobe::Live }
    }

    /// A write of 1 to bit 0 of $4016: reads sample the live state.
    pub fn start_strobe(&mut self)
        ensures
            final(self).strobe == InputStrobe::Live,
    {
        self.strobe = InputStrobe::Live;
    }

    /// A write of 0 to bit 0 of $4016: the current input is latched and the
    /// shift indices start over.
    pub fn stop_strobe(&mut self, current: InputState)
        ensures
            final(self).strobe == (InputStrobe::Strobed { state: current, read_port_1: 0, read_port_2: 0 }),
    {
        self.strobe = InputStrobe::Strobed { state: current, read_port_1: 0, read_port_2: 0 };
    }

    /// A read of the port-1 data bit.
    pub fn read_port_1_data(&mut self, current: InputState) -> (r: bool)
        ensures
            r == port_1_data(old(self).strobe, current),
            final(self).strobe == strobe_after_read(old(self).strobe),
    {
        match self.strobe {
            InputStrobe::Live => current.joypad_1.a,
            InputStrobe::Strobed { state, read_port_1, read_port_2 } => {
                let j = state.joypad_1;
                let data = match read_port_1 {
                    0 => j.a,
                    1 => j.b,
                    2 => j.select,
                    3 => j.start,
                    4 => j.up,
                    5 => j.down,
                    6 => j.left,
                    7 => j.right,
                    _ => true,
                };
                self.strobe = InputStrobe::Strobed {
                    state,
                    read_port_1: read_port_1.saturating_add(1),
                    read_port_2,
                };
                data
            },
        }
    }
}

/// The strobe after `n` reads of port 1.
pub open spec fn strobe_after_reads(strobe: InputStrobe, n: nat) -> InputStrobe
    decreases n,
{
    if n == 0 {
        strobe
    } else {
        strobe_after_read(strobe_after_reads(strobe, (n - 1) as nat))
    }
}

/// Once latched, the `n`-th read of port 1 (from 0) returns the `n`-th button
/// in the order A, B, Select, Start, Up, Down, Left, Right, and every read
/// from the ninth on returns 1, whatever the source reports meanwhile.
pub proof fn lemma_strobed_reads(state: InputState, n: nat, current: InputState)
    ensures
        n < 8 ==> port_1_data(
            strobe_after_reads(InputStrobe::Strobed { state, read_port_1: 0, read_port_2: 0 }, n),
            current,
        ) == button_at(state.joypad_1, n as u8),
        n >= 8 ==> port_1_data(
            strobe_after_reads(InputStrobe::Strobed { state, read_port_1: 0, read_port_2: 0 }, n),
            current,
        ),
{
    lemma_strobe_index(state, n);
}

/// After `n` reads the port-1 index is `min(n, 255)` and the snapshot is kept.
proof fn lemma_strobe_index(state: InputState, n: nat)
    ensures
        strobe_after_reads(InputStrobe::Strobed { state, read_port_1: 0, read_port_2: 0 }, n)
            == (InputStrobe::Strobed {
            state,
            read_port_1: if n >= 255 { 255u8 } else { n as u8 },
            read_port_2: 0,
        }),
    decreases n,
{
    if n > 0 {
        lemma_strobe_index(state, (n - 1) as nat);
    }
}

} // verus!
