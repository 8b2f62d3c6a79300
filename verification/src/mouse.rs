use vstd::prelude::*;

verus! {

/// Bit of the first packet byte: left button held.
pub const LEFT_BUTTON: u8 = 0x01;
/// Bit of the first packet byte: right button held.
pub const RIGHT_BUTTON: u8 = 0x02;
/// Bit of the first packet byte: middle button held.
pub const MIDDLE_BUTTON: u8 = 0x04;
/// Bit of the first packet byte: set in every valid packet; used to resynchronize.
pub const ALWAYS_ONE: u8 = 0x08;
/// Bit of the first packet byte: the x delta is negative.
pub const X_SIGN: u8 = 0x10;
/// Bit of the first packet byte: the y delta is negative.
pub const Y_SIGN: u8 = 0x20;
/// Bit of the first packet byte: the x delta overflowed.
pub const X_OVERFLOW: u8 = 0x40;
/// Bit of the first packet byte: the y delta overflowed.
pub const Y_OVERFLOW: u8 = 0x80;

/// A snapshot of the mouse flags, x delta and y delta.
#[derive(Clone, Copy, Debug, PartialEq, Eq, Structural)]
pub struct MouseState {
    pub flags: u8,
    pub x: i16,
    pub y: i16,
}

impl Default for MouseState {
    /// The empty snapshot: no flags, zero deltas.
    fn default() -> (s: MouseState)
        ensures
            s == (MouseState { flags: 0, x: 0, y: 0 }),
    {
        MouseState { flags: 0, x: 0, y: 0 }
    }
}

impl MouseState {
    /// Returns true if the left mouse button is currently down.
    pub fn left_button_down(&self) -> (r: bool)
        ensures
            r == (self.flags & LEFT_BUTTON != 0),
    {
        self.flags & LEFT_BUTTON != 0
    }

    /// Returns true if the left mouse button is currently up.
    pub fn left_button_up(&self) -> (r: bool)
        ensures
            r == (self.flags & LEFT_BUTTON == 0),
    {
        self.flags & LEFT_BUTTON == 0
    }

    /// Returns true if the right mouse button is currently down.
    pub fn right_button_down(&self) -> (r: bool)
        ensures
            r == (self.flags & RIGHT_BUTTON != 0),
    {
        self.flags & RIGHT_BUTTON != 0
    }

    /// Returns true if the right mouse button is currently up.
    pub fn right_button_up(&self) -> (r: bool)
        ensures
            r == (self.flags & RIGHT_BUTTON == 0),
    {
        self.flags & RIGHT_BUTTON == 0
    }

    /// Returns the x delta of the mouse state.
    pub fn get_x(&self) -> (r: i16)
        ensures
            r == self.x,
    {
        self.x
    }

    /// Returns the y delta of the mouse state.
    pub fn get_y(&self) -> (r: i16)
        ensures
            r == self.y,
    {
        self.y
    }
}

/// An 8-bit magnitude read as a negative 9-bit delta: the top byte is filled,
/// so the value is `b - 256`.
pub open spec fn spec_sign_extend(b: u8) -> i16 {
    (b - 256) as i16
}

/// The x field after the second packet byte: frozen if the overflow flag is
/// set, otherwise the byte, sign-extended when the sign flag is set.
pub open spec fn spec_apply_x(s: MouseState, packet: u8) -> MouseState {
    if s.flags & X_OVERFLOW != 0 {
        s
    } else if s.flags & X_SIGN != 0 {
        MouseState { x: spec_sign_extend(packet), ..s }
    } else {
        MouseState { x: packet as i16, ..s }
    }
}

/// The y field after the third packet byte, symmetric to `spec_apply_x`.
pub open spec fn spec_apply_y(s: MouseState, packet: u8) -> MouseState {
    if s.flags & Y_OVERFLOW != 0 {
        s
    } else if s.flags & Y_SIGN != 0 {
        MouseState { y: spec_sign_extend(packet), ..s }
    } else {
        MouseState { y: packet as i16, ..s }
    }
}

/// The 3-byte packet assembler: the index of the next expected byte, the
/// packet being assembled, and the completed snapshot awaiting its reader.
#[derive(Clone, Copy, Debug, PartialEq, Eq, Structural)]
pub struct Mouse {
    pub current_packet: u8,
    pub current_state: MouseState,
    pub completed_state: MouseState,
}

/// The whole assembler state after one byte. A first byte without the
/// always-one marker is discarded without advancing, so a corrupt stream
/// resynchronizes on the next marked byte; the third byte snapshots the
/// assembled packet for the reader.
pub open spec fn spec_process_packet(m: Mouse, packet: u8) -> Mouse {
    if m.current_packet == 0 {
        if packet & ALWAYS_ONE == 0 {
            m
        } else {
            Mouse {
                current_packet: 1,
                current_state: MouseState { flags: packet, ..m.current_state },
                ..m
            }
        }
    } else if m.current_packet == 1 {
        Mouse { current_packet: 2, current_state: spec_apply_x(m.current_state, packet), ..m }
    } else {
        let finished = spec_apply_y(m.current_state, packet);
        Mouse { current_packet: 0, current_state: finished, completed_state: finished }
    }
}

impl Mouse {
    /// The packet index is always one of the three byte positions.
    pub open spec fn wf(self) -> bool {
        self.current_packet < 3
    }

    pub fn new() -> (m: Mouse)
        ensures
            m.wf(),
            m.current_packet == 0,
            m.current_state == (MouseState { flags: 0, x: 0, y: 0 }),
            m.completed_state == (MouseState { flags: 0, x: 0, y: 0 }),
    {
        Mouse {
            current_packet: 0,
            current_state: MouseState::default(),
            completed_state: MouseState::default(),
        }
    }

    /// Takes the completed snapshot's deltas and resets the snapshot, so a
    /// second read before the next full packet returns `(0, 0)`.
    pub fn get_coords(&mut self) -> (r: (i16, i16))
        ensures
            r.0 == old(self).completed_state.x,
            r.1 == old(self).completed_state.y,
            final(self).completed_state == (MouseState { flags: 0, x: 0, y: 0 }),
            final(self).current_packet == old(self).current_packet,
            final(self).current_state == old(self).current_state,
    {
        let res: (i16, i16) = (self.completed_state.get_x(), self.completed_state.get_y());
        self.completed_state = MouseState::default();
        res
    }

    /// Feeds one raw byte into the assembler.
    pub fn process_packet(&mut self, packet: u8)
        requires
            old(self).wf(),
        ensures
            final(self).wf(),
            *final(self) == spec_process_packet(*old(self), packet),
    {
        if self.current_packet == 0 {
            if packet & ALWAYS_ONE == 0 {
                return;
            }
            self.current_state.flags = packet;
        } else if self.current_packet == 1 {
            self.process_x_movement(packet);
        } else {
            self.process_y_movement(packet);
            self.completed_state = self.current_state;
        }
        self.current_packet = (self.current_packet + 1) % 3;
    }

    /// Applies the second packet byte to the x field.
    pub fn process_x_movement(&mut self, packet: u8)
        ensures
            final(self).current_state == spec_apply_x(old(self).current_state, packet),
            final(self).current_packet == old(self).current_packet,
            final(self).completed_state == old(self).completed_state,
    {
        if self.current_state.flags & X_OVERFLOW == 0 {
            self.current_state.x = if self.current_state.flags & X_SIGN != 0 {
                self.sign_extend(packet)
            } else {
                packet as i16
            };
        }
    }

    /// Applies the third packet byte to the y field.
    pub fn process_y_movement(&mut self, packet: u8)
        ensures
            final(self).current_state == spec_apply_y(old(self).current_state, packet),
            final(self).current_packet == old(self).current_packet,
            final(self).completed_state == old(self).completed_state,
    {
        if self.current_state.flags & Y_OVERFLOW == 0 {
            self.current_state.y = if self.current_state.flags & Y_SIGN != 0 {
                self.sign_extend(packet)
            } else {
                packet as i16
            };
        }
    }

    /// Fills the top byte of an 8-bit magnitude, reading it as negative.
    pub fn sign_extend(&self, packet: u8) -> (r: i16)
        ensures
            r == spec_sign_extend(packet),
    {
        (packet as i16) - 256
    }
}

} // verus!
