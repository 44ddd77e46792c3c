//! Bus traffic for a two-line character display behind an I2C expander.
//!
//! The expander passes one byte at a time to the display: the upper four bits
//! carry half a byte of payload, the lower four are control lines. [`Lcd`]
//! works out which bytes and pauses a display operation takes and queues
//! them; whoever owns the bus takes the queue and carries it out in order.

use vstd::prelude::*;

verus! {

/// Bus address of the display's expander.
pub const ADDRESS: u16 = 0x27;

/// Control line that selects the data register rather than the command
/// register.
pub const REGISTER_SELECT: u8 = 0x01;

/// Control line whose falling edge makes the display take the nibble.
pub const ENABLE: u8 = 0x04;

/// Control line that keeps the backlight on.
pub const BACKLIGHT: u8 = 0x08;

/// Milliseconds for which the enable line is held high.
pub const STROBE_MILLIS: u64 = 2;

/// Milliseconds granted to the display after each set-up command.
pub const SETUP_MILLIS: u64 = 5;

/// Command that clears the display.
pub const CLEAR: u8 = 0x01;

/// The last column that the cursor can be put in.
pub const LAST_COLUMN: u8 = 15;

/// The last row that the cursor can be put in.
pub const LAST_ROW: u8 = 1;

/// One thing the owner of the bus has to do.
#[derive(Clone, Copy, Debug, PartialEq, Eq, Structural)]
pub enum BusOp {
    /// Write this single byte to the display's address.
    Write(u8),
    /// Wait for this many milliseconds.
    Pause(u64),
}

/// A byte as it goes out on the bus: with the backlight line set.
pub open spec fn lit(data: u8) -> BusOp {
    BusOp::Write(data | BACKLIGHT)
}

/// The upper half of a byte, in the payload bits.
pub open spec fn high_nibble(byte: u8) -> u8 {
    byte & 0xf0
}

/// The lower half of a byte, moved up into the payload bits.
pub open spec fn low_nibble(byte: u8) -> u8 {
    (byte & 0x0f) << 4
}

/// One nibble clocked into the display: out with enable high, a pause, out
/// again with enable low.
pub open spec fn strobe(nibble: u8, register: u8) -> Seq<BusOp> {
    seq![
        lit(nibble | register | ENABLE),
        BusOp::Pause(STROBE_MILLIS),
        lit(nibble | register),
    ]
}

/// One byte sent to the register selected by `register`: upper nibble first.
pub open spec fn transfer(byte: u8, register: u8) -> Seq<BusOp> {
    strobe(high_nibble(byte), register) + strobe(low_nibble(byte), register)
}

/// The traffic of one command byte.
pub open spec fn command(byte: u8) -> Seq<BusOp> {
    transfer(byte, 0)
}

/// The traffic of one character byte.
pub open spec fn character(byte: u8) -> Seq<BusOp> {
    transfer(byte, REGISTER_SELECT)
}

/// The traffic of a run of characters.
pub open spec fn text(data: Seq<u8>) -> Seq<BusOp>
    decreases data.len(),
{
    if data.len() == 0 {
        Seq::empty()
    } else {
        text(data.drop_last()) + character(data.last())
    }
}

/// The traffic that brings the display up: into four-bit mode, two lines,
/// display on without cursor, cleared, backlight on.
pub open spec fn initialisation() -> Seq<BusOp> {
    command(0x33) + seq![BusOp::Pause(SETUP_MILLIS)] + command(0x32) + seq![
        BusOp::Pause(SETUP_MILLIS),
    ] + command(0x28) + seq![BusOp::Pause(SETUP_MILLIS)] + command(0x0c) + seq![
        BusOp::Pause(SETUP_MILLIS),
    ] + command(CLEAR) + seq![lit(BACKLIGHT)]
}

/// The command that puts the cursor at column `x` of row `y`. A position off
/// the display is pulled back to its last column or row.
pub open spec fn cursor(x: u8, y: u8) -> u8 {
    let column = if x < LAST_COLUMN {
        x
    } else {
        LAST_COLUMN
    };
    let row = if y < LAST_ROW {
        y
    } else {
        LAST_ROW
    };
    (0x80 + 0x40 * row + column) as u8
}

/// A character display, as the queue of bus traffic that has been decided on
/// and not yet handed over.
pub struct Lcd {
    pending: Vec<BusOp>,
}

impl View for Lcd {
    type V = Seq<BusOp>;

    closed spec fn view(&self) -> Seq<BusOp> {
        self.pending@
    }
}

impl Lcd {
    /// A display with nothing queued.
    pub fn new() -> (lcd: Lcd)
        ensures
            lcd@ == Seq::<BusOp>::empty(),
    {
        Lcd { pending: Vec::new() }
    }

    /// Queues the traffic that brings the display up.
    pub fn init(&mut self)
        ensures
            final(self)@ == old(self)@ + initialisation(),
    {
        self.send_command(0x33);
        self.pause(SETUP_MILLIS);
        self.send_command(0x32);
        self.pause(SETUP_MILLIS);
        self.send_command(0x28);
        self.pause(SETUP_MILLIS);
        self.send_command(0x0c);
        self.pause(SETUP_MILLIS);
        self.send_command(CLEAR);
        self.write_byte(BACKLIGHT);
    }

    /// Queues one raw byte, with the backlight line set.
    pub fn write_byte(&mut self, data: u8)
        ensures
            final(self)@ == old(self)@.push(lit(data)),
    {
        self.pending.push(BusOp::Write(data | BACKLIGHT));
    }

    /// Queues one command byte.
    pub fn send_command(&mut self, comm: u8)
        ensures
            final(self)@ == old(self)@ + command(comm),
    {
        self.send(comm, 0);
    }

    /// Queues one character byte.
    pub fn send_data(&mut self, data: u8)
        ensures
            final(self)@ == old(self)@ + character(data),
    {
        self.send(data, REGISTER_SELECT);
    }

    /// Queues the command that clears the display.
    pub fn clear(&mut self)
        ensures
            final(self)@ == old(self)@ + command(CLEAR),
    {
        self.send_command(CLEAR);
    }

    /// Queues the traffic that puts the cursor at column `x` of row `y` and
    /// writes `data` from there on.
    pub fn write(&mut self, x: u8, y: u8, data: &[u8])
        ensures
            final(self)@ == old(self)@ + command(cursor(x, y)) + text(data@),
    {
        let column: u8 = if x < LAST_COLUMN {
            x
        } else {
            LAST_COLUMN
        };
        let row: u8 = if y < LAST_ROW {
            y
        } else {
            LAST_ROW
        };
        let addr: u8 = 0x80 + 0x40 * row + column;
        self.send_command(addr);
        let ghost placed = self@;
        let mut i: usize = 0;
        while i < data.len()
            invariant
                i <= data.len(),
                placed == old(self)@ + command(cursor(x, y)),
                self@ == placed + text(data@.take(i as int)),
            decreases data.len() - i,
        {
            self.send_data(data[i]);
            proof {
                assert(data@.take(i + 1).drop_last() =~= data@.take(i as int));
                assert(self@ =~= placed + text(data@.take(i + 1)));
            }
            i += 1;
        }
        assert(data@.take(data.len() as int) =~= data@);
    }

    /// Hands over everything queued so far, oldest first, and leaves the queue
    /// empty.
    pub fn take(&mut self) -> (ops: Vec<BusOp>)
        ensures
            ops@ == old(self)@,
            final(self)@ == Seq::<BusOp>::empty(),
    {
        let mut ops: Vec<BusOp> = Vec::new();
        std::mem::swap(&mut self.pending, &mut ops);
        ops
    }

    /// Queues one byte for the register selected by `register`, upper nibble
    /// first.
    fn send(&mut self, byte: u8, register: u8)
        requires
            register == 0 || register == REGISTER_SELECT,
        ensures
            final(self)@ == old(self)@ + transfer(byte, register),
    {
        let high: u8 = byte & 0xf0;
        let low: u8 = (byte & 0x0f) << 4;
        assert((high | register) & 0x04 == 0 && (low | register) & 0x04 == 0) by (bit_vector)
            requires
                high == byte & 0xf0,
                low == (byte & 0x0f) << 4,
                register == 0 || register == 1,
        ;
        self.strobe(high, register);
        self.strobe(low, register);
    }

    /// Queues one nibble: out with enable high, a pause, out again with
    /// enable low.
    fn strobe(&mut self, nibble: u8, register: u8)
        requires
            (nibble | register) & ENABLE == 0,
        ensures
            final(self)@ == old(self)@ + strobe(nibble, register),
    {
        let mut buf: u8 = nibble | register | ENABLE;
        self.write_byte(buf);
        self.pause(STROBE_MILLIS);
        buf &= !ENABLE;
        self.write_byte(buf);
        assert(buf == nibble | register) by (bit_vector)
            requires
                buf == (nibble | register | 0x04) & !0x04u8,
                (nibble | register) & 0x04 == 0,
        ;
    }

    /// Queues a pause.
    fn pause(&mut self, millis: u64)
        ensures
            final(self)@ == old(self)@.push(BusOp::Pause(millis)),
    {
        self.pending.push(BusOp::Pause(millis));
    }
}

impl Default for Lcd {
    fn default() -> (lcd: Lcd)
        ensures
            lcd@ == Seq::<BusOp>::empty(),
    {
        Lcd::new()
    }
}

} // verus!
