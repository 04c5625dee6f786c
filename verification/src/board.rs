//! The hardware that the firmware sees around it: pins, flash memory and the
//! console's transmit queue.

use crate::event::BTN1;
use vstd::prelude::*;

verus! {

/// The number of pins of the Bangle.js 2.
pub const PIN_COUNT: usize = 48;

/// The size of the flash memory of the Bangle.js 2, in bytes: 8 MiB.
pub const FLASH_SIZE: usize = 8388608;

/// What erased flash memory reads as.
pub const ERASED: u8 = 255;

/// The state of the board.
pub struct State {
    pins: Vec<bool>,
    flash: Vec<u8>,
    char_q: Vec<u8>,
}

impl State {
    /// The levels of the pins, `PIN_COUNT` of them.
    pub closed spec fn pins(&self) -> Seq<bool> {
        self.pins@
    }

    /// The contents of the flash memory, `FLASH_SIZE` bytes.
    pub closed spec fn flash(&self) -> Seq<u8> {
        self.flash@
    }

    /// The bytes that the firmware has sent to its console and that nobody
    /// has collected yet.
    pub closed spec fn pending_output(&self) -> Seq<u8> {
        self.char_q@
    }

    /// Whether the board has all its pins and all its flash memory. Every
    /// state that this module hands out has, and every operation keeps it so.
    pub open spec fn wf(&self) -> bool {
        self.pins().len() == PIN_COUNT && self.flash().len() == FLASH_SIZE
    }

    /// A Bangle.js 2 as it leaves the factory: the button up, which its pin
    /// shows as high, every other pin low, the flash erased, nothing on the
    /// console.
    pub fn init_banglejs2() -> (state: Self)
        ensures
            state.wf(),
            state.pins() == Seq::new(PIN_COUNT as nat, |i: int| i == BTN1),
            state.flash() == Seq::new(FLASH_SIZE as nat, |i: int| ERASED),
            state.pending_output() == Seq::<u8>::empty(),
    {
        let mut pins: Vec<bool> = vec![false; PIN_COUNT];
        pins.set(BTN1 as usize, true);
        let flash: Vec<u8> = vec![ERASED; FLASH_SIZE];
        State { pins, flash, char_q: Vec::new() }
    }

    /// Whether `ind` is the number of a pin.
    pub open spec fn is_pin(ind: i32) -> bool {
        0 <= ind < PIN_COUNT
    }

    /// Whether the `len` bytes from `addr` on lie within the flash memory.
    pub open spec fn in_flash(addr: i32, len: int) -> bool {
        0 <= addr && 0 <= len && addr + len <= FLASH_SIZE
    }

    /// Whether `ind` is the number of a pin.
    pub fn has_pin(ind: i32) -> (ok: bool)
        ensures
            ok == Self::is_pin(ind),
    {
        0 <= ind && ind < PIN_COUNT as i32
    }

    /// Whether the `len` bytes from `addr` on lie within the flash memory.
    pub fn holds(addr: i32, len: usize) -> (ok: bool)
        ensures
            ok == Self::in_flash(addr, len as int),
    {
        0 <= addr && len <= FLASH_SIZE && addr as usize <= FLASH_SIZE - len
    }

    /// The byte of flash memory at `ind`.
    pub fn flash_read(&self, ind: i32) -> (byte: i32)
        requires
            self.wf(),
            Self::in_flash(ind, 1),
        ensures
            byte == self.flash()[ind as int],
    {
        self.flash[ind as usize] as i32
    }

    /// Writes `data` to flash memory from `addr` on.
    pub fn flash_write(&mut self, addr: i32, data: &[u8])
        requires
            old(self).wf(),
            Self::in_flash(addr, data@.len() as int),
        ensures
            final(self).wf(),
            final(self).flash() == old(self).flash().subrange(0, addr as int) + data@ + old(
                self,
            ).flash().subrange(addr + data@.len(), FLASH_SIZE as int),
            final(self).pins() == old(self).pins(),
            final(self).pending_output() == old(self).pending_output(),
    {
        let base: usize = addr as usize;
        let mut i: usize = 0;
        while i < data.len()
            invariant
                i <= data@.len(),
                base == addr,
                Self::in_flash(addr, data@.len() as int),
                self.flash@.len() == FLASH_SIZE,
                old(self).flash@.len() == FLASH_SIZE,
                self.pins@ == old(self).pins@,
                self.char_q@ == old(self).char_q@,
                self.flash@ == old(self).flash@.subrange(0, addr as int) + data@.subrange(
                    0,
                    i as int,
                ) + old(self).flash@.subrange(addr + i, FLASH_SIZE as int),
            decreases data@.len() - i,
        {
            self.flash.set(base + i, data[i]);
            i += 1;
        }
    }

    /// The level of pin `ind`: 1 for high, 0 for low.
    pub fn pin_value(&self, ind: i32) -> (level: i32)
        requires
            self.wf(),
            Self::is_pin(ind),
        ensures
            level == if self.pins()[ind as int] { 1int } else { 0int },
    {
        if self.pins[ind as usize] {
            1
        } else {
            0
        }
    }

    /// Drives pin `ind` high where `val` is not zero, low where it is.
    pub fn set_pin_value(&mut self, ind: i32, val: i32)
        requires
            old(self).wf(),
            Self::is_pin(ind),
        ensures
            final(self).wf(),
            final(self).pins() == old(self).pins().update(ind as int, val != 0),
            final(self).flash() == old(self).flash(),
            final(self).pending_output() == old(self).pending_output(),
    {
        self.pins.set(ind as usize, val != 0);
    }

    /// Puts the button down or up. Its pin reads inverted: low while the
    /// button is down.
    pub fn press_button(&mut self, on: bool)
        requires
            old(self).wf(),
        ensures
            final(self).wf(),
            final(self).pins() == old(self).pins().update(BTN1 as int, !on),
            final(self).flash() == old(self).flash(),
            final(self).pending_output() == old(self).pending_output(),
    {
        self.pins.set(BTN1 as usize, !on);
    }

    /// Sets the start of the flash memory to `data`, as far as it fits; the
    /// rest of the flash memory, or of `data`, is left alone.
    pub fn load_flash(&mut self, data: &[u8])
        requires
            old(self).wf(),
        ensures
            final(self).wf(),
            final(self).flash() == Seq::new(
                FLASH_SIZE as nat,
                |i: int| if i < data@.len() { data@[i] } else { old(self).flash()[i] },
            ),
            final(self).pins() == old(self).pins(),
            final(self).pending_output() == old(self).pending_output(),
    {
        let n: usize = if data.len() < FLASH_SIZE { data.len() } else { FLASH_SIZE };
        let mut i: usize = 0;
        while i < n
            invariant
                i <= n,
                n <= data@.len(),
                n <= FLASH_SIZE,
                self.flash@.len() == FLASH_SIZE,
                old(self).flash@.len() == FLASH_SIZE,
                self.pins@ == old(self).pins@,
                self.char_q@ == old(self).char_q@,
                self.flash@ == Seq::new(
                    FLASH_SIZE as nat,
                    |k: int| if k < i { data@[k] } else { old(self).flash@[k] },
                ),
            decreases n - i,
        {
            self.flash.set(i, data[i]);
            i += 1;
        }
    }

    /// Takes a character that the firmware hands over for transmission.
    /// Where it is a byte it is queued and the answer is `true`: the firmware
    /// may be asked for more. Anything else is dropped and ends the
    /// collection.
    pub fn queue_tx_char(&mut self, ch: i32) -> (more: bool)
        ensures
            more == (0 <= ch <= 255),
            final(self).pending_output() == if more {
                old(self).pending_output().push(ch as u8)
            } else {
                old(self).pending_output()
            },
            final(self).pins() == old(self).pins(),
            final(self).flash() == old(self).flash(),
    {
        if 0 <= ch && ch <= 255 {
            self.char_q.push(ch as u8);
            true
        } else {
            false
        }
    }

    /// Hands over the console output collected so far and empties the queue.
    pub fn take_output(&mut self) -> (bytes: Vec<u8>)
        ensures
            bytes@ == old(self).pending_output(),
            final(self).pending_output() == Seq::<u8>::empty(),
            final(self).pins() == old(self).pins(),
            final(self).flash() == old(self).flash(),
    {
        let mut bytes: Vec<u8> = Vec::new();
        std::mem::swap(&mut self.char_q, &mut bytes);
        bytes
    }
}

/// Whether the firmware has something to transmit, by what it names as the
/// device to transmit to: zero stands for none.
pub fn wants_to_transmit(device: i32) -> (wants: bool)
    ensures
        wants == (device != 0),
{
    device != 0
}

} // verus!
