//! The bus: the one surface through which the processor reaches memory,
//! display, keypad and timers.

use vstd::prelude::*;
use crate::display::{blank_screen, draw_byte_collides, draw_byte_screen, Display, PIXEL_COUNT};
use crate::keyboard::{first_key_down, key_down, Keyboard, KEY_COUNT};
use crate::ram::{initial_memory, Ram, MEMORY_SIZE};

verus! {

/// What the bus holds, as mathematical values.
#[verifier::ext_equal]
pub struct BusState {
    /// The 4096 bytes of memory.
    pub mem: Seq<u8>,
    /// The 2048 pixels, row by row.
    pub screen: Seq<bool>,
    /// The 16 key states.
    pub keys: Seq<bool>,
    /// The delay timer.
    pub delay: u8,
    /// The sound timer.
    pub sound: u8,
    /// Whether a frame was presented that the driver has not taken yet.
    pub frame_ready: bool,
}

impl BusState {
    /// The sizes that every bus has.
    pub open spec fn wf(self) -> bool {
        &&& self.mem.len() == MEMORY_SIZE
        &&& self.screen.len() == PIXEL_COUNT
        &&& self.keys.len() == KEY_COUNT
    }
}

/// The bus at power-on: font in memory, blank screen, keys released, timers
/// at zero, no frame pending.
pub open spec fn initial_bus() -> BusState {
    BusState {
        mem: initial_memory(),
        screen: blank_screen(),
        keys: Seq::new(KEY_COUNT as nat, |k: int| false),
        delay: 0,
        sound: 0,
        frame_ready: false,
    }
}

/// A timer after one tick of the external clock: one less, never below zero.
pub open spec fn ticked(timer: u8) -> u8 {
    if timer > 0 {
        (timer - 1) as u8
    } else {
        0
    }
}

/// Memory, display, keypad and timers behind one interface.
pub struct Bus {
    pub ram: Ram,
    pub display: Display,
    pub keyboard: Keyboard,
    /// Counts down at the rate of the external clock; read and set by programs.
    pub delay_timer: u8,
    /// Counts down at the rate of the external clock; set by programs.
    pub sound_timer: u8,
    /// Raised when a frame is presented, lowered when the driver takes it.
    pub frame_ready: bool,
}

impl View for Bus {
    type V = BusState;

    open spec fn view(&self) -> BusState {
        BusState {
            mem: self.ram@,
            screen: self.display@,
            keys: self.keyboard@,
            delay: self.delay_timer,
            sound: self.sound_timer,
            frame_ready: self.frame_ready,
        }
    }
}

impl Bus {
    /// A bus at power-on.
    pub fn new() -> (bus: Bus)
        ensures
            bus@ == initial_bus(),
    {
        Bus {
            ram: Ram::new(),
            display: Display::new(),
            keyboard: Keyboard::new(),
            delay_timer: 0,
            sound_timer: 0,
            frame_ready: false,
        }
    }

    /// Every bus has 4096 bytes, 2048 pixels and 16 keys.
    pub proof fn lemma_wf(&self)
        ensures
            self@.wf(),
    {
    }

    /// The byte stored at `address`.
    pub fn ram_read_byte(&mut self, address: u16) -> (value: u8)
        requires
            address < MEMORY_SIZE,
        ensures
            value == old(self)@.mem[address as int],
            *final(self) == *old(self),
    {
        self.ram.read_byte(address)
    }

    /// Stores `value` at `address`.
    pub fn ram_write_byte(&mut self, address: u16, value: u8)
        requires
            address < MEMORY_SIZE,
        ensures
            final(self)@ == (BusState {
                mem: old(self)@.mem.update(address as int, value),
                ..old(self)@
            }),
    {
        self.ram.write_byte(address, value);
    }

    /// Unsets every pixel.
    pub fn clear_screen(&mut self)
        ensures
            final(self)@ == (BusState { screen: blank_screen(), ..old(self)@ }),
    {
        self.display.clear();
    }

    /// XORs one sprite row onto the screen at `(x, y)`, wrapping at the edges,
    /// and reports whether a set pixel was turned off.
    pub fn draw_byte(&mut self, byte: u8, x: u8, y: u8) -> (collision: bool)
        ensures
            final(self)@ == (BusState {
                screen: draw_byte_screen(old(self)@.screen, byte, x, y),
                ..old(self)@
            }),
            collision == draw_byte_collides(old(self)@.screen, byte, x, y),
    {
        self.display.draw_byte(byte, x, y)
    }

    /// Marks the screen as ready to be shown.
    pub fn present_screen(&mut self)
        ensures
            final(self)@ == (BusState { frame_ready: true, ..old(self)@ }),
    {
        self.frame_ready = true;
    }

    /// Hands the pending frame signal to the driver: reports whether a frame
    /// was presented since the last call, and resets the signal.
    pub fn take_frame(&mut self) -> (ready: bool)
        ensures
            ready == old(self)@.frame_ready,
            final(self)@ == (BusState { frame_ready: false, ..old(self)@ }),
    {
        let ready = self.frame_ready;
        self.frame_ready = false;
        ready
    }

    /// The whole pixel buffer, row by row.
    pub fn get_display_buffer(&self) -> (buffer: &[bool; 2048])
        ensures
            buffer@ == self@.screen,
    {
        self.display.get_display_buffer()
    }

    /// Records that `key` is now held or released; a `key` above `0xF` changes nothing.
    pub fn set_key(&mut self, key: u8, pressed: bool)
        ensures
            final(self)@ == (BusState {
                keys: if key < KEY_COUNT {
                    old(self)@.keys.update(key as int, pressed)
                } else {
                    old(self)@.keys
                },
                ..old(self)@
            }),
    {
        self.keyboard.set_key(key, pressed);
    }

    /// Whether `key` is held down.
    pub fn key_pressed(&self, key: u8) -> (pressed: bool)
        ensures
            pressed == key_down(self@.keys, key),
    {
        self.keyboard.is_key_pressed(key)
    }

    /// The lowest-numbered key that is held down, if any.
    pub fn get_key_pressed(&self) -> (key: Option<u8>)
        ensures
            key == first_key_down(self@.keys),
    {
        self.keyboard.get_key_pressed()
    }

    /// The delay timer.
    pub fn get_delay_timer(&self) -> (value: u8)
        ensures
            value == self@.delay,
    {
        self.delay_timer
    }

    /// Sets the delay timer.
    pub fn set_delay_timer(&mut self, value: u8)
        ensures
            final(self)@ == (BusState { delay: value, ..old(self)@ }),
    {
        self.delay_timer = value;
    }

    /// The sound timer.
    pub fn get_sound_timer(&self) -> (value: u8)
        ensures
            value == self@.sound,
    {
        self.sound_timer
    }

    /// Sets the sound timer.
    pub fn set_sound_timer(&mut self, value: u8)
        ensures
            final(self)@ == (BusState { sound: value, ..old(self)@ }),
    {
        self.sound_timer = value;
    }

    /// One tick of the external clock: both timers count down by one and stay at zero.
    pub fn tick_timers(&mut self)
        ensures
            final(self)@ == (BusState {
                delay: ticked(old(self)@.delay),
                sound: ticked(old(self)@.sound),
                ..old(self)@
            }),
    {
        if self.delay_timer > 0 {
            self.delay_timer -= 1;
        }
        if self.sound_timer > 0 {
            self.sound_timer -= 1;
        }
    }
}

} // verus!
