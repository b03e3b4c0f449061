//! SHA-256 accelerator stub.
//!
//! A memory-mapped register file, byte-addressed within its window:
//!
//! - `0x00` — control register; a write with bit 4 set zeroes the hash
//!   state, a write whose bits 3..1 form `0b101` (values `0x0A`/`0x0B`)
//!   reloads the standard SHA-256 initialization vector, anything else
//!   is a no-op;
//! - `0x0C..=0x0F` — quick read of `state[7]`;
//! - `0x10..=0x4F` — the 64-byte input block, 16 little-endian words;
//! - `0x60..=0x7F` — read-only view of the 8 hash state words.
//!
//! No hashing is performed: the boot ROM probes the peripheral but never
//! depends on a digest.  The behaviour is captured by [`ShaView`] with
//! [`spec_read`] and [`spec_write`].

use vstd::prelude::*;

verus! {

/// Ghost view of the accelerator's registers.
#[verifier::ext_equal]
pub struct ShaView {
    /// The 16 input-block words.
    pub block: Seq<u32>,
    /// The 8 hash-state words.
    pub state: Seq<u32>,
    /// Last accessed index (reserved for protected-port behaviour).
    pub last: u16,
}

/// The standard SHA-256 initialization vector.
pub open spec fn initial_hash_state() -> Seq<u32> {
    seq![
        0x6a09e667u32,
        0xbb67ae85u32,
        0x3c6ef372u32,
        0xa54ff53au32,
        0x510e527fu32,
        0x9b05688cu32,
        0x1f83d9abu32,
        0x5be0cd19u32,
    ]
}

/// All eight state words zero, as left by a control write with bit 4 set.
pub open spec fn zeroed_hash_state() -> Seq<u32> {
    Seq::new(8, |i: int| 0u32)
}

impl ShaView {
    /// The reset state: empty block, state at the SHA-256 IV.
    pub open spec fn initial() -> ShaView {
        ShaView {
            block: Seq::new(16, |i: int| 0u32),
            state: initial_hash_state(),
            last: 0,
        }
    }
}

/// Register word index of a byte address.
pub open spec fn word_at(addr: u32) -> int {
    addr as int / 4
}

/// Bit position of a byte address within its little-endian word.
pub open spec fn shift_at(addr: u32) -> u32 {
    ((addr as int % 4) * 8) as u32
}

/// What a byte read returns: the addressed byte of the quick-read word,
/// of an input-block word, or of a state word; 0 everywhere else.
pub open spec fn spec_read(v: ShaView, addr: u32) -> u8 {
    let w = word_at(addr);
    let sh = shift_at(addr);
    if w == 3 {
        ((v.state[7] >> sh) & 0xFF) as u8
    } else if 4 <= w < 0x14 {
        ((v.block[w - 4] >> sh) & 0xFF) as u8
    } else if 0x18 <= w < 0x20 {
        ((v.state[w - 0x18] >> sh) & 0xFF) as u8
    } else {
        0
    }
}

/// What a byte write does: control writes clear or reload the state,
/// block writes replace the addressed byte of their word, and every
/// other address — the state readout window included — changes nothing.
pub open spec fn spec_write(v: ShaView, addr: u32, value: u8) -> ShaView {
    if addr == 0 {
        if value & 0x10 != 0 {
            ShaView { state: zeroed_hash_state(), ..v }
        } else if value & 0x0E == 0x0A {
            ShaView { state: initial_hash_state(), ..v }
        } else {
            v
        }
    } else {
        let w = word_at(addr);
        let sh = shift_at(addr);
        if 4 <= w < 0x14 {
            let updated = (v.block[w - 4] & !(0xFFu32 << sh)) | ((value as u32) << sh);
            ShaView { block: v.block.update(w - 4, updated), ..v }
        } else {
            v
        }
    }
}

/// SHA-256 accelerator controller (stub).
#[derive(Debug, Clone)]
pub struct Sha256Controller {
    block: [u32; 16],
    state: [u32; 8],
    last: u16,
}

impl View for Sha256Controller {
    type V = ShaView;

    closed spec fn view(&self) -> ShaView {
        ShaView { block: self.block@, state: self.state@, last: self.last }
    }
}

impl Sha256Controller {
    /// The eight IV words as an array.
    fn iv_words() -> (r: [u32; 8])
        ensures
            r@ == initial_hash_state(),
    {
        let mut s: [u32; 8] = [0; 8];
        s[0] = 0x6a09e667;
        s[1] = 0xbb67ae85;
        s[2] = 0x3c6ef372;
        s[3] = 0xa54ff53a;
        s[4] = 0x510e527f;
        s[5] = 0x9b05688c;
        s[6] = 0x1f83d9ab;
        s[7] = 0x5be0cd19;
        s
    }

    /// A controller in its reset state.
    pub fn new() -> (r: Self)
        ensures
            r@ == ShaView::initial(),
    {
        Sha256Controller { block: [0; 16], state: Self::iv_words(), last: 0 }
    }

    /// Return the controller to its reset state.
    pub fn reset(&mut self)
        ensures
            final(self)@ == ShaView::initial(),
    {
        self.block = [0; 16];
        self.state = Self::iv_words();
        self.last = 0;
    }

    /// Read a byte from the register window.
    /// `addr` is the offset within the window (0x00..=0xFF typically).
    pub fn read(&self, addr: u32) -> (r: u8)
        ensures
            r == spec_read(self@, addr),
    {
        proof {
            assert(addr >> 2 == addr / 4) by (bit_vector);
            assert(addr & 3 == addr % 4) by (bit_vector);
        }
        let index = (addr >> 2) as usize;
        let bit_offset: u32 = (addr & 3) * 8;
        if index == 3 {
            // Quick access to state[7].
            ((self.state[7] >> bit_offset) & 0xFF) as u8
        } else if index >= 4 && index < 0x14 {
            // Input block words.
            ((self.block[index - 4] >> bit_offset) & 0xFF) as u8
        } else if index >= 0x18 && index < 0x20 {
            // State readout words.
            ((self.state[index - 0x18] >> bit_offset) & 0xFF) as u8
        } else {
            0
        }
    }

    /// Write a byte to the register window.
    /// `addr` is the offset within the window.  Only the control register
    /// and the input block accept writes; the state words are read-only.
    pub fn write(&mut self, addr: u32, value: u8)
        ensures
            final(self)@ == spec_write(old(self)@, addr, value),
    {
        proof {
            assert(addr >> 2 == addr / 4) by (bit_vector);
            assert(addr & 3 == addr % 4) by (bit_vector);
        }
        let index = (addr >> 2) as usize;
        let bit_offset: u32 = (addr & 3) * 8;
        if addr == 0 {
            if value & 0x10 != 0 {
                self.state = [0; 8];
            } else if value & 0x0E == 0x0A {
                self.state = Self::iv_words();
            }
        } else if index >= 4 && index < 0x14 {
            let block_idx = index - 4;
            let mask: u32 = !(0xFFu32 << bit_offset);
            self.block[block_idx] = (self.block[block_idx] & mask)
                | ((value as u32) << bit_offset);
        }
    }

    /// The 16 input-block words.
    pub fn block(&self) -> (r: [u32; 16])
        ensures
            r@ == self@.block,
    {
        self.block
    }

    /// The 8 hash-state words.
    pub fn state(&self) -> (r: [u32; 8])
        ensures
            r@ == self@.state,
    {
        self.state
    }
}

impl Default for Sha256Controller {
    /// Same as [`Sha256Controller::new`].
    fn default() -> (r: Self)
        ensures
            r@ == ShaView::initial(),
    {
        Sha256Controller::new()
    }
}

/// The hash state is read-only through the bus: a write anywhere in the
/// state readout window `0x60..=0x7F` leaves the whole register file
/// unchanged.
pub proof fn lemma_state_window_read_only(v: ShaView, addr: u32, value: u8)
    requires
        0x60 <= addr < 0x80,
    ensures
        spec_write(v, addr, value) == v,
{
}

} // verus!
