//! ST7789V LCD panel stub.
//!
//! The panel sits behind a 9-bit SPI link: bit 8 of a frame selects
//! command (0) or data (1), bits 7..0 carry the byte.  During boot the
//! ROM only sends initialization commands (sleep out, display on, pixel
//! format, address windows) and never reads pixel data back, so the stub
//! records the key registers and absorbs everything else.
//!
//! The whole behaviour is captured by [`PanelView`] together with the
//! transition functions [`spec_write_cmd`], [`spec_write_param`] and
//! [`spec_transfer`]; every method's contract says exactly which view the
//! panel reaches.

use vstd::prelude::*;

verus! {

/// No-operation command.
pub const CMD_NOP: u8 = 0x00;
/// Software reset: returns the panel to its power-on state.
pub const CMD_SWRESET: u8 = 0x01;
/// Enter sleep mode.
pub const CMD_SLPIN: u8 = 0x10;
/// Leave sleep mode.
pub const CMD_SLPOUT: u8 = 0x11;
/// Disable display inversion.
pub const CMD_INVOFF: u8 = 0x20;
/// Enable display inversion.
pub const CMD_INVON: u8 = 0x21;
/// Turn the display off.
pub const CMD_DISPOFF: u8 = 0x28;
/// Turn the display on.
pub const CMD_DISPON: u8 = 0x29;
/// Set the column address window (4 parameter bytes).
pub const CMD_CASET: u8 = 0x2A;
/// Set the row address window (4 parameter bytes).
pub const CMD_RASET: u8 = 0x2B;
/// Memory write: pixel data until the next command.
pub const CMD_RAMWR: u8 = 0x2C;
/// Memory write continue: pixel data until the next command.
pub const CMD_RAMWRC: u8 = 0x3C;
/// Memory access control (1 parameter byte).
pub const CMD_MADCTL: u8 = 0x36;
/// Pixel format (1 parameter byte).
pub const CMD_COLMOD: u8 = 0x3A;

/// Marks a command whose parameters are absorbed until the next command
/// arrives (memory writes and unknown opcodes).
pub const PARAMS_OPEN_ENDED: u8 = 0xFF;

/// Ghost view of the panel: its command decoder position and the
/// registers the stub keeps.
#[verifier::ext_equal]
pub struct PanelView {
    /// Command currently being processed.
    pub current_cmd: u8,
    /// Index of the next parameter byte of the current command.
    pub param_idx: u8,
    /// Parameters still expected: 0 means the command is complete,
    /// [`PARAMS_OPEN_ENDED`] means absorb data until the next command.
    pub param_count: u8,
    /// Whether the display is sleeping.
    pub sleeping: bool,
    /// Whether the display is on.
    pub display_on: bool,
    /// Whether inversion is enabled.
    pub inverted: bool,
    /// Memory access control register.
    pub madctl: u8,
    /// Pixel format register.
    pub colmod: u8,
    /// Column window `[start_hi, start_lo, end_hi, end_lo]`.
    pub caset: Seq<u8>,
    /// Row window `[start_hi, start_lo, end_hi, end_lo]`.
    pub raset: Seq<u8>,
}

impl PanelView {
    /// The power-on state: sleeping, display off, all registers zero.
    pub open spec fn initial() -> PanelView {
        PanelView {
            current_cmd: 0,
            param_idx: 0,
            param_count: 0,
            sleeping: true,
            display_on: false,
            inverted: false,
            madctl: 0,
            colmod: 0,
            caset: seq![0u8, 0u8, 0u8, 0u8],
            raset: seq![0u8, 0u8, 0u8, 0u8],
        }
    }
}

/// How many parameter bytes a command takes.  The zero-parameter
/// commands complete at once; the memory writes and every unknown
/// command absorb data until the next command arrives.
pub open spec fn param_count_of(cmd: u8) -> u8 {
    if cmd == CMD_CASET || cmd == CMD_RASET {
        4
    } else if cmd == CMD_MADCTL || cmd == CMD_COLMOD {
        1
    } else if cmd == CMD_NOP || cmd == CMD_SWRESET || cmd == CMD_SLPIN || cmd == CMD_SLPOUT
        || cmd == CMD_INVOFF || cmd == CMD_INVON || cmd == CMD_DISPOFF || cmd == CMD_DISPON {
        0
    } else {
        PARAMS_OPEN_ENDED
    }
}

/// Effect of a command byte: latch the command and its parameter count,
/// apply the zero-parameter side effects, and on `SWRESET` return to the
/// power-on state.
pub open spec fn spec_write_cmd(v: PanelView, cmd: u8) -> PanelView {
    if cmd == CMD_SWRESET {
        PanelView::initial()
    } else {
        PanelView {
            current_cmd: cmd,
            param_idx: 0,
            param_count: param_count_of(cmd),
            sleeping: if cmd == CMD_SLPIN {
                true
            } else if cmd == CMD_SLPOUT {
                false
            } else {
                v.sleeping
            },
            display_on: if cmd == CMD_DISPON {
                true
            } else if cmd == CMD_DISPOFF {
                false
            } else {
                v.display_on
            },
            inverted: if cmd == CMD_INVON {
                true
            } else if cmd == CMD_INVOFF {
                false
            } else {
                v.inverted
            },
            ..v
        }
    }
}

/// Effect of a data byte: store it if the current command still expects
/// parameters, advance the parameter index, and close the command once
/// all its parameters have arrived.  Data for a complete command, and
/// data beyond a window's four bytes, are swallowed.
pub open spec fn spec_write_param(v: PanelView, param: u8) -> PanelView {
    if v.param_count == 0 {
        v
    } else {
        let stored = if v.current_cmd == CMD_CASET {
            if v.param_idx < 4 {
                PanelView { caset: v.caset.update(v.param_idx as int, param), ..v }
            } else {
                v
            }
        } else if v.current_cmd == CMD_RASET {
            if v.param_idx < 4 {
                PanelView { raset: v.raset.update(v.param_idx as int, param), ..v }
            } else {
                v
            }
        } else if v.current_cmd == CMD_MADCTL {
            PanelView { madctl: param, ..v }
        } else if v.current_cmd == CMD_COLMOD {
            PanelView { colmod: param, ..v }
        } else {
            v
        };
        let idx: u8 = if v.param_idx == 0xFF { 0 } else { (v.param_idx + 1) as u8 };
        let advanced = PanelView { param_idx: idx, ..stored };
        if idx >= v.param_count && v.param_count != PARAMS_OPEN_ENDED {
            PanelView { param_count: 0, ..advanced }
        } else {
            advanced
        }
    }
}

/// Effect of one 9-bit SPI frame: bit 8 routes the byte to the data or
/// the command path.
pub open spec fn spec_transfer(v: PanelView, tx_data: u32) -> PanelView {
    if tx_data & 0x100 != 0 {
        spec_write_param(v, (tx_data & 0xFF) as u8)
    } else {
        spec_write_cmd(v, (tx_data & 0xFF) as u8)
    }
}

/// Panel stub state.
#[derive(Debug, Clone)]
pub struct PanelStub {
    current_cmd: u8,
    param_idx: u8,
    param_count: u8,
    sleeping: bool,
    display_on: bool,
    inverted: bool,
    madctl: u8,
    colmod: u8,
    caset: [u8; 4],
    raset: [u8; 4],
}

impl View for PanelStub {
    type V = PanelView;

    closed spec fn view(&self) -> PanelView {
        PanelView {
            current_cmd: self.current_cmd,
            param_idx: self.param_idx,
            param_count: self.param_count,
            sleeping: self.sleeping,
            display_on: self.display_on,
            inverted: self.inverted,
            madctl: self.madctl,
            colmod: self.colmod,
            caset: self.caset@,
            raset: self.raset@,
        }
    }
}

impl PanelStub {
    /// A panel in its power-on state.
    pub fn new() -> (r: Self)
        ensures
            r@ == PanelView::initial(),
    {
        PanelStub {
            current_cmd: 0,
            param_idx: 0,
            param_count: 0,
            sleeping: true,
            display_on: false,
            inverted: false,
            madctl: 0,
            colmod: 0,
            caset: [0; 4],
            raset: [0; 4],
        }
    }

    /// Return the panel to its power-on state.
    pub fn reset(&mut self)
        ensures
            final(self)@ == PanelView::initial(),
    {
        *self = Self::new();
    }

    /// Process one 9-bit SPI frame from the controller.
    /// Bit 8: 0 = command, 1 = data/parameter.
    /// Returns the number of bits in the response frame (always 9).
    pub fn transfer(&mut self, tx_data: u32) -> (r: u8)
        ensures
            r == 9,
            final(self)@ == spec_transfer(old(self)@, tx_data),
    {
        let is_data = tx_data & 0x100 != 0;
        let byte = (tx_data & 0xFF) as u8;
        if is_data {
            self.write_param(byte);
        } else {
            self.write_cmd(byte);
        }
        9
    }

    /// Process a command byte.
    fn write_cmd(&mut self, cmd: u8)
        ensures
            final(self)@ == spec_write_cmd(old(self)@, cmd),
    {
        self.current_cmd = cmd;
        self.param_idx = 0;
        self.param_count = if cmd == CMD_CASET || cmd == CMD_RASET {
            4
        } else if cmd == CMD_MADCTL || cmd == CMD_COLMOD {
            1
        } else if cmd == CMD_NOP || cmd == CMD_SWRESET || cmd == CMD_SLPIN || cmd == CMD_SLPOUT
            || cmd == CMD_INVOFF || cmd == CMD_INVON || cmd == CMD_DISPOFF || cmd == CMD_DISPON {
            0
        } else {
            PARAMS_OPEN_ENDED
        };
        if cmd == CMD_SLPIN {
            self.sleeping = true;
        } else if cmd == CMD_SLPOUT {
            self.sleeping = false;
        } else if cmd == CMD_INVOFF {
            self.inverted = false;
        } else if cmd == CMD_INVON {
            self.inverted = true;
        } else if cmd == CMD_DISPOFF {
            self.display_on = false;
        } else if cmd == CMD_DISPON {
            self.display_on = true;
        }
        if cmd == CMD_SWRESET {
            self.reset();
        }
    }

    /// Process a parameter byte for the current command.
    fn write_param(&mut self, param: u8)
        ensures
            final(self)@ == spec_write_param(old(self)@, param),
    {
        if self.param_count == 0 {
            // No parameters expected or already consumed.
            return;
        }
        if self.current_cmd == CMD_CASET {
            if self.param_idx < 4 {
                self.caset[self.param_idx as usize] = param;
            }
        } else if self.current_cmd == CMD_RASET {
            if self.param_idx < 4 {
                self.raset[self.param_idx as usize] = param;
            }
        } else if self.current_cmd == CMD_MADCTL {
            self.madctl = param;
        } else if self.current_cmd == CMD_COLMOD {
            self.colmod = param;
        }
        // Open-ended commands keep absorbing; their index wraps rather
        // than leaving the decoder.
        self.param_idx = if self.param_idx == 0xFF {
            0
        } else {
            self.param_idx + 1
        };
        if self.param_idx >= self.param_count && self.param_count != PARAMS_OPEN_ENDED {
            // Done with parameters.
            self.param_count = 0;
        }
    }

    /// Whether the display is sleeping.
    pub fn sleeping(&self) -> (r: bool)
        ensures
            r == self@.sleeping,
    {
        self.sleeping
    }

    /// Whether the display is on.
    pub fn display_on(&self) -> (r: bool)
        ensures
            r == self@.display_on,
    {
        self.display_on
    }

    /// Whether inversion is enabled.
    pub fn inverted(&self) -> (r: bool)
        ensures
            r == self@.inverted,
    {
        self.inverted
    }

    /// The memory access control register.
    pub fn madctl(&self) -> (r: u8)
        ensures
            r == self@.madctl,
    {
        self.madctl
    }

    /// The pixel format register.
    pub fn colmod(&self) -> (r: u8)
        ensures
            r == self@.colmod,
    {
        self.colmod
    }

    /// The column address window.
    pub fn caset(&self) -> (r: [u8; 4])
        ensures
            r@ == self@.caset,
    {
        self.caset
    }

    /// The row address window.
    pub fn raset(&self) -> (r: [u8; 4])
        ensures
            r@ == self@.raset,
    {
        self.raset
    }
}

impl Default for PanelStub {
    /// Same as [`PanelStub::new`].
    fn default() -> (r: Self)
        ensures
            r@ == PanelView::initial(),
    {
        PanelStub::new()
    }
}

/// Two consecutive software resets leave the panel exactly where one
/// does: `SWRESET` is idempotent on the panel state.
pub proof fn lemma_swreset_idempotent(v: PanelView)
    ensures
        spec_transfer(spec_transfer(v, CMD_SWRESET as u32), CMD_SWRESET as u32)
            == spec_transfer(v, CMD_SWRESET as u32),
{
    assert((CMD_SWRESET as u32) & 0x100 == 0) by (bit_vector);
    assert(((CMD_SWRESET as u32) & 0xFF) as u8 == CMD_SWRESET) by (bit_vector);
}

} // verus!
