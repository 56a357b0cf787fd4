//! Canonical register map: symbolic register name to byte offset.
//!
//! Each constant is the fixed byte offset of one controller register from
//! the controller's base address. The offsets are dictated by the hardware
//! and must match it bit-exactly: any deviation misaddresses the device.
//! [`lemma_register_offsets`] restates every offset against its documented
//! literal value, so the whole table is checked exhaustively.

use vstd::prelude::*;

verus! {

/// Control register.
pub const REG_CTRL: usize = 0x00;

/// Power enable register.
pub const REG_PWREN: usize = 0x04;

/// Clock divider register.
pub const REG_CLKDIV: usize = 0x08;

/// Clock enable register.
pub const REG_CLKENA: usize = 0x10;

/// Timeout register.
pub const REG_TMOUT: usize = 0x14;

/// Card type register.
pub const REG_CTYPE: usize = 0x18;

/// Block size register.
pub const REG_BLKSIZ: usize = 0x1C;

/// Byte count register.
pub const REG_BYTCNT: usize = 0x20;

/// Interrupt mask register.
pub const REG_INTMASK: usize = 0x24;

/// Command argument register.
pub const REG_CMDARG: usize = 0x28;

/// Command register.
pub const REG_CMD: usize = 0x2C;

/// Response register 0.
pub const REG_RESP0: usize = 0x30;

/// Response register 1.
pub const REG_RESP1: usize = 0x34;

/// Response register 2.
pub const REG_RESP2: usize = 0x38;

/// Response register 3.
pub const REG_RESP3: usize = 0x3C;

/// Raw interrupt status register.
pub const REG_RINTSTS: usize = 0x44;

/// Status register.
pub const REG_STATUS: usize = 0x48;

/// FIFO threshold watermark register.
pub const REG_FIFOTH: usize = 0x4C;

/// Card detect register.
pub const REG_CDETECT: usize = 0x50;

/// Write protect register.
pub const REG_WRTPRT: usize = 0x54;

/// General purpose I/O register.
pub const REG_GPIO: usize = 0x58;

/// Transferred CIU card byte count register.
pub const REG_TCMCNT: usize = 0x5C;

/// Transferred host-to-BIU/FIFO byte count register.
pub const REG_TBBCNT: usize = 0x60;

/// Debounce count register.
pub const REG_DEBNCE: usize = 0x64;

/// User ID register.
pub const REG_USRID: usize = 0x68;

/// Version ID register.
pub const REG_VERID: usize = 0x6C;

/// Hardware configuration (capability) register.
pub const REG_HCON: usize = 0x70;

/// UHS-1 register.
pub const REG_UHS: usize = 0x74;

/// Hardware reset register.
pub const REG_RSTN: usize = 0x78;

/// Bus mode register (internal DMA engine).
pub const REG_BMOD: usize = 0x80;

/// Poll demand register (internal DMA engine).
pub const REG_PLDMND: usize = 0x84;

/// Descriptor list base address register (internal DMA engine).
pub const REG_DBADDR: usize = 0x88;

/// Internal DMA status register.
pub const REG_IDSTS: usize = 0x8C;

/// Internal DMA interrupt enable register.
pub const REG_IDINTEN: usize = 0x90;

/// Current host descriptor address register (internal DMA engine).
pub const REG_DSCADDR: usize = 0x94;

/// Current buffer descriptor address register (internal DMA engine).
pub const REG_BUFADDR: usize = 0x98;

/// Card threshold control register.
pub const REG_CARD_THR_CTL: usize = 0x100;

/// Data FIFO access window.
pub const REG_DATA: usize = 0x200;

/// Default preload for the timeout register's data-timeout field: the
/// maximal 24-bit count, placed at the field's position, bit 8.
pub const DATA_TMOUT_DEFAULT: usize = 0xFFFFFF << 8;

/// Every register offset equals its documented literal value, exhaustively,
/// and the data-timeout preset is the 24-bit maximum shifted to bit 8.
pub proof fn lemma_register_offsets()
    ensures
        REG_CTRL == 0x00,
        REG_PWREN == 0x04,
        REG_CLKDIV == 0x08,
        REG_CLKENA == 0x10,
        REG_TMOUT == 0x14,
        REG_CTYPE == 0x18,
        REG_BLKSIZ == 0x1C,
        REG_BYTCNT == 0x20,
        REG_INTMASK == 0x24,
        REG_CMDARG == 0x28,
        REG_CMD == 0x2C,
        REG_RESP0 == 0x30,
        REG_RESP1 == 0x34,
        REG_RESP2 == 0x38,
        REG_RESP3 == 0x3C,
        REG_RINTSTS == 0x44,
        REG_STATUS == 0x48,
        REG_FIFOTH == 0x4C,
        REG_CDETECT == 0x50,
        REG_WRTPRT == 0x54,
        REG_GPIO == 0x58,
        REG_TCMCNT == 0x5C,
        REG_TBBCNT == 0x60,
        REG_DEBNCE == 0x64,
        REG_USRID == 0x68,
        REG_VERID == 0x6C,
        REG_HCON == 0x70,
        REG_UHS == 0x74,
        REG_RSTN == 0x78,
        REG_BMOD == 0x80,
        REG_PLDMND == 0x84,
        REG_DBADDR == 0x88,
        REG_IDSTS == 0x8C,
        REG_IDINTEN == 0x90,
        REG_DSCADDR == 0x94,
        REG_BUFADDR == 0x98,
        REG_CARD_THR_CTL == 0x100,
        REG_DATA == 0x200,
        DATA_TMOUT_DEFAULT == 0xFFFFFF00,
{
    assert(0xFFFFFFusize << 8 == 0xFFFFFF00) by (bit_vector);
}

} // verus!
