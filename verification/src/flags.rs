//! Typed bit-field views over the controller's 32-bit register words.
//!
//! One value type per register group: each wraps the raw 32-bit word of its
//! register and names every semantic bit or contiguous bit field as a mask
//! constant. Any bit pattern is representable; the named constants pin the
//! hardware's layout down. Each type supports building a value from a raw
//! word, recovering the raw bits for writing back to hardware, testing
//! whether a named mask is fully present, and the bitwise combinations
//! union, intersection and difference. All of it is pure bit arithmetic
//! with no failure modes: unrecognized or reserved bit patterns pass
//! through unvalidated.
//!
//! For every type a layout lemma proves each named mask against
//! [`crate::fields::field_mask`], pinning its exact bit position and width;
//! a round-trip lemma states that building a value from a raw word and
//! reading the raw bits back yields the word unchanged.

use crate::fields::{field_mask, single_bit};
use vstd::arithmetic::power2::lemma2_to64;
use vstd::prelude::*;

verus! {

/// Interrupt status and interrupt mask register bits (INTMASK, RINTSTS).
#[derive(Clone, Copy, Debug, PartialEq, Eq, Structural)]
pub struct InterruptMask {
    pub bits: u32,
}

impl InterruptMask {
    /// Per-card SDIO interrupt mask, bits 16..32.
    pub const SDIO_INT_MASK: u32 = 0xFFFF_0000;

    /// End-bit error (read) / write-no-CRC, bit 15.
    pub const EBE: u32 = 0x8000;

    /// Auto command done, bit 14.
    pub const ACD: u32 = 0x4000;

    /// Start-bit error, bit 13.
    pub const SBE: u32 = 0x2000;

    /// Hardware locked write error, bit 12.
    pub const HLE: u32 = 0x1000;

    /// FIFO underrun/overrun error, bit 11.
    pub const FRUN: u32 = 0x0800;

    /// Data starvation by host timeout, bit 10.
    pub const HTO: u32 = 0x0400;

    /// Data read timeout, bit 9.
    pub const DRTO: u32 = 0x0200;

    /// Response timeout, bit 8.
    pub const RTO: u32 = 0x0100;

    /// Data CRC error, bit 7.
    pub const DCRC: u32 = 0x0080;

    /// Response CRC error, bit 6.
    pub const RCRC: u32 = 0x0040;

    /// Receive FIFO data request, bit 5.
    pub const RXDR: u32 = 0x0020;

    /// Transmit FIFO data request, bit 4.
    pub const TXDR: u32 = 0x0010;

    /// Data transfer over, bit 3.
    pub const DTO: u32 = 0x0008;

    /// Command done, bit 2.
    pub const CMD: u32 = 0x0004;

    /// Response error, bit 1.
    pub const RE: u32 = 0x0002;

    /// Card detect, bit 0.
    pub const CD: u32 = 0x0001;

    /// Wraps a raw register word; every bit pattern passes through.
    pub fn from_bits(bits: u32) -> (r: Self)
        ensures
            r.bits == bits,
    {
        InterruptMask { bits }
    }

    /// Recovers the raw word for writing back to hardware.
    pub fn bits(self) -> (r: u32)
        ensures
            r == self.bits,
    {
        self.bits
    }

    /// True exactly when every bit of `other` is present in `self`.
    pub fn contains(self, other: Self) -> (r: bool)
        ensures
            r == (self.bits & other.bits == other.bits),
    {
        self.bits & other.bits == other.bits
    }

    /// Bitwise union.
    pub fn union(self, other: Self) -> (r: Self)
        ensures
            r.bits == (self.bits | other.bits),
    {
        InterruptMask { bits: self.bits | other.bits }
    }

    /// Bitwise intersection.
    pub fn intersection(self, other: Self) -> (r: Self)
        ensures
            r.bits == (self.bits & other.bits),
    {
        InterruptMask { bits: self.bits & other.bits }
    }

    /// The bits of `self` that are not in `other`.
    pub fn difference(self, other: Self) -> (r: Self)
        ensures
            r.bits == (self.bits & !other.bits),
    {
        InterruptMask { bits: self.bits & !other.bits }
    }
}

/// Every named interrupt mask sits at its documented position and width.
pub proof fn lemma_interrupt_mask_layout()
    ensures
        field_mask(InterruptMask::SDIO_INT_MASK, 16, 16),
        single_bit(InterruptMask::EBE, 15),
        single_bit(InterruptMask::ACD, 14),
        single_bit(InterruptMask::SBE, 13),
        single_bit(InterruptMask::HLE, 12),
        single_bit(InterruptMask::FRUN, 11),
        single_bit(InterruptMask::HTO, 10),
        single_bit(InterruptMask::DRTO, 9),
        single_bit(InterruptMask::RTO, 8),
        single_bit(InterruptMask::DCRC, 7),
        single_bit(InterruptMask::RCRC, 6),
        single_bit(InterruptMask::RXDR, 5),
        single_bit(InterruptMask::TXDR, 4),
        single_bit(InterruptMask::DTO, 3),
        single_bit(InterruptMask::CMD, 2),
        single_bit(InterruptMask::RE, 1),
        single_bit(InterruptMask::CD, 0),
{
    lemma2_to64();
}

/// Round trip: an interrupt flag set built from a raw word hands back
/// exactly that word as its raw bits.
pub proof fn lemma_interrupt_mask_round_trip(raw: u32)
    ensures
        (InterruptMask { bits: raw }).bits == raw,
{
}

/// Control register bits (CTRL).
#[derive(Clone, Copy, Debug, PartialEq, Eq, Structural)]
pub struct ControlMask {
    pub bits: u32,
}

impl ControlMask {
    /// Use the internal DMA controller, bit 25.
    pub const USE_INTERNAL_DMAC: u32 = 0x0200_0000;

    /// Enable the open-drain pull-up, bit 24.
    pub const ENABLE_OD_PULLUP: u32 = 0x0100_0000;

    /// Card regulator-B voltage setting, bits 20..24.
    pub const CARD_VOLTAGE_B: u32 = 0x00F0_0000;

    /// Card regulator-A voltage setting, bits 16..20.
    pub const CARD_VOLTAGE_A: u32 = 0x000F_0000;

    /// CE-ATA device interrupt enable, bit 11.
    pub const CEATA_DEVICE_INTERRUPT: u32 = 0x0800;

    /// Send auto-stop with CCSD, bit 10.
    pub const SEND_AUTO_STOP_CCSD: u32 = 0x0400;

    /// Send CCSD to a CE-ATA device, bit 9.
    pub const SEND_CCSD: u32 = 0x0200;

    /// Abort read data, bit 8.
    pub const ABORT_READ_DATA: u32 = 0x0100;

    /// Send IRQ response, bit 7.
    pub const SEND_IRQ_RESPONSE: u32 = 0x0080;

    /// Read wait, bit 6.
    pub const READ_WAIT: u32 = 0x0040;

    /// DMA transfer enable, bit 5.
    pub const DMA_ENABLE: u32 = 0x0020;

    /// Global interrupt enable, bit 4.
    pub const INT_ENABLE: u32 = 0x0010;

    /// DMA reset, bit 2.
    pub const DMA_RESET: u32 = 0x0004;

    /// FIFO reset, bit 1.
    pub const FIFO_RESET: u32 = 0x0002;

    /// Controller reset, bit 0.
    pub const CONTROLLER_RESET: u32 = 0x0001;

    /// Wraps a raw register word; every bit pattern passes through.
    pub fn from_bits(bits: u32) -> (r: Self)
        ensures
            r.bits == bits,
    {
        ControlMask { bits }
    }

    /// Recovers the raw word for writing back to hardware.
    pub fn bits(self) -> (r: u32)
        ensures
            r == self.bits,
    {
        self.bits
    }

    /// True exactly when every bit of `other` is present in `self`.
    pub fn contains(self, other: Self) -> (r: bool)
        ensures
            r == (self.bits & other.bits == other.bits),
    {
        self.bits & other.bits == other.bits
    }

    /// Bitwise union.
    pub fn union(self, other: Self) -> (r: Self)
        ensures
            r.bits == (self.bits | other.bits),
    {
        ControlMask { bits: self.bits | other.bits }
    }

    /// Bitwise intersection.
    pub fn intersection(self, other: Self) -> (r: Self)
        ensures
            r.bits == (self.bits & other.bits),
    {
        ControlMask { bits: self.bits & other.bits }
    }

    /// The bits of `self` that are not in `other`.
    pub fn difference(self, other: Self) -> (r: Self)
        ensures
            r.bits == (self.bits & !other.bits),
    {
        ControlMask { bits: self.bits & !other.bits }
    }
}

/// Every named control mask sits at its documented position and width.
pub proof fn lemma_control_mask_layout()
    ensures
        single_bit(ControlMask::USE_INTERNAL_DMAC, 25),
        single_bit(ControlMask::ENABLE_OD_PULLUP, 24),
        field_mask(ControlMask::CARD_VOLTAGE_B, 20, 4),
        field_mask(ControlMask::CARD_VOLTAGE_A, 16, 4),
        single_bit(ControlMask::CEATA_DEVICE_INTERRUPT, 11),
        single_bit(ControlMask::SEND_AUTO_STOP_CCSD, 10),
        single_bit(ControlMask::SEND_CCSD, 9),
        single_bit(ControlMask::ABORT_READ_DATA, 8),
        single_bit(ControlMask::SEND_IRQ_RESPONSE, 7),
        single_bit(ControlMask::READ_WAIT, 6),
        single_bit(ControlMask::DMA_ENABLE, 5),
        single_bit(ControlMask::INT_ENABLE, 4),
        single_bit(ControlMask::DMA_RESET, 2),
        single_bit(ControlMask::FIFO_RESET, 1),
        single_bit(ControlMask::CONTROLLER_RESET, 0),
{
    lemma2_to64();
}

/// Round trip: a control flag set built from a raw word hands back exactly
/// that word as its raw bits.
pub proof fn lemma_control_mask_round_trip(raw: u32)
    ensures
        (ControlMask { bits: raw }).bits == raw,
{
}

/// Command register bits (CMD).
#[derive(Clone, Copy, Debug, PartialEq, Eq, Structural)]
pub struct CmdMask {
    pub bits: u32,
}

impl CmdMask {
    /// Start command, bit 31.
    pub const START_CMD: u32 = 0x8000_0000;

    /// Use the hold register, bit 29.
    pub const USE_HOLD_REG: u32 = 0x2000_0000;

    /// Voltage switch, bit 28.
    pub const VOLT_SWITCH: u32 = 0x1000_0000;

    /// Boot mode, bit 27.
    pub const BOOT_MODE: u32 = 0x0800_0000;

    /// Disable boot, bit 26.
    pub const DISABLE_BOOT: u32 = 0x0400_0000;

    /// Expect boot acknowledge, bit 25.
    pub const EXPECT_BOOT_ACK: u32 = 0x0200_0000;

    /// Enable boot, bit 24.
    pub const ENABLE_BOOT: u32 = 0x0100_0000;

    /// CCS expected, bit 23.
    pub const CCS_EXPECTED: u32 = 0x0080_0000;

    /// Read from a CE-ATA device, bit 22.
    pub const READ_CEATA_DEVICE: u32 = 0x0040_0000;

    /// Update clock registers only, bit 21.
    pub const UPDATE_CLOCK_REGISTERS_ONLY: u32 = 0x0020_0000;

    /// Target card number, bits 16..21.
    pub const CARD_NUMBER: u32 = 0x001F_0000;

    /// Send initialization sequence, bit 15.
    pub const SEND_INITIALIZATION: u32 = 0x8000;

    /// Stop/abort command, bit 14.
    pub const STOP_ABORT_CMD: u32 = 0x4000;

    /// Wait for previous data to complete, bit 13.
    pub const WAIT_PRVDATA_COMPLETE: u32 = 0x2000;

    /// Send auto-stop after the transfer, bit 12.
    pub const SEND_AUTO_STOP: u32 = 0x1000;

    /// Transfer mode (stream), bit 11.
    pub const TRANSFER_MODE: u32 = 0x0800;

    /// Write to the card, bit 10.
    pub const WRITE: u32 = 0x0400;

    /// Data transfer expected, bit 9.
    pub const DATA_EXPECTED: u32 = 0x0200;

    /// Check the response CRC, bit 8.
    pub const CHECK_RESPONSE_CRC: u32 = 0x0100;

    /// Long response expected, bit 7.
    pub const RESPONSE_LENGTH: u32 = 0x0080;

    /// Response expected, bit 6.
    pub const RESPONSE_EXPECT: u32 = 0x0040;

    /// Command index, bits 0..6.
    pub const CMD_INDEX: u32 = 0x003F;

    /// Wraps a raw register word; every bit pattern passes through.
    pub fn from_bits(bits: u32) -> (r: Self)
        ensures
            r.bits == bits,
    {
        CmdMask { bits }
    }

    /// Recovers the raw word for writing back to hardware.
    pub fn bits(self) -> (r: u32)
        ensures
            r == self.bits,
    {
        self.bits
    }

    /// True exactly when every bit of `other` is present in `self`.
    pub fn contains(self, other: Self) -> (r: bool)
        ensures
            r == (self.bits & other.bits == other.bits),
    {
        self.bits & other.bits == other.bits
    }

    /// Bitwise union.
    pub fn union(self, other: Self) -> (r: Self)
        ensures
            r.bits == (self.bits | other.bits),
    {
        CmdMask { bits: self.bits | other.bits }
    }

    /// Bitwise intersection.
    pub fn intersection(self, other: Self) -> (r: Self)
        ensures
            r.bits == (self.bits & other.bits),
    {
        CmdMask { bits: self.bits & other.bits }
    }

    /// The bits of `self` that are not in `other`.
    pub fn difference(self, other: Self) -> (r: Self)
        ensures
            r.bits == (self.bits & !other.bits),
    {
        CmdMask { bits: self.bits & !other.bits }
    }
}

/// Every named command mask sits at its documented position and width.
pub proof fn lemma_cmd_mask_layout()
    ensures
        single_bit(CmdMask::START_CMD, 31),
        single_bit(CmdMask::USE_HOLD_REG, 29),
        single_bit(CmdMask::VOLT_SWITCH, 28),
        single_bit(CmdMask::BOOT_MODE, 27),
        single_bit(CmdMask::DISABLE_BOOT, 26),
        single_bit(CmdMask::EXPECT_BOOT_ACK, 25),
        single_bit(CmdMask::ENABLE_BOOT, 24),
        single_bit(CmdMask::CCS_EXPECTED, 23),
        single_bit(CmdMask::READ_CEATA_DEVICE, 22),
        single_bit(CmdMask::UPDATE_CLOCK_REGISTERS_ONLY, 21),
        field_mask(CmdMask::CARD_NUMBER, 16, 5),
        single_bit(CmdMask::SEND_INITIALIZATION, 15),
        single_bit(CmdMask::STOP_ABORT_CMD, 14),
        single_bit(CmdMask::WAIT_PRVDATA_COMPLETE, 13),
        single_bit(CmdMask::SEND_AUTO_STOP, 12),
        single_bit(CmdMask::TRANSFER_MODE, 11),
        single_bit(CmdMask::WRITE, 10),
        single_bit(CmdMask::DATA_EXPECTED, 9),
        single_bit(CmdMask::CHECK_RESPONSE_CRC, 8),
        single_bit(CmdMask::RESPONSE_LENGTH, 7),
        single_bit(CmdMask::RESPONSE_EXPECT, 6),
        field_mask(CmdMask::CMD_INDEX, 0, 6),
{
    lemma2_to64();
}

/// Round trip: a command flag set built from a raw word hands back exactly
/// that word as its raw bits.
pub proof fn lemma_cmd_mask_round_trip(raw: u32)
    ensures
        (CmdMask { bits: raw }).bits == raw,
{
}

/// Status register bits (STATUS).
#[derive(Clone, Copy, Debug, PartialEq, Eq, Structural)]
pub struct StatusMask {
    pub bits: u32,
}

impl StatusMask {
    /// DMA request, bit 31.
    pub const DMA_REQ: u32 = 0x8000_0000;

    /// DMA acknowledge, bit 30.
    pub const DMA_ACK: u32 = 0x4000_0000;

    /// FIFO fill count, bits 17..30.
    pub const FIFO_COUNT: u32 = 0x3FFE_0000;

    /// Index of the previous response, bits 11..17.
    pub const RESPONSE_INDEX: u32 = 0x0001_F800;

    /// Data transmit/receive state machine busy, bit 10.
    pub const DATA_STATE_MC_BUSY: u32 = 0x0400;

    /// Card data busy, bit 9.
    pub const DATA_BUSY: u32 = 0x0200;

    /// Raw card DATA[3] line status, bit 8.
    pub const DATA_3_STATUS: u32 = 0x0100;

    /// Command state machine state, bits 4..8.
    pub const COMMAND_FSM_STATES: u32 = 0x00F0;

    /// FIFO full, bit 3.
    pub const FIFO_FULL: u32 = 0x0008;

    /// FIFO empty, bit 2.
    pub const FIFO_EMPTY: u32 = 0x0004;

    /// FIFO at or above the transmit watermark, bit 1.
    pub const FIFO_TX_WATERMARK: u32 = 0x0002;

    /// FIFO at or above the receive watermark, bit 0.
    pub const FIFO_RX_WATERMARK: u32 = 0x0001;

    /// Wraps a raw register word; every bit pattern passes through.
    pub fn from_bits(bits: u32) -> (r: Self)
        ensures
            r.bits == bits,
    {
        StatusMask { bits }
    }

    /// Recovers the raw word for writing back to hardware.
    pub fn bits(self) -> (r: u32)
        ensures
            r == self.bits,
    {
        self.bits
    }

    /// True exactly when every bit of `other` is present in `self`.
    pub fn contains(self, other: Self) -> (r: bool)
        ensures
            r == (self.bits & other.bits == other.bits),
    {
        self.bits & other.bits == other.bits
    }

    /// Bitwise union.
    pub fn union(self, other: Self) -> (r: Self)
        ensures
            r.bits == (self.bits | other.bits),
    {
        StatusMask { bits: self.bits | other.bits }
    }

    /// Bitwise intersection.
    pub fn intersection(self, other: Self) -> (r: Self)
        ensures
            r.bits == (self.bits & other.bits),
    {
        StatusMask { bits: self.bits & other.bits }
    }

    /// The bits of `self` that are not in `other`.
    pub fn difference(self, other: Self) -> (r: Self)
        ensures
            r.bits == (self.bits & !other.bits),
    {
        StatusMask { bits: self.bits & !other.bits }
    }
}

/// Every named status mask sits at its documented position and width.
pub proof fn lemma_status_mask_layout()
    ensures
        single_bit(StatusMask::DMA_REQ, 31),
        single_bit(StatusMask::DMA_ACK, 30),
        field_mask(StatusMask::FIFO_COUNT, 17, 13),
        field_mask(StatusMask::RESPONSE_INDEX, 11, 6),
        single_bit(StatusMask::DATA_STATE_MC_BUSY, 10),
        single_bit(StatusMask::DATA_BUSY, 9),
        single_bit(StatusMask::DATA_3_STATUS, 8),
        field_mask(StatusMask::COMMAND_FSM_STATES, 4, 4),
        single_bit(StatusMask::FIFO_FULL, 3),
        single_bit(StatusMask::FIFO_EMPTY, 2),
        single_bit(StatusMask::FIFO_TX_WATERMARK, 1),
        single_bit(StatusMask::FIFO_RX_WATERMARK, 0),
{
    lemma2_to64();
}

/// Round trip: a status flag set built from a raw word hands back exactly
/// that word as its raw bits.
pub proof fn lemma_status_mask_round_trip(raw: u32)
    ensures
        (StatusMask { bits: raw }).bits == raw,
{
}

/// Hardware configuration (capability) register bits (HCON).
#[derive(Clone, Copy, Debug, PartialEq, Eq, Structural)]
pub struct HardConfig {
    pub bits: u32,
}

impl HardConfig {
    /// Card type: SD/MMC when set, MMC-only when clear, bit 0.
    pub const CARD_TYPE: u32 = 0x0001;

    /// Number of card slots minus one, bits 1..6.
    pub const NUM_CARDS_SUB1: u32 = 0x003E;

    /// Host bus type: AHB when set, APB when clear, bit 6.
    pub const H_BUS_TYPE: u32 = 0x0040;

    /// Host data width, bits 7..10.
    pub const H_DATA_WIDTH: u32 = 0x0380;

    /// Host address width, bits 10..16.
    pub const H_ADDR_WIDTH: u32 = 0xFC00;

    /// DMA interface type, bits 16..18.
    pub const DMA_INTERFACE: u32 = 0x0003_0000;

    /// Generic DMA data width, bits 18..21.
    pub const GE_DMA_DATA_WIDTH: u32 = 0x001C_0000;

    /// FIFO RAM inside the controller when set, bit 21.
    pub const FIFO_RAM_INSIDE: u32 = 0x0020_0000;

    /// Hold register implemented, bit 22.
    pub const IMPL_HOLD_REG: u32 = 0x0040_0000;

    /// Clock false path set, bit 23.
    pub const SET_CLK_FALSE_PATH: u32 = 0x0080_0000;

    /// Number of clock dividers minus one, bits 24..26.
    pub const NUM_CLK_DIV_SUB1: u32 = 0x0300_0000;

    /// Area-optimized implementation, bit 26.
    pub const AREA_OPTIMIZED: u32 = 0x0400_0000;

    /// FIFO depth, bits 27..32.
    pub const FIFO_DEPTH: u32 = 0xF800_0000;

    /// Wraps a raw register word; every bit pattern passes through.
    pub fn from_bits(bits: u32) -> (r: Self)
        ensures
            r.bits == bits,
    {
        HardConfig { bits }
    }

    /// Recovers the raw word for writing back to hardware.
    pub fn bits(self) -> (r: u32)
        ensures
            r == self.bits,
    {
        self.bits
    }

    /// True exactly when every bit of `other` is present in `self`.
    pub fn contains(self, other: Self) -> (r: bool)
        ensures
            r == (self.bits & other.bits == other.bits),
    {
        self.bits & other.bits == other.bits
    }

    /// Bitwise union.
    pub fn union(self, other: Self) -> (r: Self)
        ensures
            r.bits == (self.bits | other.bits),
    {
        HardConfig { bits: self.bits | other.bits }
    }

    /// Bitwise intersection.
    pub fn intersection(self, other: Self) -> (r: Self)
        ensures
            r.bits == (self.bits & other.bits),
    {
        HardConfig { bits: self.bits & other.bits }
    }

    /// The bits of `self` that are not in `other`.
    pub fn difference(self, other: Self) -> (r: Self)
        ensures
            r.bits == (self.bits & !other.bits),
    {
        HardConfig { bits: self.bits & !other.bits }
    }
}

/// Every named capability mask sits at its documented position and width.
pub proof fn lemma_hard_config_layout()
    ensures
        single_bit(HardConfig::CARD_TYPE, 0),
        field_mask(HardConfig::NUM_CARDS_SUB1, 1, 5),
        single_bit(HardConfig::H_BUS_TYPE, 6),
        field_mask(HardConfig::H_DATA_WIDTH, 7, 3),
        field_mask(HardConfig::H_ADDR_WIDTH, 10, 6),
        field_mask(HardConfig::DMA_INTERFACE, 16, 2),
        field_mask(HardConfig::GE_DMA_DATA_WIDTH, 18, 3),
        single_bit(HardConfig::FIFO_RAM_INSIDE, 21),
        single_bit(HardConfig::IMPL_HOLD_REG, 22),
        single_bit(HardConfig::SET_CLK_FALSE_PATH, 23),
        field_mask(HardConfig::NUM_CLK_DIV_SUB1, 24, 2),
        single_bit(HardConfig::AREA_OPTIMIZED, 26),
        field_mask(HardConfig::FIFO_DEPTH, 27, 5),
{
    lemma2_to64();
}

/// Round trip: a capability flag set built from a raw word hands back
/// exactly that word as its raw bits.
pub proof fn lemma_hard_config_round_trip(raw: u32)
    ensures
        (HardConfig { bits: raw }).bits == raw,
{
}

/// Internal DMA interrupt enable register bits (IDINTEN).
#[derive(Clone, Copy, Debug, PartialEq, Eq, Structural)]
pub struct DmaIntEn {
    pub bits: u32,
}

impl DmaIntEn {
    /// Transmit interrupt enable, bit 0.
    pub const TI: u32 = 0x0001;

    /// Receive interrupt enable, bit 1.
    pub const RI: u32 = 0x0002;

    /// Fatal bus error interrupt enable, bit 2.
    pub const FBE: u32 = 0x0004;

    /// Descriptor unavailable interrupt enable, bit 4.
    pub const DU: u32 = 0x0010;

    /// Card error summary interrupt enable, bit 5.
    pub const CES: u32 = 0x0020;

    /// Normal interrupt summary enable, bit 8.
    pub const NI: u32 = 0x0100;

    /// Abnormal interrupt summary enable, bit 9.
    pub const AI: u32 = 0x0200;

    /// Wraps a raw register word; every bit pattern passes through.
    pub fn from_bits(bits: u32) -> (r: Self)
        ensures
            r.bits == bits,
    {
        DmaIntEn { bits }
    }

    /// Recovers the raw word for writing back to hardware.
    pub fn bits(self) -> (r: u32)
        ensures
            r == self.bits,
    {
        self.bits
    }

    /// True exactly when every bit of `other` is present in `self`.
    pub fn contains(self, other: Self) -> (r: bool)
        ensures
            r == (self.bits & other.bits == other.bits),
    {
        self.bits & other.bits == other.bits
    }

    /// Bitwise union.
    pub fn union(self, other: Self) -> (r: Self)
        ensures
            r.bits == (self.bits | other.bits),
    {
        DmaIntEn { bits: self.bits | other.bits }
    }

    /// Bitwise intersection.
    pub fn intersection(self, other: Self) -> (r: Self)
        ensures
            r.bits == (self.bits & other.bits),
    {
        DmaIntEn { bits: self.bits & other.bits }
    }

    /// The bits of `self` that are not in `other`.
    pub fn difference(self, other: Self) -> (r: Self)
        ensures
            r.bits == (self.bits & !other.bits),
    {
        DmaIntEn { bits: self.bits & !other.bits }
    }
}

/// Every named DMA interrupt enable mask sits at its documented position.
pub proof fn lemma_dma_int_en_layout()
    ensures
        single_bit(DmaIntEn::TI, 0),
        single_bit(DmaIntEn::RI, 1),
        single_bit(DmaIntEn::FBE, 2),
        single_bit(DmaIntEn::DU, 4),
        single_bit(DmaIntEn::CES, 5),
        single_bit(DmaIntEn::NI, 8),
        single_bit(DmaIntEn::AI, 9),
{
    lemma2_to64();
}

/// Round trip: a DMA interrupt enable flag set built from a raw word hands
/// back exactly that word as its raw bits.
pub proof fn lemma_dma_int_en_round_trip(raw: u32)
    ensures
        (DmaIntEn { bits: raw }).bits == raw,
{
}

/// Internal DMA status register bits (IDSTS).
#[derive(Clone, Copy, Debug, PartialEq, Eq, Structural)]
pub struct DmaStatus {
    pub bits: u32,
}

impl DmaStatus {
    /// Transmit interrupt, bit 0.
    pub const TI: u32 = 0x0001;

    /// Receive interrupt, bit 1.
    pub const RI: u32 = 0x0002;

    /// Fatal bus error, bit 2.
    pub const FBE: u32 = 0x0004;

    /// Descriptor unavailable, bit 4.
    pub const DU: u32 = 0x0010;

    /// Card error summary, bit 5.
    pub const CES: u32 = 0x0020;

    /// Normal interrupt summary, bit 8.
    pub const NIS: u32 = 0x0100;

    /// Abnormal interrupt summary, bit 9.
    pub const AIS: u32 = 0x0200;

    /// Error bits on a fatal bus error, bits 10..13.
    pub const EB: u32 = 0x1C00;

    /// DMA state machine state, bits 13..17.
    pub const FSM: u32 = 0x0001_E000;

    /// Wraps a raw register word; every bit pattern passes through.
    pub fn from_bits(bits: u32) -> (r: Self)
        ensures
            r.bits == bits,
    {
        DmaStatus { bits }
    }

    /// Recovers the raw word for writing back to hardware.
    pub fn bits(self) -> (r: u32)
        ensures
            r == self.bits,
    {
        self.bits
    }

    /// True exactly when every bit of `other` is present in `self`.
    pub fn contains(self, other: Self) -> (r: bool)
        ensures
            r == (self.bits & other.bits == other.bits),
    {
        self.bits & other.bits == other.bits
    }

    /// Bitwise union.
    pub fn union(self, other: Self) -> (r: Self)
        ensures
            r.bits == (self.bits | other.bits),
    {
        DmaStatus { bits: self.bits | other.bits }
    }

    /// Bitwise intersection.
    pub fn intersection(self, other: Self) -> (r: Self)
        ensures
            r.bits == (self.bits & other.bits),
    {
        DmaStatus { bits: self.bits & other.bits }
    }

    /// The bits of `self` that are not in `other`.
    pub fn difference(self, other: Self) -> (r: Self)
        ensures
            r.bits == (self.bits & !other.bits),
    {
        DmaStatus { bits: self.bits & !other.bits }
    }
}

/// Every named DMA status mask sits at its documented position and width.
pub proof fn lemma_dma_status_layout()
    ensures
        single_bit(DmaStatus::TI, 0),
        single_bit(DmaStatus::RI, 1),
        single_bit(DmaStatus::FBE, 2),
        single_bit(DmaStatus::DU, 4),
        single_bit(DmaStatus::CES, 5),
        single_bit(DmaStatus::NIS, 8),
        single_bit(DmaStatus::AIS, 9),
        field_mask(DmaStatus::EB, 10, 3),
        field_mask(DmaStatus::FSM, 13, 4),
{
    lemma2_to64();
}

/// Round trip: a DMA status flag set built from a raw word hands back
/// exactly that word as its raw bits.
pub proof fn lemma_dma_status_round_trip(raw: u32)
    ensures
        (DmaStatus { bits: raw }).bits == raw,
{
}

} // verus!
