//! Checks of every flag set: each named mask holds its exact hardware
//! layout and a well-formed shape, the raw-bits round trip is the
//! identity, and the bitwise operations behave as stated.

use sdmmc_regs::flags::{
    CmdMask, ControlMask, DmaIntEn, DmaStatus, HardConfig, InterruptMask, StatusMask,
};

/// A named single bit: non-zero and a power of two.
fn is_single_bit(m: u32) -> bool {
    m != 0 && m & (m - 1) == 0
}

/// A named field: non-zero and one contiguous run of bits.
fn is_contiguous(m: u32) -> bool {
    if m == 0 {
        return false;
    }
    let lowered = m >> m.trailing_zeros();
    lowered & (lowered + 1) == 0
}

#[test]
fn interrupt_mask_layout() {
    let single = [
        (InterruptMask::EBE, 1u32 << 15),
        (InterruptMask::ACD, 1 << 14),
        (InterruptMask::SBE, 1 << 13),
        (InterruptMask::HLE, 1 << 12),
        (InterruptMask::FRUN, 1 << 11),
        (InterruptMask::HTO, 1 << 10),
        (InterruptMask::DRTO, 1 << 9),
        (InterruptMask::RTO, 1 << 8),
        (InterruptMask::DCRC, 1 << 7),
        (InterruptMask::RCRC, 1 << 6),
        (InterruptMask::RXDR, 1 << 5),
        (InterruptMask::TXDR, 1 << 4),
        (InterruptMask::DTO, 1 << 3),
        (InterruptMask::CMD, 1 << 2),
        (InterruptMask::RE, 1 << 1),
        (InterruptMask::CD, 1),
    ];
    for (mask, expected) in single {
        assert_eq!(mask, expected);
        assert!(is_single_bit(mask));
    }
    assert_eq!(InterruptMask::SDIO_INT_MASK, 0xFFFF << 16);
    assert!(is_contiguous(InterruptMask::SDIO_INT_MASK));
}

#[test]
fn control_mask_layout() {
    let single = [
        (ControlMask::USE_INTERNAL_DMAC, 1u32 << 25),
        (ControlMask::ENABLE_OD_PULLUP, 1 << 24),
        (ControlMask::CEATA_DEVICE_INTERRUPT, 1 << 11),
        (ControlMask::SEND_AUTO_STOP_CCSD, 1 << 10),
        (ControlMask::SEND_CCSD, 1 << 9),
        (ControlMask::ABORT_READ_DATA, 1 << 8),
        (ControlMask::SEND_IRQ_RESPONSE, 1 << 7),
        (ControlMask::READ_WAIT, 1 << 6),
        (ControlMask::DMA_ENABLE, 1 << 5),
        (ControlMask::INT_ENABLE, 1 << 4),
        (ControlMask::DMA_RESET, 1 << 2),
        (ControlMask::FIFO_RESET, 1 << 1),
        (ControlMask::CONTROLLER_RESET, 1),
    ];
    for (mask, expected) in single {
        assert_eq!(mask, expected);
        assert!(is_single_bit(mask));
    }
    assert_eq!(ControlMask::CARD_VOLTAGE_B, 0b1111 << 20);
    assert_eq!(ControlMask::CARD_VOLTAGE_A, 0b1111 << 16);
    assert!(is_contiguous(ControlMask::CARD_VOLTAGE_B));
    assert!(is_contiguous(ControlMask::CARD_VOLTAGE_A));
}

#[test]
fn cmd_mask_layout() {
    let single = [
        (CmdMask::START_CMD, 1u32 << 31),
        (CmdMask::USE_HOLD_REG, 1 << 29),
        (CmdMask::VOLT_SWITCH, 1 << 28),
        (CmdMask::BOOT_MODE, 1 << 27),
        (CmdMask::DISABLE_BOOT, 1 << 26),
        (CmdMask::EXPECT_BOOT_ACK, 1 << 25),
        (CmdMask::ENABLE_BOOT, 1 << 24),
        (CmdMask::CCS_EXPECTED, 1 << 23),
        (CmdMask::READ_CEATA_DEVICE, 1 << 22),
        (CmdMask::UPDATE_CLOCK_REGISTERS_ONLY, 1 << 21),
        (CmdMask::SEND_INITIALIZATION, 1 << 15),
        (CmdMask::STOP_ABORT_CMD, 1 << 14),
        (CmdMask::WAIT_PRVDATA_COMPLETE, 1 << 13),
        (CmdMask::SEND_AUTO_STOP, 1 << 12),
        (CmdMask::TRANSFER_MODE, 1 << 11),
        (CmdMask::WRITE, 1 << 10),
        (CmdMask::DATA_EXPECTED, 1 << 9),
        (CmdMask::CHECK_RESPONSE_CRC, 1 << 8),
        (CmdMask::RESPONSE_LENGTH, 1 << 7),
        (CmdMask::RESPONSE_EXPECT, 1 << 6),
    ];
    for (mask, expected) in single {
        assert_eq!(mask, expected);
        assert!(is_single_bit(mask));
    }
    assert_eq!(CmdMask::CARD_NUMBER, 0b11111 << 16);
    assert_eq!(CmdMask::CMD_INDEX, 0x3F);
    assert!(is_contiguous(CmdMask::CARD_NUMBER));
    assert!(is_contiguous(CmdMask::CMD_INDEX));
}

#[test]
fn status_mask_layout() {
    let single = [
        (StatusMask::DMA_REQ, 1u32 << 31),
        (StatusMask::DMA_ACK, 1 << 30),
        (StatusMask::DATA_STATE_MC_BUSY, 1 << 10),
        (StatusMask::DATA_BUSY, 1 << 9),
        (StatusMask::DATA_3_STATUS, 1 << 8),
        (StatusMask::FIFO_FULL, 1 << 3),
        (StatusMask::FIFO_EMPTY, 1 << 2),
        (StatusMask::FIFO_TX_WATERMARK, 1 << 1),
        (StatusMask::FIFO_RX_WATERMARK, 1),
    ];
    for (mask, expected) in single {
        assert_eq!(mask, expected);
        assert!(is_single_bit(mask));
    }
    assert_eq!(StatusMask::FIFO_COUNT, 0x1FFF << 17);
    assert_eq!(StatusMask::RESPONSE_INDEX, 0x3F << 11);
    assert_eq!(StatusMask::COMMAND_FSM_STATES, 0xF << 4);
    assert!(is_contiguous(StatusMask::FIFO_COUNT));
    assert!(is_contiguous(StatusMask::RESPONSE_INDEX));
    assert!(is_contiguous(StatusMask::COMMAND_FSM_STATES));
}

#[test]
fn hard_config_layout() {
    let single = [
        (HardConfig::CARD_TYPE, 0x1u32),
        (HardConfig::H_BUS_TYPE, 1 << 6),
        (HardConfig::FIFO_RAM_INSIDE, 1 << 21),
        (HardConfig::IMPL_HOLD_REG, 1 << 22),
        (HardConfig::SET_CLK_FALSE_PATH, 1 << 23),
        (HardConfig::AREA_OPTIMIZED, 1 << 26),
    ];
    for (mask, expected) in single {
        assert_eq!(mask, expected);
        assert!(is_single_bit(mask));
    }
    let multi = [
        (HardConfig::NUM_CARDS_SUB1, 0x1Fu32 << 1),
        (HardConfig::H_DATA_WIDTH, 0b111 << 7),
        (HardConfig::H_ADDR_WIDTH, 0x3F << 10),
        (HardConfig::DMA_INTERFACE, 0b11 << 16),
        (HardConfig::GE_DMA_DATA_WIDTH, 0b111 << 18),
        (HardConfig::NUM_CLK_DIV_SUB1, 0b11 << 24),
        (HardConfig::FIFO_DEPTH, 0x1F << 27),
    ];
    for (mask, expected) in multi {
        assert_eq!(mask, expected);
        assert!(is_contiguous(mask));
    }
}

#[test]
fn dma_int_en_layout() {
    let single = [
        (DmaIntEn::TI, 0x1u32),
        (DmaIntEn::RI, 1 << 1),
        (DmaIntEn::FBE, 1 << 2),
        (DmaIntEn::DU, 1 << 4),
        (DmaIntEn::CES, 1 << 5),
        (DmaIntEn::NI, 1 << 8),
        (DmaIntEn::AI, 1 << 9),
    ];
    for (mask, expected) in single {
        assert_eq!(mask, expected);
        assert!(is_single_bit(mask));
    }
}

#[test]
fn dma_status_layout() {
    let single = [
        (DmaStatus::TI, 0x1u32),
        (DmaStatus::RI, 1 << 1),
        (DmaStatus::FBE, 1 << 2),
        (DmaStatus::DU, 1 << 4),
        (DmaStatus::CES, 1 << 5),
        (DmaStatus::NIS, 1 << 8),
        (DmaStatus::AIS, 1 << 9),
    ];
    for (mask, expected) in single {
        assert_eq!(mask, expected);
        assert!(is_single_bit(mask));
    }
    assert_eq!(DmaStatus::EB, 0b111 << 10);
    assert_eq!(DmaStatus::FSM, 0xF << 13);
    assert!(is_contiguous(DmaStatus::EB));
    assert!(is_contiguous(DmaStatus::FSM));
}

#[test]
fn raw_bits_round_trip() {
    let samples = [0u32, 1, 0xFFFF_FFFF, 0xDEAD_BEEF, 0x8000_0001, 0x1234_5678];
    for raw in samples {
        assert_eq!(InterruptMask::from_bits(raw).bits(), raw);
        assert_eq!(ControlMask::from_bits(raw).bits(), raw);
        assert_eq!(CmdMask::from_bits(raw).bits(), raw);
        assert_eq!(StatusMask::from_bits(raw).bits(), raw);
        assert_eq!(HardConfig::from_bits(raw).bits(), raw);
        assert_eq!(DmaIntEn::from_bits(raw).bits(), raw);
        assert_eq!(DmaStatus::from_bits(raw).bits(), raw);
    }
}

#[test]
fn bitwise_operations() {
    let a = InterruptMask::from_bits(InterruptMask::RTO | InterruptMask::DRTO);
    let b = InterruptMask::from_bits(InterruptMask::RTO | InterruptMask::CD);
    assert_eq!(a.union(b).bits(), InterruptMask::RTO | InterruptMask::DRTO | InterruptMask::CD);
    assert_eq!(a.intersection(b).bits(), InterruptMask::RTO);
    assert_eq!(a.difference(b).bits(), InterruptMask::DRTO);
    assert!(a.contains(InterruptMask::from_bits(InterruptMask::RTO)));
    assert!(a.contains(a));
    assert!(!a.contains(b));
    assert!(a.contains(InterruptMask::from_bits(0)));
}

#[test]
fn contains_needs_every_bit() {
    let word = CmdMask::from_bits(CmdMask::START_CMD | CmdMask::RESPONSE_EXPECT | 0x05);
    assert!(word.contains(CmdMask::from_bits(CmdMask::START_CMD)));
    assert!(word.contains(CmdMask::from_bits(CmdMask::START_CMD | CmdMask::RESPONSE_EXPECT)));
    assert!(!word.contains(CmdMask::from_bits(CmdMask::CMD_INDEX)));
    assert!(!word.contains(CmdMask::from_bits(CmdMask::START_CMD | CmdMask::WRITE)));
}
