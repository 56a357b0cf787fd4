//! Exhaustive table-driven check of the register map against the
//! documented byte offsets.

use sdmmc_regs::regmap;

#[test]
fn register_offsets_match_documented_values() {
    let table: [(usize, usize); 38] = [
        (regmap::REG_CTRL, 0x00),
        (regmap::REG_PWREN, 0x04),
        (regmap::REG_CLKDIV, 0x08),
        (regmap::REG_CLKENA, 0x10),
        (regmap::REG_TMOUT, 0x14),
        (regmap::REG_CTYPE, 0x18),
        (regmap::REG_BLKSIZ, 0x1C),
        (regmap::REG_BYTCNT, 0x20),
        (regmap::REG_INTMASK, 0x24),
        (regmap::REG_CMDARG, 0x28),
        (regmap::REG_CMD, 0x2C),
        (regmap::REG_RESP0, 0x30),
        (regmap::REG_RESP1, 0x34),
        (regmap::REG_RESP2, 0x38),
        (regmap::REG_RESP3, 0x3C),
        (regmap::REG_RINTSTS, 0x44),
        (regmap::REG_STATUS, 0x48),
        (regmap::REG_FIFOTH, 0x4C),
        (regmap::REG_CDETECT, 0x50),
        (regmap::REG_WRTPRT, 0x54),
        (regmap::REG_GPIO, 0x58),
        (regmap::REG_TCMCNT, 0x5C),
        (regmap::REG_TBBCNT, 0x60),
        (regmap::REG_DEBNCE, 0x64),
        (regmap::REG_USRID, 0x68),
        (regmap::REG_VERID, 0x6C),
        (regmap::REG_HCON, 0x70),
        (regmap::REG_UHS, 0x74),
        (regmap::REG_RSTN, 0x78),
        (regmap::REG_BMOD, 0x80),
        (regmap::REG_PLDMND, 0x84),
        (regmap::REG_DBADDR, 0x88),
        (regmap::REG_IDSTS, 0x8C),
        (regmap::REG_IDINTEN, 0x90),
        (regmap::REG_DSCADDR, 0x94),
        (regmap::REG_BUFADDR, 0x98),
        (regmap::REG_CARD_THR_CTL, 0x100),
        (regmap::REG_DATA, 0x200),
    ];
    for (got, documented) in table {
        assert_eq!(got, documented);
    }
}

#[test]
fn data_timeout_preset_is_max_count_at_bit_8() {
    assert_eq!(regmap::DATA_TMOUT_DEFAULT, 0xFFFFFF << 8);
    assert_eq!(regmap::DATA_TMOUT_DEFAULT, 0xFFFFFF00);
}
