//! Decoder for the hardware configuration (capability) word.
//!
//! [`HardConf`] wraps the raw 32-bit word read once from the HCON register.
//! It is immutable after construction and decoded on demand, field by field,
//! into a [`HconReport`], and from there into an ordered list of named
//! entries — never stored in decoded form. Decoding is total: every 32-bit
//! word decodes, unexpected patterns surface as odd values, never as a
//! rejected input.
//!
//! Two-state fields are decided by a containment test of the field's named
//! bit: the field reports its set description exactly when its bit is set
//! in the word, and its zero description when the bit is clear. A word of
//! zero therefore reports the zero description of every two-state field,
//! and a word with only the card-type bit set reports "SD_MMC".

use crate::flags::HardConfig;
use vstd::prelude::*;

verus! {

/// Raw capability word read once from the HCON register.
#[derive(Clone, Copy)]
pub struct HardConf(pub u32);

impl From<u32> for HardConf {
    fn from(value: u32) -> (r: Self) {
        HardConf(value)
    }
}

impl vstd::std_specs::convert::FromSpecImpl<u32> for HardConf {
    open spec fn obeys_from_spec() -> bool {
        true
    }

    open spec fn from_spec(value: u32) -> HardConf {
        HardConf(value)
    }
}

/// Card type description: "SD_MMC" when the card-type bit is set,
/// "MMC_ONLY" when it is clear.
pub open spec fn card_type_label(conf: u32) -> Seq<char> {
    if conf & HardConfig::CARD_TYPE != 0 {
        "SD_MMC"@
    } else {
        "MMC_ONLY"@
    }
}

/// Host bus type description: "AHB" when the bus-type bit is set, "APB"
/// when it is clear.
pub open spec fn bus_type_label(conf: u32) -> Seq<char> {
    if conf & HardConfig::H_BUS_TYPE != 0 {
        "AHB"@
    } else {
        "APB"@
    }
}

/// Host data width description, from the exact-match table over the 3-bit
/// field at bit 7: 0 is "16 bit", 1 is "32 bit", 2 is "64 bit", anything
/// else is "Other".
pub open spec fn data_width_label(conf: u32) -> Seq<char> {
    let field = (conf & HardConfig::H_DATA_WIDTH) >> 7u32;
    if field == 0 {
        "16 bit"@
    } else if field == 1 {
        "32 bit"@
    } else if field == 2 {
        "64 bit"@
    } else {
        "Other"@
    }
}

/// DMA interface description, from the table over the 2-bit field at bit
/// 16: 0 is "None", 1 is "DW_DMA", 2 is "GENERIC_DMA", 3 is "NON-DW-DMA".
pub open spec fn dma_interface_label(conf: u32) -> Seq<char> {
    let field = (conf & HardConfig::DMA_INTERFACE) >> 16u32;
    if field == 0 {
        "None"@
    } else if field == 1 {
        "DW_DMA"@
    } else if field == 2 {
        "GENERIC_DMA"@
    } else {
        "NON-DW-DMA"@
    }
}

/// Generic-DMA data width description, from the table over the 3-bit field
/// at bit 18: 0 is "None", 1 is "DW_DMA", 2 is "GENERIC_DMA", anything
/// else is "Unknown".
pub open spec fn ge_dma_width_label(conf: u32) -> Seq<char> {
    let field = (conf & HardConfig::GE_DMA_DATA_WIDTH) >> 18u32;
    if field == 0 {
        "None"@
    } else if field == 1 {
        "DW_DMA"@
    } else if field == 2 {
        "GENERIC_DMA"@
    } else {
        "Unknown"@
    }
}

/// FIFO RAM location description: "INSIDE" when the bit is set, "OUTSIDE"
/// when it is clear.
pub open spec fn fifo_ram_label(conf: u32) -> Seq<char> {
    if conf & HardConfig::FIFO_RAM_INSIDE != 0 {
        "INSIDE"@
    } else {
        "OUTSIDE"@
    }
}

/// Hold-register presence description.
pub open spec fn hold_reg_label(conf: u32) -> Seq<char> {
    if conf & HardConfig::IMPL_HOLD_REG != 0 {
        "hold register"@
    } else {
        "no hold register"@
    }
}

/// Clock false-path setting description.
pub open spec fn clk_false_path_label(conf: u32) -> Seq<char> {
    if conf & HardConfig::SET_CLK_FALSE_PATH != 0 {
        "false path set"@
    } else {
        "no false path"@
    }
}

/// Area-optimization description.
pub open spec fn area_label(conf: u32) -> Seq<char> {
    if conf & HardConfig::AREA_OPTIMIZED != 0 {
        "Area optimization"@
    } else {
        "no area optimization"@
    }
}

/// Decoded view of a capability word, one field per capability, in the
/// register's field order.
#[derive(Clone, Copy, Debug, PartialEq, Eq)]
pub struct HconReport {
    /// Card type: "SD_MMC" or "MMC_ONLY".
    pub card_type: &'static str,
    /// Number of card slots minus one.
    pub num_cards_sub1: u32,
    /// Host bus type: "AHB" or "APB".
    pub h_bus_type: &'static str,
    /// Host data width: "16 bit", "32 bit", "64 bit" or "Other".
    pub h_data_width: &'static str,
    /// Host address width in bits.
    pub h_addr_width: u32,
    /// DMA interface type.
    pub dma_interface: &'static str,
    /// Generic-DMA data width.
    pub ge_dma_data_width: &'static str,
    /// FIFO RAM location: "INSIDE" or "OUTSIDE".
    pub fifo_ram_inside: &'static str,
    /// Hold-register presence.
    pub impl_hold_reg: &'static str,
    /// Clock false-path setting.
    pub set_clk_false_path: &'static str,
    /// Number of clock dividers minus one.
    pub num_clk_div_sub1: u32,
    /// Area-optimization flag.
    pub area_optimized: &'static str,
    /// FIFO depth in words.
    pub fifo_depth: u32,
}

/// Every field of `r` is the decoding that the capability word `conf`
/// dictates: two-state fields by the containment test of their named bit,
/// numeric fields by masking and shifting to the field's position, tabled
/// fields by their exact-match table.
pub open spec fn report_matches(r: HconReport, conf: u32) -> bool {
    &&& r.card_type@ == card_type_label(conf)
    &&& r.num_cards_sub1 == (conf & HardConfig::NUM_CARDS_SUB1) >> 1u32
    &&& r.h_bus_type@ == bus_type_label(conf)
    &&& r.h_data_width@ == data_width_label(conf)
    &&& r.h_addr_width == (conf & HardConfig::H_ADDR_WIDTH) >> 10u32
    &&& r.dma_interface@ == dma_interface_label(conf)
    &&& r.ge_dma_data_width@ == ge_dma_width_label(conf)
    &&& r.fifo_ram_inside@ == fifo_ram_label(conf)
    &&& r.impl_hold_reg@ == hold_reg_label(conf)
    &&& r.set_clk_false_path@ == clk_false_path_label(conf)
    &&& r.num_clk_div_sub1 == (conf & HardConfig::NUM_CLK_DIV_SUB1) >> 24u32
    &&& r.area_optimized@ == area_label(conf)
    &&& r.fifo_depth == (conf & HardConfig::FIFO_DEPTH) >> 27u32
}

impl HardConf {
    /// Decodes the capability word into its report. Total and pure: the
    /// word is read, never changed, and every field of the result is a
    /// function of the word alone.
    pub fn decode(&self) -> (r: HconReport)
        ensures
            report_matches(r, self.0),
    {
        let conf = self.0;
        let card_type: &'static str = if conf & HardConfig::CARD_TYPE != 0 {
            "SD_MMC"
        } else {
            "MMC_ONLY"
        };
        let h_bus_type: &'static str = if conf & HardConfig::H_BUS_TYPE != 0 {
            "AHB"
        } else {
            "APB"
        };
        let h_data_field: u32 = (conf & HardConfig::H_DATA_WIDTH) >> 7;
        let h_data_width: &'static str = match h_data_field {
            0 => "16 bit",
            1 => "32 bit",
            2 => "64 bit",
            _ => "Other",
        };
        let dma_field: u32 = (conf & HardConfig::DMA_INTERFACE) >> 16;
        let dma_interface: &'static str = match dma_field {
            0 => "None",
            1 => "DW_DMA",
            2 => "GENERIC_DMA",
            _ => "NON-DW-DMA",
        };
        let ge_dma_field: u32 = (conf & HardConfig::GE_DMA_DATA_WIDTH) >> 18;
        let ge_dma_data_width: &'static str = match ge_dma_field {
            0 => "None",
            1 => "DW_DMA",
            2 => "GENERIC_DMA",
            _ => "Unknown",
        };
        let fifo_ram_inside: &'static str = if conf & HardConfig::FIFO_RAM_INSIDE != 0 {
            "INSIDE"
        } else {
            "OUTSIDE"
        };
        let impl_hold_reg: &'static str = if conf & HardConfig::IMPL_HOLD_REG != 0 {
            "hold register"
        } else {
            "no hold register"
        };
        let set_clk_false_path: &'static str = if conf & HardConfig::SET_CLK_FALSE_PATH != 0 {
            "false path set"
        } else {
            "no false path"
        };
        let area_optimized: &'static str = if conf & HardConfig::AREA_OPTIMIZED != 0 {
            "Area optimization"
        } else {
            "no area optimization"
        };
        HconReport {
            card_type,
            num_cards_sub1: (conf & HardConfig::NUM_CARDS_SUB1) >> 1,
            h_bus_type,
            h_data_width,
            h_addr_width: (conf & HardConfig::H_ADDR_WIDTH) >> 10,
            dma_interface,
            ge_dma_data_width,
            fifo_ram_inside,
            impl_hold_reg,
            set_clk_false_path,
            num_clk_div_sub1: (conf & HardConfig::NUM_CLK_DIV_SUB1) >> 24,
            area_optimized,
            fifo_depth: (conf & HardConfig::FIFO_DEPTH) >> 27,
        }
    }
}

/// One entry of the decoded, ordered capability mapping: the capability
/// field's name and its decoded value.
#[derive(Clone, Copy, Debug, PartialEq, Eq)]
pub struct HconEntry {
    /// The capability field's name.
    pub name: &'static str,
    /// The decoded value.
    pub value: HconValue,
}

/// A decoded capability value: a descriptive string for two-state and
/// tabled fields, a number for numeric fields.
#[derive(Clone, Copy, Debug, PartialEq, Eq)]
pub enum HconValue {
    /// A descriptive string.
    Text(&'static str),
    /// A numeric field value, already shifted to bit 0.
    Num(u32),
}

impl HconReport {
    /// The report as an ordered mapping: thirteen named entries, one per
    /// capability field, in the register's field order.
    pub fn entries(&self) -> (r: Vec<HconEntry>)
        ensures
            r@.len() == 13,
            r@[0].name@ == "card_type"@,
            r@[0].value == HconValue::Text(self.card_type),
            r@[1].name@ == "num_cards_sub1"@,
            r@[1].value == HconValue::Num(self.num_cards_sub1),
            r@[2].name@ == "h_bus_type"@,
            r@[2].value == HconValue::Text(self.h_bus_type),
            r@[3].name@ == "h_data_width"@,
            r@[3].value == HconValue::Text(self.h_data_width),
            r@[4].name@ == "h_addr_width"@,
            r@[4].value == HconValue::Num(self.h_addr_width),
            r@[5].name@ == "dma_interface"@,
            r@[5].value == HconValue::Text(self.dma_interface),
            r@[6].name@ == "ge_dma_data_width"@,
            r@[6].value == HconValue::Text(self.ge_dma_data_width),
            r@[7].name@ == "fifo_ram_inside"@,
            r@[7].value == HconValue::Text(self.fifo_ram_inside),
            r@[8].name@ == "impl_hold_reg"@,
            r@[8].value == HconValue::Text(self.impl_hold_reg),
            r@[9].name@ == "set_clk_false_path"@,
            r@[9].value == HconValue::Text(self.set_clk_false_path),
            r@[10].name@ == "num_clk_div_sub1"@,
            r@[10].value == HconValue::Num(self.num_clk_div_sub1),
            r@[11].name@ == "area_optimized"@,
            r@[11].value == HconValue::Text(self.area_optimized),
            r@[12].name@ == "fifo_depth"@,
            r@[12].value == HconValue::Num(self.fifo_depth),
    {
        let mut r: Vec<HconEntry> = Vec::new();
        r.push(HconEntry { name: "card_type", value: HconValue::Text(self.card_type) });
        r.push(HconEntry { name: "num_cards_sub1", value: HconValue::Num(self.num_cards_sub1) });
        r.push(HconEntry { name: "h_bus_type", value: HconValue::Text(self.h_bus_type) });
        r.push(HconEntry { name: "h_data_width", value: HconValue::Text(self.h_data_width) });
        r.push(HconEntry { name: "h_addr_width", value: HconValue::Num(self.h_addr_width) });
        r.push(HconEntry { name: "dma_interface", value: HconValue::Text(self.dma_interface) });
        r.push(HconEntry {
            name: "ge_dma_data_width",
            value: HconValue::Text(self.ge_dma_data_width),
        });
        r.push(HconEntry { name: "fifo_ram_inside", value: HconValue::Text(self.fifo_ram_inside) });
        r.push(HconEntry { name: "impl_hold_reg", value: HconValue::Text(self.impl_hold_reg) });
        r.push(HconEntry {
            name: "set_clk_false_path",
            value: HconValue::Text(self.set_clk_false_path),
        });
        r.push(HconEntry { name: "num_clk_div_sub1", value: HconValue::Num(self.num_clk_div_sub1) });
        r.push(HconEntry { name: "area_optimized", value: HconValue::Text(self.area_optimized) });
        r.push(HconEntry { name: "fifo_depth", value: HconValue::Num(self.fifo_depth) });
        r
    }
}

/// Decoding is deterministic: two reports decoded from the same raw
/// capability word agree on every field.
pub proof fn lemma_decode_deterministic(conf: u32, a: HconReport, b: HconReport)
    requires
        report_matches(a, conf),
        report_matches(b, conf),
    ensures
        a.card_type@ == b.card_type@,
        a.num_cards_sub1 == b.num_cards_sub1,
        a.h_bus_type@ == b.h_bus_type@,
        a.h_data_width@ == b.h_data_width@,
        a.h_addr_width == b.h_addr_width,
        a.dma_interface@ == b.dma_interface@,
        a.ge_dma_data_width@ == b.ge_dma_data_width@,
        a.fifo_ram_inside@ == b.fifo_ram_inside@,
        a.impl_hold_reg@ == b.impl_hold_reg@,
        a.set_clk_false_path@ == b.set_clk_false_path@,
        a.num_clk_div_sub1 == b.num_clk_div_sub1,
        a.area_optimized@ == b.area_optimized@,
        a.fifo_depth == b.fifo_depth,
{
}

/// Round trip: a capability wrapper built from a raw word hands back
/// exactly that word.
pub proof fn lemma_hard_conf_round_trip(raw: u32)
    ensures
        (HardConf(raw)).0 == raw,
{
}

} // verus!
