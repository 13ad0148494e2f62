//! The cartridge header at $0100-$014F and what its codes mean.

use super::mapper::MapperType;
use crate::err::GbResult;
use crate::text::{push_char, string_from_utf8};
use vstd::prelude::*;
use vstd::std_specs::convert::FromSpecImpl;
use vstd::utf8::{decode_utf8, valid_utf8};

verus! {

/// What the CGB flag says of Game Boy Color support.
#[derive(Debug, Clone, Copy, PartialEq, Eq, Structural)]
pub enum GBCSupport {
    BackwardsCompatible,
    GBCOnly,
    Unknown,
}

impl FromSpecImpl<u8> for GBCSupport {
    open spec fn obeys_from_spec() -> bool {
        true
    }

    open spec fn from_spec(value: u8) -> GBCSupport {
        if value == 0x80 {
            GBCSupport::BackwardsCompatible
        } else if value == 0xc0 {
            GBCSupport::GBCOnly
        } else {
            GBCSupport::Unknown
        }
    }
}

impl From<u8> for GBCSupport {
    fn from(value: u8) -> (r: GBCSupport) {
        if value == 0x80 {
            GBCSupport::BackwardsCompatible
        } else if value == 0xc0 {
            GBCSupport::GBCOnly
        } else {
            GBCSupport::Unknown
        }
    }
}

/// What the cartridge type code says.
#[derive(Clone, Copy, Debug, PartialEq, Eq, Structural)]
pub struct CartridgeType {
    pub battery_present: bool,
    pub ram_present: bool,
    pub mapper_type: MapperType,
}

/// The supported cartridge types; timers, sensors and rumble are not.
pub open spec fn cart_type_spec(code: u8) -> Option<CartridgeType> {
    if code == 0x00 {
        Some(CartridgeType { battery_present: false, ram_present: false, mapper_type: MapperType::NoMbc })
    } else if code == 0x01 {
        Some(CartridgeType { battery_present: false, ram_present: false, mapper_type: MapperType::Mbc1 })
    } else if code == 0x02 {
        Some(CartridgeType { battery_present: false, ram_present: true, mapper_type: MapperType::Mbc1 })
    } else if code == 0x03 {
        Some(CartridgeType { battery_present: true, ram_present: true, mapper_type: MapperType::Mbc1 })
    } else if code == 0x05 {
        Some(CartridgeType { battery_present: false, ram_present: false, mapper_type: MapperType::Mbc2 })
    } else if code == 0x06 {
        Some(CartridgeType { battery_present: true, ram_present: false, mapper_type: MapperType::Mbc2 })
    } else if code == 0x08 {
        Some(CartridgeType { battery_present: false, ram_present: true, mapper_type: MapperType::NoMbc })
    } else if code == 0x09 {
        Some(CartridgeType { battery_present: true, ram_present: true, mapper_type: MapperType::NoMbc })
    } else if code == 0x0b {
        Some(CartridgeType { battery_present: false, ram_present: false, mapper_type: MapperType::Mmm01 })
    } else if code == 0x0c {
        Some(CartridgeType { battery_present: false, ram_present: true, mapper_type: MapperType::Mmm01 })
    } else if code == 0x0d {
        Some(CartridgeType { battery_present: true, ram_present: true, mapper_type: MapperType::Mmm01 })
    } else if code == 0x11 {
        Some(CartridgeType { battery_present: false, ram_present: false, mapper_type: MapperType::Mbc3 })
    } else if code == 0x12 {
        Some(CartridgeType { battery_present: false, ram_present: true, mapper_type: MapperType::Mbc3 })
    } else if code == 0x13 {
        Some(CartridgeType { battery_present: true, ram_present: true, mapper_type: MapperType::Mbc3 })
    } else if code == 0x19 {
        Some(CartridgeType { battery_present: false, ram_present: false, mapper_type: MapperType::Mbc5 })
    } else if code == 0x1a {
        Some(CartridgeType { battery_present: false, ram_present: true, mapper_type: MapperType::Mbc5 })
    } else if code == 0x1b {
        Some(CartridgeType { battery_present: true, ram_present: true, mapper_type: MapperType::Mbc5 })
    } else if code == 0x20 {
        Some(CartridgeType { battery_present: false, ram_present: false, mapper_type: MapperType::Mbc6 })
    } else if code == 0xfe {
        Some(CartridgeType { battery_present: false, ram_present: false, mapper_type: MapperType::HuC3 })
    } else if code == 0xff {
        Some(CartridgeType { battery_present: true, ram_present: true, mapper_type: MapperType::HuC1 })
    } else {
        None
    }
}

fn cart_type_lookup(code: u8) -> (t: Option<CartridgeType>)
    ensures
        t == cart_type_spec(code),
{
    if code == 0x00 {
        Some(CartridgeType { battery_present: false, ram_present: false, mapper_type: MapperType::NoMbc })
    } else if code == 0x01 {
        Some(CartridgeType { battery_present: false, ram_present: false, mapper_type: MapperType::Mbc1 })
    } else if code == 0x02 {
        Some(CartridgeType { battery_present: false, ram_present: true, mapper_type: MapperType::Mbc1 })
    } else if code == 0x03 {
        Some(CartridgeType { battery_present: true, ram_present: true, mapper_type: MapperType::Mbc1 })
    } else if code == 0x05 {
        Some(CartridgeType { battery_present: false, ram_present: false, mapper_type: MapperType::Mbc2 })
    } else if code == 0x06 {
        Some(CartridgeType { battery_present: true, ram_present: false, mapper_type: MapperType::Mbc2 })
    } else if code == 0x08 {
        Some(CartridgeType { battery_present: false, ram_present: true, mapper_type: MapperType::NoMbc })
    } else if code == 0x09 {
        Some(CartridgeType { battery_present: true, ram_present: true, mapper_type: MapperType::NoMbc })
    } else if code == 0x0b {
        Some(CartridgeType { battery_present: false, ram_present: false, mapper_type: MapperType::Mmm01 })
    } else if code == 0x0c {
        Some(CartridgeType { battery_present: false, ram_present: true, mapper_type: MapperType::Mmm01 })
    } else if code == 0x0d {
        Some(CartridgeType { battery_present: true, ram_present: true, mapper_type: MapperType::Mmm01 })
    } else if code == 0x11 {
        Some(CartridgeType { battery_present: false, ram_present: false, mapper_type: MapperType::Mbc3 })
    } else if code == 0x12 {
        Some(CartridgeType { battery_present: false, ram_present: true, mapper_type: MapperType::Mbc3 })
    } else if code == 0x13 {
        Some(CartridgeType { battery_present: true, ram_present: true, mapper_type: MapperType::Mbc3 })
    } else if code == 0x19 {
        Some(CartridgeType { battery_present: false, ram_present: false, mapper_type: MapperType::Mbc5 })
    } else if code == 0x1a {
        Some(CartridgeType { battery_present: false, ram_present: true, mapper_type: MapperType::Mbc5 })
    } else if code == 0x1b {
        Some(CartridgeType { battery_present: true, ram_present: true, mapper_type: MapperType::Mbc5 })
    } else if code == 0x20 {
        Some(CartridgeType { battery_present: false, ram_present: false, mapper_type: MapperType::Mbc6 })
    } else if code == 0xfe {
        Some(CartridgeType { battery_present: false, ram_present: false, mapper_type: MapperType::HuC3 })
    } else if code == 0xff {
        Some(CartridgeType { battery_present: true, ram_present: true, mapper_type: MapperType::HuC1 })
    } else {
        None
    }
}

/// The cartridge type a supported code stands for.
pub fn get_cart_type(code: u8) -> (t: CartridgeType)
    requires
        cart_type_spec(code) is Some,
    ensures
        Some(t) == cart_type_spec(code),
{
    match cart_type_lookup(code) {
        Some(t) => t,
        None => {
            proof {
                assert(false);
            }
            CartridgeType { battery_present: false, ram_present: false, mapper_type: MapperType::Other }
        },
    }
}

/// The number of 8 KiB ram banks per size code; code 1 and codes above 5
/// are not valid.
pub open spec fn ram_banks_spec(code: u8) -> Option<u32> {
    if code == 0x00 {
        Some(0)
    } else if code == 0x02 {
        Some(1)
    } else if code == 0x03 {
        Some(4)
    } else if code == 0x04 {
        Some(16)
    } else if code == 0x05 {
        Some(8)
    } else {
        None
    }
}

pub fn get_ram_banks(code: u8) -> (n: u32)
    requires
        ram_banks_spec(code) is Some,
    ensures
        Some(n) == ram_banks_spec(code),
{
    if code == 0x00 {
        0
    } else if code == 0x02 {
        1
    } else if code == 0x03 {
        4
    } else if code == 0x04 {
        16
    } else {
        8
    }
}

/// The number of 16 KiB rom banks per size code: 2 to the power of the code.
pub open spec fn rom_banks_spec(code: u8) -> u32 {
    vstd::arithmetic::power2::pow2(code as nat) as u32
}

pub fn get_rom_banks(code: u8) -> (n: u32)
    requires
        code <= 0x08,
    ensures
        n == rom_banks_spec(code),
        1 <= n <= 256,
{
    proof {
        vstd::arithmetic::power2::lemma2_to64();
    }
    let n = 1u32 << code;
    assert(n == 1u32 << code);
    proof {
        vstd::bits::lemma_u32_shl_is_mul(1, code as u32);
    }
    n
}

/// The old licensee names, by code.
pub open spec fn old_publisher_spec(b: u8) -> Option<&'static str> {
    if b == 0x00 {
        Some("None")
    } else if b == 0x01 {
        Some("Nintendo")
    } else if b == 0x08 {
        Some("Capcom")
    } else if b == 0x09 {
        Some("Hot-B")
    } else if b == 0x0a {
        Some("Jaleco")
    } else if b == 0x0b {
        Some("Coconuts Japan")
    } else if b == 0x0c {
        Some("Elite Systems")
    } else if b == 0x13 {
        Some("EA (Electronic Arts)")
    } else if b == 0x18 {
        Some("Hudsonsoft")
    } else if b == 0x19 {
        Some("ITC Entertainment")
    } else if b == 0x1a {
        Some("Yanoman")
    } else if b == 0x1d {
        Some("Japan Clary")
    } else if b == 0x1f {
        Some("Virgin Interactive")
    } else if b == 0x24 {
        Some("PCM Complete")
    } else if b == 0x25 {
        Some("San-X")
    } else if b == 0x28 {
        Some("Kotobuki Systems")
    } else if b == 0x29 {
        Some("Seta")
    } else if b == 0x30 {
        Some("Infogrames")
    } else if b == 0x31 {
        Some("Nintendo")
    } else if b == 0x32 {
        Some("Bandai")
    } else if b == 0x34 {
        Some("Konami")
    } else if b == 0x35 {
        Some("HectorSoft")
    } else if b == 0x38 {
        Some("Capcom")
    } else if b == 0x39 {
        Some("Banpresto")
    } else if b == 0x3c {
        Some(".Entertainment i")
    } else if b == 0x3e {
        Some("Gremlin")
    } else if b == 0x41 {
        Some("Ubisoft")
    } else if b == 0x42 {
        Some("Atlus")
    } else if b == 0x44 {
        Some("Malibu")
    } else if b == 0x46 {
        Some("Angel")
    } else if b == 0x47 {
        Some("Spectrum Holoby")
    } else if b == 0x49 {
        Some("Irem")
    } else if b == 0x4a {
        Some("Virgin Interactive")
    } else if b == 0x4d {
        Some("Malibu")
    } else if b == 0x4f {
        Some("U.S. Gold")
    } else if b == 0x50 {
        Some("Absolute")
    } else if b == 0x51 {
        Some("Acclaim")
    } else if b == 0x52 {
        Some("Activision")
    } else if b == 0x53 {
        Some("American Sammy")
    } else if b == 0x54 {
        Some("GameTek")
    } else if b == 0x55 {
        Some("Park Place")
    } else if b == 0x56 {
        Some("LJN")
    } else if b == 0x57 {
        Some("Matchbox")
    } else if b == 0x59 {
        Some("Milton Bradley")
    } else if b == 0x5a {
        Some("Mindscape")
    } else if b == 0x5b {
        Some("Romstar")
    } else if b == 0x5c {
        Some("Naxat Soft")
    } else if b == 0x5d {
        Some("Tradewest")
    } else if b == 0x60 {
        Some("Titus")
    } else if b == 0x61 {
        Some("Virgin Interactive")
    } else if b == 0x67 {
        Some("Ocean Interactive")
    } else if b == 0x69 {
        Some("EA (Electronic Arts)")
    } else if b == 0x6e {
        Some("Elite Systems")
    } else if b == 0x6f {
        Some("Electro Brain")
    } else if b == 0x70 {
        Some("Infogrames")
    } else if b == 0x71 {
        Some("Interplay")
    } else if b == 0x72 {
        Some("Broderbund")
    } else if b == 0x73 {
        Some("Sculptered Soft")
    } else if b == 0x75 {
        Some("The Sales Curve")
    } else if b == 0x78 {
        Some("t.hq")
    } else if b == 0x79 {
        Some("Accolade")
    } else if b == 0x7a {
        Some("Triffix Entertainment")
    } else if b == 0x7c {
        Some("Microprose")
    } else if b == 0x7f {
        Some("Kemco")
    } else if b == 0x80 {
        Some("Misawa Entertainment")
    } else if b == 0x83 {
        Some("Lozc")
    } else if b == 0x86 {
        Some("Tokuma Shoten Intermedia")
    } else if b == 0x8b {
        Some("Bullet-Proof Software")
    } else if b == 0x8c {
        Some("Vic Tokai")
    } else if b == 0x8e {
        Some("Ape")
    } else if b == 0x8f {
        Some("I’Max")
    } else if b == 0x91 {
        Some("Chunsoft Co.")
    } else if b == 0x92 {
        Some("Video System")
    } else if b == 0x93 {
        Some("Tsubaraya Productions Co.")
    } else if b == 0x95 {
        Some("Varie Corporation")
    } else if b == 0x96 {
        Some("Yonezawa/S’Pal")
    } else if b == 0x97 {
        Some("Kaneko")
    } else if b == 0x99 {
        Some("Arc")
    } else if b == 0x9a {
        Some("Nihon Bussan")
    } else if b == 0x9b {
        Some("Tecmo")
    } else if b == 0x9c {
        Some("Imagineer")
    } else if b == 0x9d {
        Some("Banpresto")
    } else if b == 0x9f {
        Some("Nova")
    } else if b == 0xa1 {
        Some("Hori Electric")
    } else if b == 0xa2 {
        Some("Bandai")
    } else if b == 0xa4 {
        Some("Konami")
    } else if b == 0xa6 {
        Some("Kawada")
    } else if b == 0xa7 {
        Some("Takara")
    } else if b == 0xa9 {
        Some("Technos Japan")
    } else if b == 0xaa {
        Some("Broderbund")
    } else if b == 0xac {
        Some("Toei Animation")
    } else if b == 0xad {
        Some("Toho")
    } else if b == 0xaf {
        Some("Namco")
    } else if b == 0xb0 {
        Some("acclaim")
    } else if b == 0xb1 {
        Some("ASCII or Nexsoft")
    } else if b == 0xb2 {
        Some("Bandai")
    } else if b == 0xb4 {
        Some("Square Enix")
    } else if b == 0xb6 {
        Some("HAL Laboratory")
    } else if b == 0xb7 {
        Some("SNK")
    } else if b == 0xb9 {
        Some("Pony Canyon")
    } else if b == 0xba {
        Some("Culture Brain")
    } else if b == 0xbb {
        Some("Sunsoft")
    } else if b == 0xbd {
        Some("Sony Imagesoft")
    } else if b == 0xbf {
        Some("Sammy")
    } else if b == 0xc0 {
        Some("Taito")
    } else if b == 0xc2 {
        Some("Kemco")
    } else if b == 0xc3 {
        Some("Squaresoft")
    } else if b == 0xc4 {
        Some("Tokuma Shoten Intermedia")
    } else if b == 0xc5 {
        Some("Data East")
    } else if b == 0xc6 {
        Some("Tonkinhouse")
    } else if b == 0xc8 {
        Some("Koei")
    } else if b == 0xc9 {
        Some("UFL")
    } else if b == 0xca {
        Some("Ultra")
    } else if b == 0xcb {
        Some("Vap")
    } else if b == 0xcc {
        Some("Use Corporation")
    } else if b == 0xcd {
        Some("Meldac")
    } else if b == 0xce {
        Some(".Pony Canyon or")
    } else if b == 0xcf {
        Some("Angel")
    } else if b == 0xd0 {
        Some("Taito")
    } else if b == 0xd1 {
        Some("Sofel")
    } else if b == 0xd2 {
        Some("Quest")
    } else if b == 0xd3 {
        Some("Sigma Enterprises")
    } else if b == 0xd4 {
        Some("ASK Kodansha Co.")
    } else if b == 0xd6 {
        Some("Naxat Soft")
    } else if b == 0xd7 {
        Some("Copya System")
    } else if b == 0xd9 {
        Some("Banpresto")
    } else if b == 0xda {
        Some("Tomy")
    } else if b == 0xdb {
        Some("LJN")
    } else if b == 0xdd {
        Some("NCS")
    } else if b == 0xde {
        Some("Human")
    } else if b == 0xdf {
        Some("Altron")
    } else if b == 0xe0 {
        Some("Jaleco")
    } else if b == 0xe1 {
        Some("Towa Chiki")
    } else if b == 0xe2 {
        Some("Yutaka")
    } else if b == 0xe3 {
        Some("Varie")
    } else if b == 0xe5 {
        Some("Epcoh")
    } else if b == 0xe7 {
        Some("Athena")
    } else if b == 0xe8 {
        Some("Asmik ACE Entertainment")
    } else if b == 0xe9 {
        Some("Natsume")
    } else if b == 0xea {
        Some("King Records")
    } else if b == 0xeb {
        Some("Atlus")
    } else if b == 0xec {
        Some("Epic/Sony Records")
    } else if b == 0xee {
        Some("IGS")
    } else if b == 0xf0 {
        Some("A Wave")
    } else if b == 0xf3 {
        Some("Extreme Entertainment")
    } else if b == 0xff {
        Some("LJN")
    } else {
        None
    }
}

fn old_publisher_lookup(b: u8) -> (s: Option<&'static str>)
    ensures
        s == old_publisher_spec(b),
{
    if b == 0x00 {
        Some("None")
    } else if b == 0x01 {
        Some("Nintendo")
    } else if b == 0x08 {
        Some("Capcom")
    } else if b == 0x09 {
        Some("Hot-B")
    } else if b == 0x0a {
        Some("Jaleco")
    } else if b == 0x0b {
        Some("Coconuts Japan")
    } else if b == 0x0c {
        Some("Elite Systems")
    } else if b == 0x13 {
        Some("EA (Electronic Arts)")
    } else if b == 0x18 {
        Some("Hudsonsoft")
    } else if b == 0x19 {
        Some("ITC Entertainment")
    } else if b == 0x1a {
        Some("Yanoman")
    } else if b == 0x1d {
        Some("Japan Clary")
    } else if b == 0x1f {
        Some("Virgin Interactive")
    } else if b == 0x24 {
        Some("PCM Complete")
    } else if b == 0x25 {
        Some("San-X")
    } else if b == 0x28 {
        Some("Kotobuki Systems")
    } else if b == 0x29 {
        Some("Seta")
    } else if b == 0x30 {
        Some("Infogrames")
    } else if b == 0x31 {
        Some("Nintendo")
    } else if b == 0x32 {
        Some("Bandai")
    } else if b == 0x34 {
        Some("Konami")
    } else if b == 0x35 {
        Some("HectorSoft")
    } else if b == 0x38 {
        Some("Capcom")
    } else if b == 0x39 {
        Some("Banpresto")
    } else if b == 0x3c {
        Some(".Entertainment i")
    } else if b == 0x3e {
        Some("Gremlin")
    } else if b == 0x41 {
        Some("Ubisoft")
    } else if b == 0x42 {
        Some("Atlus")
    } else if b == 0x44 {
        Some("Malibu")
    } else if b == 0x46 {
        Some("Angel")
    } else if b == 0x47 {
        Some("Spectrum Holoby")
    } else if b == 0x49 {
        Some("Irem")
    } else if b == 0x4a {
        Some("Virgin Interactive")
    } else if b == 0x4d {
        Some("Malibu")
    } else if b == 0x4f {
        Some("U.S. Gold")
    } else if b == 0x50 {
        Some("Absolute")
    } else if b == 0x51 {
        Some("Acclaim")
    } else if b == 0x52 {
        Some("Activision")
    } else if b == 0x53 {
        Some("American Sammy")
    } else if b == 0x54 {
        Some("GameTek")
    } else if b == 0x55 {
        Some("Park Place")
    } else if b == 0x56 {
        Some("LJN")
    } else if b == 0x57 {
        Some("Matchbox")
    } else if b == 0x59 {
        Some("Milton Bradley")
    } else if b == 0x5a {
        Some("Mindscape")
    } else if b == 0x5b {
        Some("Romstar")
    } else if b == 0x5c {
        Some("Naxat Soft")
    } else if b == 0x5d {
        Some("Tradewest")
    } else if b == 0x60 {
        Some("Titus")
    } else if b == 0x61 {
        Some("Virgin Interactive")
    } else if b == 0x67 {
        Some("Ocean Interactive")
    } else if b == 0x69 {
        Some("EA (Electronic Arts)")
    } else if b == 0x6e {
        Some("Elite Systems")
    } else if b == 0x6f {
        Some("Electro Brain")
    } else if b == 0x70 {
        Some("Infogrames")
    } else if b == 0x71 {
        Some("Interplay")
    } else if b == 0x72 {
        Some("Broderbund")
    } else if b == 0x73 {
        Some("Sculptered Soft")
    } else if b == 0x75 {
        Some("The Sales Curve")
    } else if b == 0x78 {
        Some("t.hq")
    } else if b == 0x79 {
        Some("Accolade")
    } else if b == 0x7a {
        Some("Triffix Entertainment")
    } else if b == 0x7c {
        Some("Microprose")
    } else if b == 0x7f {
        Some("Kemco")
    } else if b == 0x80 {
        Some("Misawa Entertainment")
    } else if b == 0x83 {
        Some("Lozc")
    } else if b == 0x86 {
        Some("Tokuma Shoten Intermedia")
    } else if b == 0x8b {
        Some("Bullet-Proof Software")
    } else if b == 0x8c {
        Some("Vic Tokai")
    } else if b == 0x8e {
        Some("Ape")
    } else if b == 0x8f {
        Some("I’Max")
    } else if b == 0x91 {
        Some("Chunsoft Co.")
    } else if b == 0x92 {
        Some("Video System")
    } else if b == 0x93 {
        Some("Tsubaraya Productions Co.")
    } else if b == 0x95 {
        Some("Varie Corporation")
    } else if b == 0x96 {
        Some("Yonezawa/S’Pal")
    } else if b == 0x97 {
        Some("Kaneko")
    } else if b == 0x99 {
        Some("Arc")
    } else if b == 0x9a {
        Some("Nihon Bussan")
    } else if b == 0x9b {
        Some("Tecmo")
    } else if b == 0x9c {
        Some("Imagineer")
    } else if b == 0x9d {
        Some("Banpresto")
    } else if b == 0x9f {
        Some("Nova")
    } else if b == 0xa1 {
        Some("Hori Electric")
    } else if b == 0xa2 {
        Some("Bandai")
    } else if b == 0xa4 {
        Some("Konami")
    } else if b == 0xa6 {
        Some("Kawada")
    } else if b == 0xa7 {
        Some("Takara")
    } else if b == 0xa9 {
        Some("Technos Japan")
    } else if b == 0xaa {
        Some("Broderbund")
    } else if b == 0xac {
        Some("Toei Animation")
    } else if b == 0xad {
        Some("Toho")
    } else if b == 0xaf {
        Some("Namco")
    } else if b == 0xb0 {
        Some("acclaim")
    } else if b == 0xb1 {
        Some("ASCII or Nexsoft")
    } else if b == 0xb2 {
        Some("Bandai")
    } else if b == 0xb4 {
        Some("Square Enix")
    } else if b == 0xb6 {
        Some("HAL Laboratory")
    } else if b == 0xb7 {
        Some("SNK")
    } else if b == 0xb9 {
        Some("Pony Canyon")
    } else if b == 0xba {
        Some("Culture Brain")
    } else if b == 0xbb {
        Some("Sunsoft")
    } else if b == 0xbd {
        Some("Sony Imagesoft")
    } else if b == 0xbf {
        Some("Sammy")
    } else if b == 0xc0 {
        Some("Taito")
    } else if b == 0xc2 {
        Some("Kemco")
    } else if b == 0xc3 {
        Some("Squaresoft")
    } else if b == 0xc4 {
        Some("Tokuma Shoten Intermedia")
    } else if b == 0xc5 {
        Some("Data East")
    } else if b == 0xc6 {
        Some("Tonkinhouse")
    } else if b == 0xc8 {
        Some("Koei")
    } else if b == 0xc9 {
        Some("UFL")
    } else if b == 0xca {
        Some("Ultra")
    } else if b == 0xcb {
        Some("Vap")
    } else if b == 0xcc {
        Some("Use Corporation")
    } else if b == 0xcd {
        Some("Meldac")
    } else if b == 0xce {
        Some(".Pony Canyon or")
    } else if b == 0xcf {
        Some("Angel")
    } else if b == 0xd0 {
        Some("Taito")
    } else if b == 0xd1 {
        Some("Sofel")
    } else if b == 0xd2 {
        Some("Quest")
    } else if b == 0xd3 {
        Some("Sigma Enterprises")
    } else if b == 0xd4 {
        Some("ASK Kodansha Co.")
    } else if b == 0xd6 {
        Some("Naxat Soft")
    } else if b == 0xd7 {
        Some("Copya System")
    } else if b == 0xd9 {
        Some("Banpresto")
    } else if b == 0xda {
        Some("Tomy")
    } else if b == 0xdb {
        Some("LJN")
    } else if b == 0xdd {
        Some("NCS")
    } else if b == 0xde {
        Some("Human")
    } else if b == 0xdf {
        Some("Altron")
    } else if b == 0xe0 {
        Some("Jaleco")
    } else if b == 0xe1 {
        Some("Towa Chiki")
    } else if b == 0xe2 {
        Some("Yutaka")
    } else if b == 0xe3 {
        Some("Varie")
    } else if b == 0xe5 {
        Some("Epcoh")
    } else if b == 0xe7 {
        Some("Athena")
    } else if b == 0xe8 {
        Some("Asmik ACE Entertainment")
    } else if b == 0xe9 {
        Some("Natsume")
    } else if b == 0xea {
        Some("King Records")
    } else if b == 0xeb {
        Some("Atlus")
    } else if b == 0xec {
        Some("Epic/Sony Records")
    } else if b == 0xee {
        Some("IGS")
    } else if b == 0xf0 {
        Some("A Wave")
    } else if b == 0xf3 {
        Some("Extreme Entertainment")
    } else if b == 0xff {
        Some("LJN")
    } else {
        None
    }
}

/// The new licensee names, by two-character code.
pub open spec fn new_publisher_spec(code: Seq<char>) -> Option<&'static str> {
    if code.len() != 2 {
        None
    } else {
        let c0 = code[0];
        let c1 = code[1];
        if c0 == '0' && c1 == '0' {
            Some("None")
        } else if c0 == '0' && c1 == '1' {
            Some("Nintendo R&D1")
        } else if c0 == '0' && c1 == '8' {
            Some("Capcom")
        } else if c0 == '1' && c1 == '3' {
            Some("Electronic Arts")
        } else if c0 == '1' && c1 == '8' {
            Some("Hudson Soft")
        } else if c0 == '1' && c1 == '9' {
            Some("b-ai")
        } else if c0 == '2' && c1 == '0' {
            Some("kss")
        } else if c0 == '2' && c1 == '2' {
            Some("pow")
        } else if c0 == '2' && c1 == '4' {
            Some("PCM Complete")
        } else if c0 == '2' && c1 == '5' {
            Some("san-x")
        } else if c0 == '2' && c1 == '8' {
            Some("Kemco Japan")
        } else if c0 == '2' && c1 == '9' {
            Some("seta")
        } else if c0 == '3' && c1 == '0' {
            Some("Viacom")
        } else if c0 == '3' && c1 == '1' {
            Some("Nintendo")
        } else if c0 == '3' && c1 == '2' {
            Some("Bandai")
        } else if c0 == '3' && c1 == '3' {
            Some("Ocean/Acclaim")
        } else if c0 == '3' && c1 == '4' {
            Some("Konami")
        } else if c0 == '3' && c1 == '5' {
            Some("Hector")
        } else if c0 == '3' && c1 == '7' {
            Some("Taito")
        } else if c0 == '3' && c1 == '8' {
            Some("Hudson")
        } else if c0 == '3' && c1 == '9' {
            Some("Banpresto")
        } else if c0 == '4' && c1 == '1' {
            Some("Ubi Soft")
        } else if c0 == '4' && c1 == '2' {
            Some("Atlus")
        } else if c0 == '4' && c1 == '4' {
            Some("Malibu")
        } else if c0 == '4' && c1 == '6' {
            Some("angel")
        } else if c0 == '4' && c1 == '7' {
            Some("Bullet-Proof")
        } else if c0 == '4' && c1 == '9' {
            Some("irem")
        } else if c0 == '5' && c1 == '0' {
            Some("Absolute")
        } else if c0 == '5' && c1 == '1' {
            Some("Acclaim")
        } else if c0 == '5' && c1 == '2' {
            Some("Activision")
        } else if c0 == '5' && c1 == '3' {
            Some("American sammy")
        } else if c0 == '5' && c1 == '4' {
            Some("Konami")
        } else if c0 == '5' && c1 == '5' {
            Some("Hi tech entertainment")
        } else if c0 == '5' && c1 == '6' {
            Some("LJN")
        } else if c0 == '5' && c1 == '7' {
            Some("Matchbox")
        } else if c0 == '5' && c1 == '8' {
            Some("Mattel")
        } else if c0 == '5' && c1 == '9' {
            Some("Milton Bradley")
        } else if c0 == '6' && c1 == '0' {
            Some("Titus")
        } else if c0 == '6' && c1 == '1' {
            Some("Virgin")
        } else if c0 == '6' && c1 == '4' {
            Some("LucasArts")
        } else if c0 == '6' && c1 == '7' {
            Some("Ocean")
        } else if c0 == '6' && c1 == '9' {
            Some("Electronic Arts")
        } else if c0 == '7' && c1 == '0' {
            Some("Infogrames")
        } else if c0 == '7' && c1 == '1' {
            Some("Interplay")
        } else if c0 == '7' && c1 == '2' {
            Some("Broderbund")
        } else if c0 == '7' && c1 == '3' {
            Some("sculptured")
        } else if c0 == '7' && c1 == '5' {
            Some("sci")
        } else if c0 == '7' && c1 == '8' {
            Some("THQ")
        } else if c0 == '7' && c1 == '9' {
            Some("Accolade")
        } else if c0 == '8' && c1 == '0' {
            Some("misawa")
        } else if c0 == '8' && c1 == '3' {
            Some("lozc")
        } else if c0 == '8' && c1 == '6' {
            Some("Tokuma Shoten Intermedia")
        } else if c0 == '8' && c1 == '7' {
            Some("Tsukuda Original")
        } else if c0 == '9' && c1 == '1' {
            Some("Chunsoft")
        } else if c0 == '9' && c1 == '2' {
            Some("Video system")
        } else if c0 == '9' && c1 == '3' {
            Some("Ocean/Acclaim")
        } else if c0 == '9' && c1 == '5' {
            Some("Varie")
        } else if c0 == '9' && c1 == '6' {
            Some("Yonezawa/s’pal")
        } else if c0 == '9' && c1 == '7' {
            Some("Kaneko")
        } else if c0 == '9' && c1 == '9' {
            Some("Pack in soft")
        } else if c0 == '9' && c1 == 'H' {
            Some("Bottom Up")
        } else if c0 == 'A' && c1 == '4' {
            Some("Konami (Yu-Gi-Oh!)")
        } else {
            None
        }
    }
}

fn new_publisher_lookup(code: &str) -> (s: Option<&'static str>)
    ensures
        s == new_publisher_spec(code@),
{
    if code.unicode_len() != 2 {
        None
    } else {
        let c0 = code.get_char(0);
        let c1 = code.get_char(1);
        if c0 == '0' && c1 == '0' {
            Some("None")
        } else if c0 == '0' && c1 == '1' {
            Some("Nintendo R&D1")
        } else if c0 == '0' && c1 == '8' {
            Some("Capcom")
        } else if c0 == '1' && c1 == '3' {
            Some("Electronic Arts")
        } else if c0 == '1' && c1 == '8' {
            Some("Hudson Soft")
        } else if c0 == '1' && c1 == '9' {
            Some("b-ai")
        } else if c0 == '2' && c1 == '0' {
            Some("kss")
        } else if c0 == '2' && c1 == '2' {
            Some("pow")
        } else if c0 == '2' && c1 == '4' {
            Some("PCM Complete")
        } else if c0 == '2' && c1 == '5' {
            Some("san-x")
        } else if c0 == '2' && c1 == '8' {
            Some("Kemco Japan")
        } else if c0 == '2' && c1 == '9' {
            Some("seta")
        } else if c0 == '3' && c1 == '0' {
            Some("Viacom")
        } else if c0 == '3' && c1 == '1' {
            Some("Nintendo")
        } else if c0 == '3' && c1 == '2' {
            Some("Bandai")
        } else if c0 == '3' && c1 == '3' {
            Some("Ocean/Acclaim")
        } else if c0 == '3' && c1 == '4' {
            Some("Konami")
        } else if c0 == '3' && c1 == '5' {
            Some("Hector")
        } else if c0 == '3' && c1 == '7' {
            Some("Taito")
        } else if c0 == '3' && c1 == '8' {
            Some("Hudson")
        } else if c0 == '3' && c1 == '9' {
            Some("Banpresto")
        } else if c0 == '4' && c1 == '1' {
            Some("Ubi Soft")
        } else if c0 == '4' && c1 == '2' {
            Some("Atlus")
        } else if c0 == '4' && c1 == '4' {
            Some("Malibu")
        } else if c0 == '4' && c1 == '6' {
            Some("angel")
        } else if c0 == '4' && c1 == '7' {
            Some("Bullet-Proof")
        } else if c0 == '4' && c1 == '9' {
            Some("irem")
        } else if c0 == '5' && c1 == '0' {
            Some("Absolute")
        } else if c0 == '5' && c1 == '1' {
            Some("Acclaim")
        } else if c0 == '5' && c1 == '2' {
            Some("Activision")
        } else if c0 == '5' && c1 == '3' {
            Some("American sammy")
        } else if c0 == '5' && c1 == '4' {
            Some("Konami")
        } else if c0 == '5' && c1 == '5' {
            Some("Hi tech entertainment")
        } else if c0 == '5' && c1 == '6' {
            Some("LJN")
        } else if c0 == '5' && c1 == '7' {
            Some("Matchbox")
        } else if c0 == '5' && c1 == '8' {
            Some("Mattel")
        } else if c0 == '5' && c1 == '9' {
            Some("Milton Bradley")
        } else if c0 == '6' && c1 == '0' {
            Some("Titus")
        } else if c0 == '6' && c1 == '1' {
            Some("Virgin")
        } else if c0 == '6' && c1 == '4' {
            Some("LucasArts")
        } else if c0 == '6' && c1 == '7' {
            Some("Ocean")
        } else if c0 == '6' && c1 == '9' {
            Some("Electronic Arts")
        } else if c0 == '7' && c1 == '0' {
            Some("Infogrames")
        } else if c0 == '7' && c1 == '1' {
            Some("Interplay")
        } else if c0 == '7' && c1 == '2' {
            Some("Broderbund")
        } else if c0 == '7' && c1 == '3' {
            Some("sculptured")
        } else if c0 == '7' && c1 == '5' {
            Some("sci")
        } else if c0 == '7' && c1 == '8' {
            Some("THQ")
        } else if c0 == '7' && c1 == '9' {
            Some("Accolade")
        } else if c0 == '8' && c1 == '0' {
            Some("misawa")
        } else if c0 == '8' && c1 == '3' {
            Some("lozc")
        } else if c0 == '8' && c1 == '6' {
            Some("Tokuma Shoten Intermedia")
        } else if c0 == '8' && c1 == '7' {
            Some("Tsukuda Original")
        } else if c0 == '9' && c1 == '1' {
            Some("Chunsoft")
        } else if c0 == '9' && c1 == '2' {
            Some("Video system")
        } else if c0 == '9' && c1 == '3' {
            Some("Ocean/Acclaim")
        } else if c0 == '9' && c1 == '5' {
            Some("Varie")
        } else if c0 == '9' && c1 == '6' {
            Some("Yonezawa/s’pal")
        } else if c0 == '9' && c1 == '7' {
            Some("Kaneko")
        } else if c0 == '9' && c1 == '9' {
            Some("Pack in soft")
        } else if c0 == '9' && c1 == 'H' {
            Some("Bottom Up")
        } else if c0 == 'A' && c1 == '4' {
            Some("Konami (Yu-Gi-Oh!)")
        } else {
            None
        }
    }
}

/// The hexadecimal digit, in upper case.
pub open spec fn hex_digit(d: u8) -> char {
    if d < 10 {
        (48 + d) as char
    } else {
        (55 + d) as char
    }
}

/// A byte as two upper case hexadecimal digits.
pub open spec fn hex2(b: u8) -> Seq<char> {
    seq![hex_digit(b / 16), hex_digit(b % 16)]
}

pub fn hex_digit_char(d: u8) -> (c: char)
    requires
        d < 16,
    ensures
        c == hex_digit(d),
{
    if d < 10 {
        (48 + d) as char
    } else {
        (55 + d) as char
    }
}

pub open spec fn old_publisher_name(b: u8) -> Seq<char> {
    match old_publisher_spec(b) {
        Some(s) => s@,
        None => "Unknown (OLD) ["@ + hex2(b) + "]"@,
    }
}

pub fn get_old_publisher(byte: u8) -> (s: String)
    ensures
        s@ == old_publisher_name(byte),
{
    match old_publisher_lookup(byte) {
        Some(name) => String::from_str(name),
        None => {
            let mut s = String::from_str("Unknown (OLD) [");
            push_char(&mut s, hex_digit_char(byte / 16));
            push_char(&mut s, hex_digit_char(byte % 16));
            s.append("]");
            assert(s@ =~= "Unknown (OLD) ["@ + hex2(byte) + "]"@);
            s
        },
    }
}

/// The upper-case form of a string, as `str::to_uppercase` computes it.
pub uninterp spec fn uppercase(s: Seq<char>) -> Seq<char>;

/// Calls `str::to_uppercase` of std, which maps each character to its
/// upper-case form; the result is named `uppercase` of the argument.
#[verifier::external_body]
fn to_upper(s: &str) -> (r: String)
    ensures
        r@ == uppercase(s@),
{
    s.to_uppercase()
}

/// The new licensee name of `code`, looked up by `upper`, its upper-case
/// form; an unknown code is shown as given.
pub open spec fn new_publisher_text(code: Seq<char>, upper: Seq<char>) -> Seq<char> {
    match new_publisher_spec(upper) {
        Some(s) => s@,
        None => "Unknown (NEW) [\""@ + code + "\"]"@,
    }
}

pub open spec fn new_publisher_name(code: Seq<char>) -> Seq<char> {
    new_publisher_text(code, uppercase(code))
}

/// The new licensee name of `code`, given `upper`, its upper-case form.
pub fn new_publisher_from_upper(code: &str, upper: &str) -> (s: String)
    ensures
        s@ == new_publisher_text(code@, upper@),
{
    match new_publisher_lookup(upper) {
        Some(name) => String::from_str(name),
        None => {
            let mut s = String::from_str("Unknown (NEW) [\"");
            s.append(code);
            s.append("\"]");
            s
        },
    }
}

pub fn get_new_publisher(code: &str) -> (s: String)
    ensures
        s@ == new_publisher_name(code@),
{
    let upper = to_upper(code);
    new_publisher_from_upper(code, upper.as_str())
}

/// The header fields, with text as characters.
pub struct HeaderModel {
    pub title: Seq<char>,
    pub manufacturing_code: Seq<char>,
    pub gbc_support: GBCSupport,
    pub publisher: Seq<char>,
    pub mapper: MapperType,
    pub battery_present: bool,
    pub ram_present: bool,
    pub rom_banks: u32,
    pub ram_banks: u32,
    pub rom_version: u8,
    pub header_checksum: u8,
    pub global_checksum: u16,
}

#[derive(Debug)]
pub struct Header {
    pub title: String,
    pub manufacturing_code: String,
    pub gbc_support: GBCSupport,
    pub publisher: String,
    pub mapper: MapperType,
    pub battery_present: bool,
    pub ram_present: bool,
    pub rom_banks: u32,
    pub ram_banks: u32,
    pub rom_version: u8,
    pub header_checksum: u8,
    pub global_checksum: u16,
}

impl View for Header {
    type V = HeaderModel;

    open spec fn view(&self) -> HeaderModel {
        HeaderModel {
            title: self.title@,
            manufacturing_code: self.manufacturing_code@,
            gbc_support: self.gbc_support,
            publisher: self.publisher@,
            mapper: self.mapper,
            battery_present: self.battery_present,
            ram_present: self.ram_present,
            rom_banks: self.rom_banks,
            ram_banks: self.ram_banks,
            rom_version: self.rom_version,
            header_checksum: self.header_checksum,
            global_checksum: self.global_checksum,
        }
    }
}

/// Header bytes the parser accepts (`b` starts at $0100): long enough,
/// title, manufacturing code and new licensee code in UTF-8, and cartridge
/// type, rom size and ram size codes that are supported.
pub open spec fn header_parseable(b: Seq<u8>) -> bool {
    &&& b.len() >= 0x50
    &&& (valid_utf8(b.subrange(0x34, 0x44)) || valid_utf8(b.subrange(0x34, 0x3f)))
    &&& valid_utf8(b.subrange(0x3f, 0x43))
    &&& (b[0x4b] == 0x33 ==> valid_utf8(b.subrange(0x44, 0x46)))
    &&& cart_type_spec(b[0x47]) is Some
    &&& b[0x48] <= 8
    &&& ram_banks_spec(b[0x49]) is Some
}

/// $0134-$0143, or $0134-$013E when the longer range is not UTF-8.
pub open spec fn title_spec(b: Seq<u8>) -> Seq<char> {
    if valid_utf8(b.subrange(0x34, 0x44)) {
        decode_utf8(b.subrange(0x34, 0x44))
    } else {
        decode_utf8(b.subrange(0x34, 0x3f))
    }
}

/// The old licensee code at $014B, or the new one at $0144-$0145 when the old
/// one is $33.
pub open spec fn publisher_spec(b: Seq<u8>) -> Seq<char> {
    if b[0x4b] == 0x33 {
        new_publisher_name(decode_utf8(b.subrange(0x44, 0x46)))
    } else {
        old_publisher_name(b[0x4b])
    }
}

/// The header that parseable bytes describe.
pub open spec fn header_spec(b: Seq<u8>) -> HeaderModel {
    let ct = cart_type_spec(b[0x47]).unwrap();
    HeaderModel {
        title: title_spec(b),
        manufacturing_code: decode_utf8(b.subrange(0x3f, 0x43)),
        gbc_support: <GBCSupport as vstd::std_specs::convert::FromSpec<u8>>::from_spec(b[0x43]),
        publisher: publisher_spec(b),
        mapper: ct.mapper_type,
        battery_present: ct.battery_present,
        ram_present: ct.ram_present,
        rom_banks: rom_banks_spec(b[0x48]),
        ram_banks: ram_banks_spec(b[0x49]).unwrap(),
        rom_version: b[0x4c],
        header_checksum: b[0x4d],
        global_checksum: (b[0x4e] * 256 + b[0x4f]) as u16,
    }
}

/// The bytes `start..end` of `b`, copied.
pub fn sub_vec(b: &Vec<u8>, start: usize, end: usize) -> (v: Vec<u8>)
    requires
        start <= end <= b@.len(),
    ensures
        v@ == b@.subrange(start as int, end as int),
{
    let mut v: Vec<u8> = Vec::new();
    let mut i = start;
    while i < end
        invariant
            start <= i <= end <= b@.len(),
            v@ == b@.subrange(start as int, i as int),
        decreases end - i,
    {
        v.push(b[i]);
        i += 1;
        assert(v@ =~= b@.subrange(start as int, i as int));
    }
    v
}

fn is_utf8(b: &Vec<u8>, start: usize, end: usize) -> (ok: bool)
    requires
        start <= end <= b@.len(),
    ensures
        ok == valid_utf8(b@.subrange(start as int, end as int)),
{
    string_from_utf8(sub_vec(b, start, end)).is_some()
}

/// Whether `read_header` accepts these bytes.
pub fn header_supported(bytes: &Vec<u8>) -> (ok: bool)
    ensures
        ok == header_parseable(bytes@),
{
    if bytes.len() < 0x50 {
        return false;
    }
    let title_ok = is_utf8(bytes, 0x34, 0x44) || is_utf8(bytes, 0x34, 0x3f);
    let code_ok = is_utf8(bytes, 0x3f, 0x43);
    let lic_ok = bytes[0x4b] != 0x33 || is_utf8(bytes, 0x44, 0x46);
    let type_ok = cart_type_lookup(bytes[0x47]).is_some();
    let ram_code = bytes[0x49];
    let ram_ok = ram_code == 0 || ram_code == 2 || ram_code == 3 || ram_code == 4 || ram_code
        == 5;
    title_ok && code_ok && lic_ok && type_ok && bytes[0x48] <= 8 && ram_ok
}

fn decode(b: &Vec<u8>, start: usize, end: usize) -> (s: String)
    requires
        start <= end <= b@.len(),
        valid_utf8(b@.subrange(start as int, end as int)),
    ensures
        s@ == decode_utf8(b@.subrange(start as int, end as int)),
{
    match string_from_utf8(sub_vec(b, start, end)) {
        Some(s) => s,
        None => {
            proof {
                assert(false);
            }
            String::new()
        },
    }
}

impl Header {
    pub fn new() -> (h: Self)
        ensures
            h@.title == Seq::<char>::empty(),
            h@.manufacturing_code == Seq::<char>::empty(),
            h@.gbc_support == GBCSupport::Unknown,
            h@.publisher == Seq::<char>::empty(),
            h@.mapper == MapperType::NoMbc,
            !h@.battery_present,
            !h@.ram_present,
            h@.rom_banks == 0,
            h@.ram_banks == 0,
            h@.rom_version == 0,
            h@.header_checksum == 0,
            h@.global_checksum == 0,
    {
        Self {
            title: String::new(),
            manufacturing_code: String::new(),
            gbc_support: GBCSupport::Unknown,
            publisher: String::new(),
            mapper: MapperType::NoMbc,
            battery_present: false,
            ram_present: false,
            rom_banks: 0,
            ram_banks: 0,
            rom_version: 0,
            header_checksum: 0,
            global_checksum: 0,
        }
    }

    /// Reads the header from `bytes`, which start at $0100.
    pub fn read_header(&mut self, bytes: &Vec<u8>) -> (r: GbResult<()>)
        requires
            header_parseable(bytes@),
        ensures
            final(self)@ == header_spec(bytes@),
            r.is_ok(),
    {
        // $0134-$0143 title; if that is not UTF-8, only up to $013E, which
        // is the part only the title uses
        self.title = if is_utf8(bytes, 0x34, 0x44) {
            decode(bytes, 0x34, 0x44)
        } else {
            decode(bytes, 0x34, 0x3f)
        };

        // $013F-$0142 manufacturing code (shared with the title space)
        self.manufacturing_code = decode(bytes, 0x3f, 0x43);

        // $0143 CGB flag
        self.gbc_support = GBCSupport::from(bytes[0x43]);

        // $014B old licensee code; $33 means the new code at $0144-$0145
        let code = bytes[0x4b];
        self.publisher = if code == 0x33 {
            let ascii_code = decode(bytes, 0x44, 0x46);
            get_new_publisher(ascii_code.as_str())
        } else {
            get_old_publisher(code)
        };

        // $0147 cartridge type
        let info = get_cart_type(bytes[0x47]);
        self.battery_present = info.battery_present;
        self.ram_present = info.ram_present;
        self.mapper = info.mapper_type;

        // $0148 rom size
        self.rom_banks = get_rom_banks(bytes[0x48]);

        // $0149 ram size
        self.ram_banks = get_ram_banks(bytes[0x49]);

        // $014C mask rom version
        self.rom_version = bytes[0x4c];

        // $014D header checksum
        self.header_checksum = bytes[0x4d];

        // $014E-$014F global checksum, big endian
        self.global_checksum = bytes[0x4e] as u16 * 256 + bytes[0x4f] as u16;
        Ok(())
    }
}

} // verus!
