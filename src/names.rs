use vstd::prelude::*;

verus! {

/// The name of a cartridge-type code, where the code is assigned.
pub open spec fn cartridge_type_name_of(code: u8) -> Option<&'static str> {
    match code {
        0x00 => Some("ROM ONLY"),
        0x01 => Some("MBC1"),
        0x02 => Some("MBC1+RAM"),
        0x03 => Some("MBC1+RAM+BATTERY"),
        0x05 => Some("MBC2"),
        0x06 => Some("MBC2+BATTERY"),
        0x08 => Some("ROM+RAM"),
        0x09 => Some("ROM+RAM+BATTERY"),
        0x0B => Some("MMM01"),
        0x0C => Some("MMM01+RAM"),
        0x0D => Some("MMM01+RAM+BATTERY"),
        0x0F => Some("MBC3+TIMER+BATTERY"),
        0x10 => Some("MBC3+TIMER+RAM+BATTERY"),
        0x11 => Some("MBC3"),
        0x12 => Some("MBC3+RAM"),
        0x13 => Some("MBC3+RAM+BATTERY"),
        0x19 => Some("MBC5"),
        0x1A => Some("MBC5+RAM"),
        0x1B => Some("MBC5+RAM+BATTERY"),
        0x1C => Some("MBC5+RUMBLE"),
        0x1D => Some("MBC5+RUMBLE+RAM"),
        0x1E => Some("MBC5+RUMBLE+RAM+BATTERY"),
        0x20 => Some("MBC6"),
        0x22 => Some("MBC7+SENSOR+RUMBLE+RAM+BATTERY"),
        0xFC => Some("POCKET CAMERA"),
        0xFD => Some("BANDAI TAMA5"),
        0xFE => Some("HuC3"),
        0xFF => Some("HuC1+RAM+BATTERY"),
        _ => None,
    }
}

/// Looks up the name of a cartridge-type code.
pub fn cartridge_type_name(code: u8) -> (r: Option<&'static str>)
    ensures
        r == cartridge_type_name_of(code),
{
    match code {
        0x00 => Some("ROM ONLY"),
        0x01 => Some("MBC1"),
        0x02 => Some("MBC1+RAM"),
        0x03 => Some("MBC1+RAM+BATTERY"),
        0x05 => Some("MBC2"),
        0x06 => Some("MBC2+BATTERY"),
        0x08 => Some("ROM+RAM"),
        0x09 => Some("ROM+RAM+BATTERY"),
        0x0B => Some("MMM01"),
        0x0C => Some("MMM01+RAM"),
        0x0D => Some("MMM01+RAM+BATTERY"),
        0x0F => Some("MBC3+TIMER+BATTERY"),
        0x10 => Some("MBC3+TIMER+RAM+BATTERY"),
        0x11 => Some("MBC3"),
        0x12 => Some("MBC3+RAM"),
        0x13 => Some("MBC3+RAM+BATTERY"),
        0x19 => Some("MBC5"),
        0x1A => Some("MBC5+RAM"),
        0x1B => Some("MBC5+RAM+BATTERY"),
        0x1C => Some("MBC5+RUMBLE"),
        0x1D => Some("MBC5+RUMBLE+RAM"),
        0x1E => Some("MBC5+RUMBLE+RAM+BATTERY"),
        0x20 => Some("MBC6"),
        0x22 => Some("MBC7+SENSOR+RUMBLE+RAM+BATTERY"),
        0xFC => Some("POCKET CAMERA"),
        0xFD => Some("BANDAI TAMA5"),
        0xFE => Some("HuC3"),
        0xFF => Some("HuC1+RAM+BATTERY"),
        _ => None,
    }
}

/// The publisher that an old licensee code names, where the code is assigned.
pub open spec fn old_licensee_name_of(code: u8) -> Option<&'static str> {
    match code {
        0x00 => Some("None"),
        0x01 => Some("Nintendo"),
        0x08 => Some("Capcom"),
        0x09 => Some("HOT-B"),
        0x0A => Some("Jaleco"),
        0x0B => Some("Coconuts Japan"),
        0x0C => Some("Elite Systems"),
        0x13 => Some("EA (Electronic Arts)"),
        0x18 => Some("Hudson Soft"),
        0x19 => Some("ITC Entertainment"),
        0x1A => Some("Yanoman"),
        0x1D => Some("Japan Clary"),
        0x1F => Some("Virgin Games Ltd."),
        0x24 => Some("PCM Complete"),
        0x25 => Some("San-X"),
        0x28 => Some("Kemco"),
        0x29 => Some("SETA Corporation"),
        0x30 => Some("Infogrames"),
        0x31 => Some("Nintendo"),
        0x32 => Some("Bandai"),
        0x34 => Some("Konami"),
        0x35 => Some("HectorSoft"),
        0x38 => Some("Capcom"),
        0x39 => Some("Banpresto"),
        0x3C => Some("Entertainment Interactive"),
        0x3E => Some("Gremlin"),
        0x41 => Some("Ubi Soft"),
        0x42 => Some("Atlus"),
        0x44 => Some("Malibu Interactive"),
        0x46 => Some("Angel"),
        0x47 => Some("Spectrum HoloByte"),
        0x49 => Some("Irem"),
        0x4A => Some("Virgin Games Ltd."),
        0x4D => Some("Malibu Interactive"),
        0x4F => Some("U.S. Gold"),
        0x50 => Some("Absolute"),
        0x51 => Some("Acclaim Entertainment"),
        0x52 => Some("Activision"),
        0x53 => Some("Sammy USA Corporation"),
        0x54 => Some("GameTek"),
        0x55 => Some("Park Place"),
        0x56 => Some("LJN"),
        0x57 => Some("Matchbox"),
        0x59 => Some("Milton Bradley Company"),
        0x5A => Some("Mindscape"),
        0x5B => Some("Romstar"),
        0x5C => Some("Naxat Soft"),
        0x5D => Some("Tradewest"),
        0x60 => Some("Titus Interactive"),
        0x61 => Some("Virgin Games Ltd."),
        0x67 => Some("Ocean Software"),
        0x69 => Some("EA (Electronic Arts)"),
        0x6E => Some("Elite Systems"),
        0x6F => Some("Electro Brain"),
        0x70 => Some("Infogrames"),
        0x71 => Some("Interplay Entertainment"),
        0x72 => Some("Broderbund"),
        0x73 => Some("Sculptured Software"),
        0x75 => Some("The Sales Curve Limited"),
        0x78 => Some("THQ"),
        0x79 => Some("Accolade"),
        0x7A => Some("Triffix Entertainment"),
        0x7C => Some("MicroProse"),
        0x7F => Some("Kemco"),
        0x80 => Some("Misawa Entertainment"),
        0x83 => Some("LOZC G."),
        0x86 => Some("Tokuma Shoten"),
        0x8B => Some("Bullet-Proof Software"),
        0x8C => Some("Vic Tokai Corp."),
        0x8E => Some("Ape Inc."),
        0x8F => Some("I'Max"),
        0x91 => Some("Chunsoft Co."),
        0x92 => Some("Video System"),
        0x93 => Some("Tsubaraya Productions"),
        0x95 => Some("Varie"),
        0x96 => Some("Yonezawa/S'Pal"),
        0x97 => Some("Kemco"),
        0x99 => Some("Arc"),
        0x9A => Some("Nihon Bussan"),
        0x9B => Some("Tecmo"),
        0x9C => Some("Imagineer"),
        0x9D => Some("Banpresto"),
        0x9F => Some("Nova"),
        0xA1 => Some("Hori Electric"),
        0xA2 => Some("Bandai"),
        0xA4 => Some("Konami"),
        0xA6 => Some("Kawada"),
        0xA7 => Some("Takara"),
        0xA9 => Some("Technos Japan"),
        0xAA => Some("Broderbund"),
        0xAC => Some("Toei Animation"),
        0xAD => Some("Toho"),
        0xAF => Some("Namco"),
        0xB0 => Some("Acclaim Entertainment"),
        0xB1 => Some("ASCII Corporation or Nexsoft"),
        0xB2 => Some("Bandai"),
        0xB4 => Some("Square Enix"),
        0xB6 => Some("HAL Laboratory"),
        0xB7 => Some("SNK"),
        0xB9 => Some("Pony Canyon"),
        0xBA => Some("Culture Brain"),
        0xBB => Some("Sunsoft"),
        0xBD => Some("Sony Imagesoft"),
        0xBF => Some("Sammy Corporation"),
        0xC0 => Some("Taito"),
        0xC2 => Some("Kemco"),
        0xC3 => Some("Square"),
        0xC4 => Some("Tokuma Shoten"),
        0xC5 => Some("Data East"),
        0xC6 => Some("Tonkin House"),
        0xC8 => Some("Koei"),
        0xC9 => Some("UFL"),
        0xCA => Some("Ultra Games"),
        0xCB => Some("VAP, Inc."),
        0xCC => Some("Use Corporation"),
        0xCD => Some("Meldac"),
        0xCE => Some("Pony Canyon"),
        0xCF => Some("Angel"),
        0xD0 => Some("Taito"),
        0xD1 => Some("SOFEL (Software Engineering Lab)"),
        0xD2 => Some("Quest"),
        0xD3 => Some("Sigma Enterprises"),
        0xD4 => Some("ASK Kodansha Co."),
        0xD6 => Some("Naxat Soft"),
        0xD7 => Some("Copya System"),
        0xD9 => Some("Banpresto"),
        0xDA => Some("Tomy"),
        0xDB => Some("LJN"),
        0xDD => Some("Nippon Computer Systems"),
        0xDE => Some("Human Ent."),
        0xDF => Some("Altron"),
        0xE0 => Some("Jaleco"),
        0xE1 => Some("Towa Chiki"),
        0xE2 => Some("Yutaka"),
        0xE3 => Some("Varie"),
        0xE5 => Some("Epoch"),
        0xE7 => Some("Athena"),
        0xE8 => Some("Asmik Ace Entertainment"),
        0xE9 => Some("Natsume"),
        0xEA => Some("King Records"),
        0xEB => Some("Atlus"),
        0xEC => Some("Epic/Sony Records"),
        0xEE => Some("IGS"),
        0xF0 => Some("A Wave"),
        0xF3 => Some("Extreme Entertainment"),
        0xFF => Some("LJN"),
        _ => None,
    }
}

/// Looks up the publisher that an old licensee code names.
pub fn old_licensee_name(code: u8) -> (r: Option<&'static str>)
    ensures
        r == old_licensee_name_of(code),
{
    match code {
        0x00 => Some("None"),
        0x01 => Some("Nintendo"),
        0x08 => Some("Capcom"),
        0x09 => Some("HOT-B"),
        0x0A => Some("Jaleco"),
        0x0B => Some("Coconuts Japan"),
        0x0C => Some("Elite Systems"),
        0x13 => Some("EA (Electronic Arts)"),
        0x18 => Some("Hudson Soft"),
        0x19 => Some("ITC Entertainment"),
        0x1A => Some("Yanoman"),
        0x1D => Some("Japan Clary"),
        0x1F => Some("Virgin Games Ltd."),
        0x24 => Some("PCM Complete"),
        0x25 => Some("San-X"),
        0x28 => Some("Kemco"),
        0x29 => Some("SETA Corporation"),
        0x30 => Some("Infogrames"),
        0x31 => Some("Nintendo"),
        0x32 => Some("Bandai"),
        0x34 => Some("Konami"),
        0x35 => Some("HectorSoft"),
        0x38 => Some("Capcom"),
        0x39 => Some("Banpresto"),
        0x3C => Some("Entertainment Interactive"),
        0x3E => Some("Gremlin"),
        0x41 => Some("Ubi Soft"),
        0x42 => Some("Atlus"),
        0x44 => Some("Malibu Interactive"),
        0x46 => Some("Angel"),
        0x47 => Some("Spectrum HoloByte"),
        0x49 => Some("Irem"),
        0x4A => Some("Virgin Games Ltd."),
        0x4D => Some("Malibu Interactive"),
        0x4F => Some("U.S. Gold"),
        0x50 => Some("Absolute"),
        0x51 => Some("Acclaim Entertainment"),
        0x52 => Some("Activision"),
        0x53 => Some("Sammy USA Corporation"),
        0x54 => Some("GameTek"),
        0x55 => Some("Park Place"),
        0x56 => Some("LJN"),
        0x57 => Some("Matchbox"),
        0x59 => Some("Milton Bradley Company"),
        0x5A => Some("Mindscape"),
        0x5B => Some("Romstar"),
        0x5C => Some("Naxat Soft"),
        0x5D => Some("Tradewest"),
        0x60 => Some("Titus Interactive"),
        0x61 => Some("Virgin Games Ltd."),
        0x67 => Some("Ocean Software"),
        0x69 => Some("EA (Electronic Arts)"),
        0x6E => Some("Elite Systems"),
        0x6F => Some("Electro Brain"),
        0x70 => Some("Infogrames"),
        0x71 => Some("Interplay Entertainment"),
        0x72 => Some("Broderbund"),
        0x73 => Some("Sculptured Software"),
        0x75 => Some("The Sales Curve Limited"),
        0x78 => Some("THQ"),
        0x79 => Some("Accolade"),
        0x7A => Some("Triffix Entertainment"),
        0x7C => Some("MicroProse"),
        0x7F => Some("Kemco"),
        0x80 => Some("Misawa Entertainment"),
        0x83 => Some("LOZC G."),
        0x86 => Some("Tokuma Shoten"),
        0x8B => Some("Bullet-Proof Software"),
        0x8C => Some("Vic Tokai Corp."),
        0x8E => Some("Ape Inc."),
        0x8F => Some("I'Max"),
        0x91 => Some("Chunsoft Co."),
        0x92 => Some("Video System"),
        0x93 => Some("Tsubaraya Productions"),
        0x95 => Some("Varie"),
        0x96 => Some("Yonezawa/S'Pal"),
        0x97 => Some("Kemco"),
        0x99 => Some("Arc"),
        0x9A => Some("Nihon Bussan"),
        0x9B => Some("Tecmo"),
        0x9C => Some("Imagineer"),
        0x9D => Some("Banpresto"),
        0x9F => Some("Nova"),
        0xA1 => Some("Hori Electric"),
        0xA2 => Some("Bandai"),
        0xA4 => Some("Konami"),
        0xA6 => Some("Kawada"),
        0xA7 => Some("Takara"),
        0xA9 => Some("Technos Japan"),
        0xAA => Some("Broderbund"),
        0xAC => Some("Toei Animation"),
        0xAD => Some("Toho"),
        0xAF => Some("Namco"),
        0xB0 => Some("Acclaim Entertainment"),
        0xB1 => Some("ASCII Corporation or Nexsoft"),
        0xB2 => Some("Bandai"),
        0xB4 => Some("Square Enix"),
        0xB6 => Some("HAL Laboratory"),
        0xB7 => Some("SNK"),
        0xB9 => Some("Pony Canyon"),
        0xBA => Some("Culture Brain"),
        0xBB => Some("Sunsoft"),
        0xBD => Some("Sony Imagesoft"),
        0xBF => Some("Sammy Corporation"),
        0xC0 => Some("Taito"),
        0xC2 => Some("Kemco"),
        0xC3 => Some("Square"),
        0xC4 => Some("Tokuma Shoten"),
        0xC5 => Some("Data East"),
        0xC6 => Some("Tonkin House"),
        0xC8 => Some("Koei"),
        0xC9 => Some("UFL"),
        0xCA => Some("Ultra Games"),
        0xCB => Some("VAP, Inc."),
        0xCC => Some("Use Corporation"),
        0xCD => Some("Meldac"),
        0xCE => Some("Pony Canyon"),
        0xCF => Some("Angel"),
        0xD0 => Some("Taito"),
        0xD1 => Some("SOFEL (Software Engineering Lab)"),
        0xD2 => Some("Quest"),
        0xD3 => Some("Sigma Enterprises"),
        0xD4 => Some("ASK Kodansha Co."),
        0xD6 => Some("Naxat Soft"),
        0xD7 => Some("Copya System"),
        0xD9 => Some("Banpresto"),
        0xDA => Some("Tomy"),
        0xDB => Some("LJN"),
        0xDD => Some("Nippon Computer Systems"),
        0xDE => Some("Human Ent."),
        0xDF => Some("Altron"),
        0xE0 => Some("Jaleco"),
        0xE1 => Some("Towa Chiki"),
        0xE2 => Some("Yutaka"),
        0xE3 => Some("Varie"),
        0xE5 => Some("Epoch"),
        0xE7 => Some("Athena"),
        0xE8 => Some("Asmik Ace Entertainment"),
        0xE9 => Some("Natsume"),
        0xEA => Some("King Records"),
        0xEB => Some("Atlus"),
        0xEC => Some("Epic/Sony Records"),
        0xEE => Some("IGS"),
        0xF0 => Some("A Wave"),
        0xF3 => Some("Extreme Entertainment"),
        0xFF => Some("LJN"),
        _ => None,
    }
}

} // verus!
