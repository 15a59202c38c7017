use vstd::prelude::*;

use super::MemoryZone;

verus! {

/// Size of one cartridge ROM bank.
pub const ROM_BANK_SIZE: usize = 0x4000;

/// Header offset of the title.
pub const TITLE_START: usize = 0x0134;

/// Header offset one past the title.
pub const TITLE_END: usize = 0x0142;

/// Header offset of the mapper-type code.
pub const CARTRIDGE_TYPE_OFFSET: usize = 0x0147;

/// Header offset of the ROM-size code.
pub const ROM_SIZE_OFFSET: usize = 0x0148;

/// A mapper type as the header names it.
pub struct CartridgeType {
    pub name: &'static str,
    pub supported: bool,
    pub code: u8,
}

/// A ROM size as the header names it.
pub struct CartridgeRomSize {
    pub name: &'static str,
    pub num_banks: u8,
    pub code: u8,
}

/// Why a cartridge image was refused.
#[derive(Clone, Copy, Debug, PartialEq, Eq, Structural)]
pub enum CartridgeError {
    /// The image is empty or not a whole number of 16 KiB banks.
    BadSize,
    /// The title bytes are not valid UTF-8.
    InvalidTitle,
    /// The mapper-type code is not a known one.
    UnknownType { code: u8 },
    /// The ROM-size code is not a known one.
    UnknownRomSize { code: u8 },
    /// The mapper type is known but this core runs ROM-only cartridges alone.
    UnsupportedType { code: u8 },
}

/// Whether a mapper-type code is one the header format defines.
pub open spec fn is_known_cartridge_type(code: u8) -> bool {
    ||| 0x00 <= code <= 0x03
    ||| code == 0x05 || code == 0x06 || code == 0x08 || code == 0x09
    ||| 0x0B <= code <= 0x0D
    ||| 0x0F <= code <= 0x13
    ||| 0x19 <= code <= 0x1F
    ||| 0xFD <= code
}

/// The number of banks a ROM-size code stands for, when it is a known one.
pub open spec fn rom_size_banks(code: u8) -> Option<u8> {
    if code <= 0x06 {
        Some((2 * pow2(code as nat)) as u8)
    } else if code == 0x52 {
        Some(72)
    } else if code == 0x53 {
        Some(80)
    } else if code == 0x54 {
        Some(96)
    } else {
        None
    }
}

/// Two to the power `n`.
pub open spec fn pow2(n: nat) -> nat
    decreases n,
{
    if n == 0 {
        1
    } else {
        2 * pow2((n - 1) as nat)
    }
}

/// The name the header format gives a mapper-type code ("" for an unknown code).
pub open spec fn cartridge_type_name(code: u8) -> &'static str {
    match code {
        0x00 => "ROM only",
        0x01 => "ROM+MBC1",
        0x02 => "ROM+MBC1+RAM",
        0x03 => "ROM+MBC1+RAM+BATT",
        0x05 => "ROM+MBC2",
        0x06 => "ROM+MBC2+BATTERY",
        0x08 => "ROM+RAM",
        0x09 => "ROM+RAM+BATTERY",
        0x0B => "ROM+MMM01",
        0x0C => "ROM+MMM01+SRAM",
        0x0D => "ROM+MMM01+SRAM+BATT",
        0x0F => "ROM+MBC3+TIMER+BATT",
        0x10 => "ROM+MBC3+TIMER+RAM+BATT",
        0x11 => "ROM+MBC",
        0x12 => "ROM+MBC3+RAM",
        0x13 => "ROM+MBC3+RAM+BATT",
        0x19 => "ROM+MBC5",
        0x1A => "ROM+MBC5+RAM",
        0x1B => "ROM+MBC5+RAM+BATT",
        0x1C => "ROM+MBC5+RUMBLE",
        0x1D => "ROM+MBC5+RUMBLE+SRAM",
        0x1E => "ROM+MBC5+RUMBLE+SRAM+BATT",
        0x1F => "Pocket Camera",
        0xFD => "Bandai TAMA5",
        0xFE => "Hudson HuC-3",
        0xFF => "Hudson HuC-1",
        _ => "",
    }
}

/// The name the header format gives a ROM-size code ("" for an unknown code).
pub open spec fn rom_size_name(code: u8) -> &'static str {
    match code {
        0x00 => "256Kbit",
        0x01 => "512Kbit",
        0x02 => "1Mbit",
        0x03 => "2Mbit",
        0x04 => "4Mbit",
        0x05 => "8Mbit",
        0x06 => "16Mbit",
        0x52 => "9Mbit",
        0x53 => "10Mbit",
        0x54 => "12Mbit",
        _ => "",
    }
}

/// The mapper type of a code, when it is a known one.
pub fn cartridge_type_of(code: u8) -> (r: Option<CartridgeType>)
    ensures
        r is Some <==> is_known_cartridge_type(code),
        r matches Some(t) ==> t.code == code && t.supported == (code == 0x00) && t.name
            == cartridge_type_name(code),
{
    let name: &'static str = match code {
        0x00 => "ROM only",
        0x01 => "ROM+MBC1",
        0x02 => "ROM+MBC1+RAM",
        0x03 => "ROM+MBC1+RAM+BATT",
        0x05 => "ROM+MBC2",
        0x06 => "ROM+MBC2+BATTERY",
        0x08 => "ROM+RAM",
        0x09 => "ROM+RAM+BATTERY",
        0x0B => "ROM+MMM01",
        0x0C => "ROM+MMM01+SRAM",
        0x0D => "ROM+MMM01+SRAM+BATT",
        0x0F => "ROM+MBC3+TIMER+BATT",
        0x10 => "ROM+MBC3+TIMER+RAM+BATT",
        0x11 => "ROM+MBC",
        0x12 => "ROM+MBC3+RAM",
        0x13 => "ROM+MBC3+RAM+BATT",
        0x19 => "ROM+MBC5",
        0x1A => "ROM+MBC5+RAM",
        0x1B => "ROM+MBC5+RAM+BATT",
        0x1C => "ROM+MBC5+RUMBLE",
        0x1D => "ROM+MBC5+RUMBLE+SRAM",
        0x1E => "ROM+MBC5+RUMBLE+SRAM+BATT",
        0x1F => "Pocket Camera",
        0xFD => "Bandai TAMA5",
        0xFE => "Hudson HuC-3",
        0xFF => "Hudson HuC-1",
        _ => {
            return None;
        },
    };
    Some(CartridgeType { name, supported: code == 0x00, code })
}

/// The ROM size of a code, when it is a known one.
pub fn rom_size_of(code: u8) -> (r: Option<CartridgeRomSize>)
    ensures
        r is Some <==> rom_size_banks(code) is Some,
        r matches Some(s) ==> s.code == code && Some(s.num_banks) == rom_size_banks(code) && s.name
            == rom_size_name(code),
{
    proof {
        reveal_with_fuel(pow2, 7);
    }
    let (name, num_banks): (&'static str, u8) = match code {
        0x00 => ("256Kbit", 2),
        0x01 => ("512Kbit", 4),
        0x02 => ("1Mbit", 8),
        0x03 => ("2Mbit", 16),
        0x04 => ("4Mbit", 32),
        0x05 => ("8Mbit", 64),
        0x06 => ("16Mbit", 128),
        0x52 => ("9Mbit", 72),
        0x53 => ("10Mbit", 80),
        0x54 => ("12Mbit", 96),
        _ => {
            return None;
        },
    };
    Some(CartridgeRomSize { name, num_banks, code })
}

/// One 16 KiB bank of cartridge ROM. Bank 0 is mapped at 0x0000, the others at 0x4000.
pub struct RomBank {
    pub bank_number: u8,
    pub data: Vec<u8>,
}

impl MemoryZone for RomBank {
    open spec fn contents(&self) -> Seq<u8> {
        self.data@
    }

    open spec fn base(&self) -> int {
        if self.bank_number == 0 {
            0
        } else {
            0x4000
        }
    }

    open spec fn read_only(&self) -> bool {
        true
    }

    fn read(&self, address: u16) -> (r: u8) {
        self.data[self.global_address_to_local_address(address) as usize]
    }

    fn write(&mut self, address: u16, value: u8) {
    }
}

impl RomBank {
    fn global_address_to_local_address(&self, address: u16) -> (r: u16)
        requires
            self.bank_number != 0 ==> address >= 0x4000,
        ensures
            r == address - self.base(),
    {
        if self.bank_number == 0 {
            address
        } else {
            address - 0x4000
        }
    }
}

/// The text that a byte sequence decodes to as UTF-8, or `None` when it is not valid UTF-8.
pub uninterp spec fn utf8_text(bytes: Seq<u8>) -> Option<Seq<char>>;

/// Relies on `std::str::from_utf8`: it accepts a byte slice exactly when it is valid UTF-8 and
/// then yields its text, which `to_string` copies.
#[verifier::external_body]
fn decode_utf8(bytes: &[u8]) -> (r: Option<String>)
    ensures
        match r {
            Some(text) => utf8_text(bytes@) == Some(text@),
            None => utf8_text(bytes@) is None,
        },
{
    match std::str::from_utf8(bytes) {
        Ok(text) => Some(text.to_string()),
        Err(_) => None,
    }
}

/// The bytes of `data` from `start` up to `end`, copied.
pub fn copy_range(data: &Vec<u8>, start: usize, end: usize) -> (r: Vec<u8>)
    requires
        start <= end <= data.len(),
    ensures
        r@ == data@.subrange(start as int, end as int),
{
    let mut r: Vec<u8> = Vec::with_capacity(end - start);
    let mut i = start;
    while i < end
        invariant
            start <= i <= end <= data.len(),
            r@ == data@.subrange(start as int, i as int),
        decreases end - i,
    {
        r.push(data[i]);
        i = i + 1;
    }
    r
}

/// The title in an image's header, or `None` when its bytes are not valid UTF-8.
pub fn read_title(blob: &Vec<u8>) -> (r: Option<String>)
    requires
        blob.len() >= TITLE_END,
    ensures
        match r {
            Some(title) => utf8_text(title_bytes(blob@)) == Some(title@),
            None => utf8_text(title_bytes(blob@)) is None,
        },
{
    let title = copy_range(blob, TITLE_START, TITLE_END);
    decode_utf8(title.as_slice())
}

/// Whether an image has a size this core accepts: a whole, non-zero number of 16 KiB banks.
pub open spec fn is_valid_image_size(len: nat) -> bool {
    len > 0 && len % 0x4000 == 0
}

/// The header bytes that hold the title.
pub open spec fn title_bytes(blob: Seq<u8>) -> Seq<u8> {
    blob.subrange(0x0134, 0x0142)
}

/// Why an image is refused, checked in this order, or `None` when it is accepted.
pub open spec fn image_error(blob: Seq<u8>) -> Option<CartridgeError> {
    if !is_valid_image_size(blob.len()) {
        Some(CartridgeError::BadSize)
    } else if utf8_text(title_bytes(blob)) is None {
        Some(CartridgeError::InvalidTitle)
    } else if !is_known_cartridge_type(blob[0x0147]) {
        Some(CartridgeError::UnknownType { code: blob[0x0147] })
    } else if rom_size_banks(blob[0x0148]) is None {
        Some(CartridgeError::UnknownRomSize { code: blob[0x0148] })
    } else if blob[0x0147] != 0 {
        Some(CartridgeError::UnsupportedType { code: blob[0x0147] })
    } else {
        None
    }
}

/// A cartridge: its title, its ROM banks and the image they were cut from.
pub struct Cartridge {
    pub name: String,
    pub rom_banks: Vec<RomBank>,
    pub blob: Vec<u8>,
}

impl Cartridge {
    /// This cartridge is the one cut from `blob`: it keeps the image, its title is the image's
    /// title, and its banks are the image's 16 KiB slices in order.
    pub open spec fn parsed_from(&self, blob: Seq<u8>) -> bool {
        &&& self.wf()
        &&& self.blob@ == blob
        &&& utf8_text(title_bytes(blob)) == Some(self.name@)
        &&& self.rom_banks.len() == blob.len() / 0x4000
        &&& forall|i: int|
            0 <= i < self.rom_banks.len() ==> (#[trigger] self.rom_banks[i]).data@ == blob.subrange(
                i * 0x4000,
                i * 0x4000 + 0x4000,
            ) && self.rom_banks[i].bank_number == i % 256
    }

    /// There is a bank 0 to map at 0x0000.
    pub open spec fn wf(&self) -> bool {
        &&& self.rom_banks.len() >= 1
        &&& self.rom_banks[0].bank_number == 0
    }

    /// A cartridge whose bank 0 holds `data`, with no title and no image.
    pub fn new_dummy_cartridge(data: Vec<u8>) -> (r: Cartridge)
        ensures
            r.wf(),
            r.rom_banks.len() == 1,
            r.rom_banks[0].data@ == data@,
            r.name@.len() == 0,
            r.blob@.len() == 0,
    {
        let rom_bank_zero = RomBank { bank_number: 0, data };
        let mut rom_banks: Vec<RomBank> = Vec::new();
        rom_banks.push(rom_bank_zero);
        Cartridge { name: String::new(), blob: Vec::new(), rom_banks }
    }

    /// Cuts a cartridge image into 16 KiB banks and reads its header. The image is refused when it
    /// is not a whole number of banks, when its title is not UTF-8, when its mapper type or ROM
    /// size is unknown, and when its mapper is not "ROM only".
    pub fn parse_cartridge_from_blob(blob: Vec<u8>) -> (r: Result<Cartridge, CartridgeError>)
        ensures
            match image_error(blob@) {
                Some(e) => r == Err::<Cartridge, CartridgeError>(e),
                None => r is Ok,
            },
            r matches Ok(c) ==> c.parsed_from(blob@),
    {
        if blob.len() == 0 || blob.len() % ROM_BANK_SIZE != 0 {
            return Err(CartridgeError::BadSize);
        }
        let name = match read_title(&blob) {
            Some(name) => name,
            None => {
                return Err(CartridgeError::InvalidTitle);
            },
        };
        let type_code = blob[CARTRIDGE_TYPE_OFFSET];
        let cartridge_type = match cartridge_type_of(type_code) {
            Some(t) => t,
            None => {
                return Err(CartridgeError::UnknownType { code: type_code });
            },
        };
        let size_code = blob[ROM_SIZE_OFFSET];
        match rom_size_of(size_code) {
            Some(_) => {},
            None => {
                return Err(CartridgeError::UnknownRomSize { code: size_code });
            },
        }
        if !cartridge_type.supported {
            return Err(CartridgeError::UnsupportedType { code: type_code });
        }
        let num_banks_in_file = blob.len() / ROM_BANK_SIZE;
        let mut rom_banks: Vec<RomBank> = Vec::with_capacity(num_banks_in_file);
        let mut bank_index: usize = 0;
        while bank_index < num_banks_in_file
            invariant
                num_banks_in_file == blob.len() / 0x4000,
                blob.len() % 0x4000 == 0,
                bank_index <= num_banks_in_file,
                rom_banks.len() == bank_index,
                forall|i: int|
                    0 <= i < bank_index ==> (#[trigger] rom_banks[i]).data@ == blob@.subrange(
                        i * 0x4000,
                        i * 0x4000 + 0x4000,
                    ) && rom_banks[i].bank_number == i % 256,
            decreases num_banks_in_file - bank_index,
        {
            proof {
                vstd::arithmetic::div_mod::lemma_fundamental_div_mod(blob.len() as int, 0x4000);
            }
            let bank_start_pos = bank_index * ROM_BANK_SIZE;
            let bank_end_pos = bank_start_pos + ROM_BANK_SIZE;
            let data = copy_range(&blob, bank_start_pos, bank_end_pos);
            rom_banks.push(RomBank { bank_number: (bank_index % 256) as u8, data });
            bank_index = bank_index + 1;
        }
        Ok(Cartridge { name, rom_banks, blob })
    }

    /// The mapper type that the header names.
    pub fn get_cartridge_type(&self) -> (r: Result<CartridgeType, CartridgeError>)
        requires
            self.blob.len() > CARTRIDGE_TYPE_OFFSET,
        ensures
            is_known_cartridge_type(self.blob@[CARTRIDGE_TYPE_OFFSET as int]) <==> r is Ok,
            r matches Ok(t) ==> t.code == self.blob@[CARTRIDGE_TYPE_OFFSET as int] && t.supported
                == (t.code == 0) && t.name == cartridge_type_name(t.code),
            r matches Err(e) ==> e == (CartridgeError::UnknownType {
                code: self.blob@[CARTRIDGE_TYPE_OFFSET as int],
            }),
    {
        let type_code_in_rom = self.blob[CARTRIDGE_TYPE_OFFSET];
        match cartridge_type_of(type_code_in_rom) {
            Some(cartridge_type) => Ok(cartridge_type),
            None => Err(CartridgeError::UnknownType { code: type_code_in_rom }),
        }
    }

    /// The ROM size that the header names.
    pub fn get_rom_size(&self) -> (r: Result<CartridgeRomSize, CartridgeError>)
        requires
            self.blob.len() > ROM_SIZE_OFFSET,
        ensures
            rom_size_banks(self.blob@[ROM_SIZE_OFFSET as int]) is Some <==> r is Ok,
            r matches Ok(s) ==> s.code == self.blob@[ROM_SIZE_OFFSET as int] && Some(s.num_banks)
                == rom_size_banks(s.code) && s.name == rom_size_name(s.code),
            r matches Err(e) ==> e == (CartridgeError::UnknownRomSize {
                code: self.blob@[ROM_SIZE_OFFSET as int],
            }),
    {
        let size_code_in_rom = self.blob[ROM_SIZE_OFFSET];
        match rom_size_of(size_code_in_rom) {
            Some(size) => Ok(size),
            None => Err(CartridgeError::UnknownRomSize { code: size_code_in_rom }),
        }
    }
}

} // verus!
