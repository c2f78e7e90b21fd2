//! Parsing the ROM container into program data, graphics data and a mapper.
//!
//! Container layout: bytes 0 to 3 hold the magic tag; byte 4 the count of
//! 16KB program banks; byte 5 the count of 8KB graphics banks; bytes 6 and 7
//! control flags (including the two halves of the mapper ID); bytes 8 to 15
//! must be zero; an optional 512-byte trainer follows if flagged; then the
//! program data, then the graphics data.

use crate::cartridge::mappers::{MapperKind, Nrom128, Nrom256};
use crate::cartridge::mirroring_type::MirroringType;
use crate::cartridge::{CHR_ROM_BANK_SIZE, PRG_ROM_BANK_SIZE};
use crate::errors::{EmulatorError, RomFormatError};
use vstd::prelude::*;
use vstd::slice::{slice_index_get, slice_subrange, slice_to_vec};

verus! {

/// First control-flag byte of the header: mirroring bit, battery bit,
/// trainer bit, four-screen bit, and the low half of the mapper ID.
#[derive(Debug, Clone, Copy, PartialEq, Eq, Structural)]
pub struct ControlByte1(pub u8);

impl ControlByte1 {
    /// Vertical (true) versus horizontal (false) mirroring.
    pub fn mirroring(&self) -> (r: bool)
        ensures
            r == (self.0 % 2 == 1),
    {
        self.0 % 2 == 1
    }

    /// A 512-byte trainer precedes the program data.
    pub fn has_trainer(&self) -> (r: bool)
        ensures
            r == (self.0 / 4 % 2 == 1),
    {
        self.0 / 4 % 2 == 1
    }

    /// Four-screen VRAM layout, overriding the mirroring bit.
    pub fn four_screen_vram_layout(&self) -> (r: bool)
        ensures
            r == (self.0 / 8 % 2 == 1),
    {
        self.0 / 8 % 2 == 1
    }

    /// The low four bits of the mapper ID, taken from the byte's top nibble.
    pub fn mapper_bits_lo(&self) -> (r: u8)
        ensures
            r == self.0 / 16,
    {
        self.0 / 16
    }
}

/// Second control-flag byte of the header: container-version bits and the
/// high half of the mapper ID.
#[derive(Debug, Clone, Copy, PartialEq, Eq, Structural)]
pub struct ControlByte2(pub u8);

impl ControlByte2 {
    /// The container-format bits; zero means the supported first version.
    pub fn format_bits(&self) -> (r: u8)
        ensures
            r == self.0 / 4 % 4,
    {
        self.0 / 4 % 4
    }

    /// The high four bits of the mapper ID, kept in place in the top nibble.
    pub fn mapper_bits_hi(&self) -> (r: u8)
        ensures
            r == (self.0 / 16) * 16,
    {
        (self.0 / 16) * 16
    }
}

/// The mapper ID assembled from the two header control bytes.
pub open spec fn mapper_id_spec(byte6: u8, byte7: u8) -> u8 {
    (byte6 / 16 + (byte7 / 16) * 16) as u8
}

/// Whether the container starts with the four-byte magic tag.
pub open spec fn has_magic_tag(data: Seq<u8>) -> bool {
    &&& data[0] == 0x4e
    &&& data[1] == 0x45
    &&& data[2] == 0x53
    &&& data[3] == 0x1a
}

/// Whether the header encodes the supported container version.
pub open spec fn is_supported_version(data: Seq<u8>) -> bool {
    data[7] / 4 % 4 == 0
}

/// Whether the reserved header tail is zeroed.
pub open spec fn has_zero_padding(data: Seq<u8>) -> bool {
    forall|i: int| 8 <= i < 16 ==> data[i] == 0
}

/// Where the program data starts: after the header, and after the trainer
/// when one is flagged.
pub open spec fn prg_start_spec(data: Seq<u8>) -> int {
    if data[6] / 4 % 2 == 1 {
        528int
    } else {
        16int
    }
}

/// How many bytes of program data the header promises.
pub open spec fn prg_size_spec(data: Seq<u8>) -> int {
    data[4] * PRG_ROM_BANK_SIZE
}

/// How many bytes of graphics data the header promises.
pub open spec fn chr_size_spec(data: Seq<u8>) -> int {
    data[5] * CHR_ROM_BANK_SIZE
}

/// The mirroring arrangement the header selects.
pub open spec fn mirroring_spec(data: Seq<u8>) -> MirroringType {
    if data[6] / 8 % 2 == 1 {
        MirroringType::FourScreen
    } else if data[6] % 2 == 1 {
        MirroringType::Vertical
    } else {
        MirroringType::Horizontal
    }
}

/// The parsed cartridge: its raw program and graphics bytes, the selected
/// bank mapper, and the fixed mirroring arrangement.
pub struct Rom {
    pub prg_rom: Vec<u8>,
    pub chr_rom: Vec<u8>,
    pub mapper: MapperKind,
    pub screen_mirroring: MirroringType,
}

impl Rom {
    /// Parse a ROM container.
    ///
    /// Returns the parsed cartridge exactly when the magic tag is present,
    /// the container version is supported, the reserved header bytes are
    /// zero, the mapper ID is registered, and the file holds all the bytes
    /// the header promises — success is owed on every such container — and
    /// otherwise reports which check failed, in that order.
    pub fn new(data: &[u8]) -> (r: Result<Rom, EmulatorError>)
        ensures
            data@.len() < 16 ==> r == Err::<Rom, EmulatorError>(
                EmulatorError::RomFormat(RomFormatError::TruncatedHeader),
            ),
            data@.len() >= 16 && !has_magic_tag(data@) ==> r == Err::<Rom, EmulatorError>(
                EmulatorError::RomFormat(RomFormatError::MissingTag),
            ),
            data@.len() >= 16 && has_magic_tag(data@) && !is_supported_version(data@) ==> r
                == Err::<Rom, EmulatorError>(
                EmulatorError::RomFormat(RomFormatError::UnsupportedVersion),
            ),
            data@.len() >= 16 && has_magic_tag(data@) && is_supported_version(data@)
                && !has_zero_padding(data@) ==> r == Err::<Rom, EmulatorError>(
                EmulatorError::RomFormat(RomFormatError::HeaderPadding),
            ),
            data@.len() >= 16 && has_magic_tag(data@) && is_supported_version(data@)
                && has_zero_padding(data@) && mapper_id_spec(data@[6], data@[7]) != 0 ==> r
                == Err::<Rom, EmulatorError>(
                EmulatorError::RomFormat(
                    RomFormatError::UnsupportedMapper(mapper_id_spec(data@[6], data@[7])),
                ),
            ),
            data@.len() >= 16 && has_magic_tag(data@) && is_supported_version(data@)
                && has_zero_padding(data@) && mapper_id_spec(data@[6], data@[7]) == 0 && data@.len()
                < prg_start_spec(data@) + prg_size_spec(data@) ==> r == Err::<Rom, EmulatorError>(
                EmulatorError::RomFormat(RomFormatError::TruncatedPrgData),
            ),
            data@.len() >= 16 && has_magic_tag(data@) && is_supported_version(data@)
                && has_zero_padding(data@) && mapper_id_spec(data@[6], data@[7]) == 0 && data@.len()
                >= prg_start_spec(data@) + prg_size_spec(data@) && data@.len() < prg_start_spec(
                data@,
            ) + prg_size_spec(data@) + chr_size_spec(data@) ==> r == Err::<Rom, EmulatorError>(
                EmulatorError::RomFormat(RomFormatError::TruncatedChrData),
            ),
            data@.len() >= 16 && has_magic_tag(data@) && is_supported_version(data@)
                && has_zero_padding(data@) && mapper_id_spec(data@[6], data@[7]) == 0 && data@.len()
                >= prg_start_spec(data@) + prg_size_spec(data@) + chr_size_spec(data@) ==> r is Ok,
            r matches Ok(rom) ==> {
                &&& data@.len() >= 16
                &&& has_magic_tag(data@)
                &&& is_supported_version(data@)
                &&& has_zero_padding(data@)
                &&& mapper_id_spec(data@[6], data@[7]) == 0
                &&& rom.prg_rom@ == data@.subrange(
                    prg_start_spec(data@),
                    prg_start_spec(data@) + prg_size_spec(data@),
                )
                &&& rom.chr_rom@ == data@.subrange(
                    prg_start_spec(data@) + prg_size_spec(data@),
                    prg_start_spec(data@) + prg_size_spec(data@) + chr_size_spec(data@),
                )
                &&& rom.screen_mirroring == mirroring_spec(data@)
                &&& rom.mapper == (if data@[4] == 1 {
                    MapperKind::Nrom128(Nrom128 {})
                } else {
                    MapperKind::Nrom256(Nrom256 {})
                })
            },
    {
        if data.len() < 16 {
            return Err(EmulatorError::RomFormat(RomFormatError::TruncatedHeader));
        }
        let b0 = *slice_index_get(data, 0);
        let b1 = *slice_index_get(data, 1);
        let b2 = *slice_index_get(data, 2);
        let b3 = *slice_index_get(data, 3);
        if !(b0 == 0x4e && b1 == 0x45 && b2 == 0x53 && b3 == 0x1a) {
            return Err(EmulatorError::RomFormat(RomFormatError::MissingTag));
        }
        let control_byte1 = ControlByte1(*slice_index_get(data, 6));
        let control_byte2 = ControlByte2(*slice_index_get(data, 7));
        if control_byte2.format_bits() != 0 {
            return Err(EmulatorError::RomFormat(RomFormatError::UnsupportedVersion));
        }
        let mut i: usize = 8;
        while i < 16
            invariant
                8 <= i <= 16,
                data@.len() >= 16,
                has_magic_tag(data@),
                is_supported_version(data@),
                forall|j: int| 8 <= j < i ==> data@[j] == 0,
            decreases 16 - i,
        {
            if *slice_index_get(data, i) != 0 {
                return Err(EmulatorError::RomFormat(RomFormatError::HeaderPadding));
            }
            i += 1;
        }

        let mapper_id = control_byte1.mapper_bits_lo() + control_byte2.mapper_bits_hi();
        if mapper_id != 0 {
            return Err(EmulatorError::RomFormat(RomFormatError::UnsupportedMapper(mapper_id)));
        }

        let prg_rom_banks = *slice_index_get(data, 4);
        let chr_rom_banks = *slice_index_get(data, 5);
        let prg_rom_size = prg_rom_banks as usize * PRG_ROM_BANK_SIZE;
        let chr_rom_size = chr_rom_banks as usize * CHR_ROM_BANK_SIZE;
        let prg_rom_start: usize = if control_byte1.has_trainer() {
            16 + 512
        } else {
            16
        };
        let chr_rom_start = prg_rom_start + prg_rom_size;

        if data.len() < prg_rom_start + prg_rom_size {
            return Err(EmulatorError::RomFormat(RomFormatError::TruncatedPrgData));
        }
        if data.len() < chr_rom_start + chr_rom_size {
            return Err(EmulatorError::RomFormat(RomFormatError::TruncatedChrData));
        }

        let prg_rom = copy_range(data, prg_rom_start, prg_rom_size);
        let chr_rom = copy_range(data, chr_rom_start, chr_rom_size);

        let screen_mirroring = MirroringType::new(
            control_byte1.four_screen_vram_layout(),
            control_byte1.mirroring(),
        );
        let mapper = if prg_rom_banks == 1 {
            MapperKind::Nrom128(Nrom128 {})
        } else {
            MapperKind::Nrom256(Nrom256 {})
        };

        Ok(Rom { prg_rom, chr_rom, mapper, screen_mirroring })
    }
}

/// Copy `len` bytes of `data` starting at `start` into a fresh vector.
fn copy_range(data: &[u8], start: usize, len: usize) -> (r: Vec<u8>)
    requires
        start + len <= data@.len(),
    ensures
        r@ == data@.subrange(start as int, start as int + len as int),
{
    let _n: usize = data.len();
    slice_to_vec(slice_subrange(data, start, start + len))
}

} // verus!
