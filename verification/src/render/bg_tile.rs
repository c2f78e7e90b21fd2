//! One background tile's place in the nametable and the attribute table.

use crate::errors::{EmulatorError, MemoryAccessError};
use crate::ppu::Ppu;
use vstd::prelude::*;

verus! {

/// A nametable entry: its nametable-relative address and the tile index
/// stored there.
#[derive(Debug, Clone, Copy, PartialEq, Eq, Structural)]
pub struct BgTile {
    pub address: u16,
    pub address_in_attr_table: u16,
}

impl BgTile {
    /// Look a nametable entry up in the picture unit's VRAM.
    pub fn new(address: u16, ppu: &Ppu) -> (r: Result<Self, EmulatorError>)
        ensures
            address < 2048 ==> r == Ok::<BgTile, EmulatorError>(
                BgTile { address, address_in_attr_table: ppu.vram@[address as int] as u16 },
            ),
            address >= 2048 ==> r == Err::<BgTile, EmulatorError>(
                EmulatorError::MemoryAccess(MemoryAccessError::InvalidPpuAddress(address)),
            ),
    {
        if address < 2048 {
            let address_in_attr_table = ppu.vram[address as usize] as u16;

            Ok(Self { address, address_in_attr_table })
        } else {
            Err(EmulatorError::MemoryAccess(MemoryAccessError::InvalidPpuAddress(address)))
        }
    }

    /// Which attribute-table byte governs this tile: one byte per 4x4 tile
    /// block, eight blocks per row.
    pub fn attribute_table_idx(&self) -> (r: usize)
        ensures
            r == (self.address as int / 32 / 4) * 8 + (self.address as int % 32) / 4,
    {
        self.row() / 4 * 8 + self.column() / 4
    }

    /// Where this tile's 4-entry palette starts in palette memory, given its
    /// attribute byte: the byte packs four 2-bit selectors, one per 2x2-tile
    /// sub-quadrant.
    pub fn palette_table_idx(&self, attribute_byte: u8) -> (r: u8)
        ensures
            ({
                let shift = ((self.address as int % 32) % 4 / 2) * 2 + ((self.address as int / 32)
                    % 4 / 2) * 4;
                r == 4 * ((attribute_byte as int / (if shift == 0 {
                    1int
                } else if shift == 2 {
                    4int
                } else if shift == 4 {
                    16int
                } else {
                    64int
                })) % 4) + 1
            }),
    {
        let col_half = self.column() % 4 / 2;
        let row_half = self.row() % 4 / 2;
        let divisor: u8 = if col_half * 2 + row_half * 4 == 0 {
            1
        } else if col_half * 2 + row_half * 4 == 2 {
            4
        } else if col_half * 2 + row_half * 4 == 4 {
            16
        } else {
            64
        };

        let palette_idx = (attribute_byte / divisor) % 4;

        4 * palette_idx + 1
    }

    /// The bounds of this tile's 16 bytes of pattern data in the selected
    /// bank: the first and last byte offset, inclusive.
    pub fn range(&self, bank: u16) -> (r: (usize, usize))
        requires
            bank <= 0x1000,
        ensures
            r.0 == bank + self.address_in_attr_table * 16,
            r.1 == bank + self.address_in_attr_table * 16 + 15,
    {
        let tile_addr = self.address_in_attr_table as usize;
        let bank = bank as usize;

        (bank + tile_addr * 16, bank + tile_addr * 16 + 15)
    }

    /// The tile's column in the 32-tile-wide nametable.
    pub fn column(&self) -> (r: usize)
        ensures
            r == self.address as int % 32,
    {
        (self.address % 32) as usize
    }

    /// The tile's row in the nametable.
    pub fn row(&self) -> (r: usize)
        ensures
            r == self.address as int / 32,
    {
        (self.address / 32) as usize
    }
}

} // verus!
