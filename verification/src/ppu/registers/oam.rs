//! Object Attribute Memory: the sprite table of 64 records of 4 bytes each.

use vstd::prelude::*;

verus! {

/// Number of sprite records held.
pub const OAM_SPRITE_COUNT: usize = 64;

/// Bytes per sprite record.
pub const SPRITE_DATA_SIZE: u8 = 4;

/// One sprite record: its screen position, its tile, and its attributes.
/// The bytes appear in memory in the order y, tile index, attributes, x.
#[derive(Debug, Default, Clone, Copy, PartialEq, Eq, Structural)]
pub struct SpriteData {
    pub x: u8,
    pub y: u8,
    pub index_number: u8,
    pub attributes: u8,
}

impl SpriteData {
    /// The screen column of pixel `x_offset` of the tile row, honouring the
    /// horizontal-flip attribute.
    pub fn x_pos(&self, x_offset: usize) -> (r: usize)
        requires
            x_offset <= 7,
        ensures
            r == (if self.attributes / 0x40 % 2 == 1 {
                self.x + 7 - x_offset
            } else {
                self.x + x_offset
            }),
    {
        if self.flip_horizontally() {
            self.x as usize + 7 - x_offset
        } else {
            self.x as usize + x_offset
        }
    }

    /// The screen row of pixel `y_offset` of the tile column, honouring the
    /// vertical-flip attribute.
    pub fn y_pos(&self, y_offset: usize) -> (r: usize)
        requires
            y_offset <= 7,
        ensures
            r == (if self.attributes / 0x80 % 2 == 1 {
                self.y + 7 - y_offset
            } else {
                self.y + y_offset
            }),
    {
        if self.flip_vertically() {
            self.y as usize + 7 - y_offset
        } else {
            self.y as usize + y_offset
        }
    }

    /// Which of the four sprite palettes the record selects.
    pub fn palette_index(&self) -> (r: u8)
        ensures
            r == self.attributes % 4,
    {
        self.attributes % 4
    }

    /// False puts the sprite in front of the background, true behind it.
    pub fn priority(&self) -> (r: bool)
        ensures
            r == (self.attributes / 0x20 % 2 == 1),
    {
        self.attributes / 0x20 % 2 == 1
    }

    /// Whether the tile is mirrored left to right.
    pub fn flip_horizontally(&self) -> (r: bool)
        ensures
            r == (self.attributes / 0x40 % 2 == 1),
    {
        self.attributes / 0x40 % 2 == 1
    }

    /// Whether the tile is mirrored top to bottom.
    pub fn flip_vertically(&self) -> (r: bool)
        ensures
            r == (self.attributes / 0x80 % 2 == 1),
    {
        self.attributes / 0x80 % 2 == 1
    }
}

/// The sprite table plus the byte-granular address its data port uses.
#[derive(Debug, Clone, Copy)]
pub struct Oam {
    pub sprites: [SpriteData; 64],
    pub address: u8,
}

/// The table after one byte is stored at the current address: the matching
/// field of the matching record is replaced and the address advances,
/// wrapping.
pub open spec fn oam_write_spec(o: Oam, value: u8) -> Oam {
    let i = o.address as int;
    let s = o.sprites@[i / 4];
    let s2 = if i % 4 == 0 {
        SpriteData { y: value, ..s }
    } else if i % 4 == 1 {
        SpriteData { index_number: value, ..s }
    } else if i % 4 == 2 {
        SpriteData { attributes: value, ..s }
    } else {
        SpriteData { x: value, ..s }
    };
    Oam {
        sprites: vstd::array::spec_array_update(o.sprites, i / 4, s2),
        address: ((o.address + 1) % 256) as u8,
    }
}

/// The byte visible at offset `i` of the 256-byte sprite memory.
pub open spec fn oam_byte_at(oam: Oam, i: int) -> u8 {
    let s = oam.sprites@[i / 4];
    if i % 4 == 0 {
        s.y
    } else if i % 4 == 1 {
        s.index_number
    } else if i % 4 == 2 {
        s.attributes
    } else {
        s.x
    }
}

impl Default for Oam {
    fn default() -> (r: Self)
        ensures
            r.address == 0,
            forall|i: int| 0 <= i < 256 ==> oam_byte_at(r, i) == 0,
    {
        Oam {
            sprites: [SpriteData { x: 0, y: 0, index_number: 0, attributes: 0 };64],
            address: 0,
        }
    }
}

impl Oam {
    /// The byte at the current address; reading does not advance it.
    pub fn read(&self) -> (r: u8)
        ensures
            r == oam_byte_at(*self, self.address as int),
    {
        let sprite_data = self.sprites[(self.address / SPRITE_DATA_SIZE) as usize];
        let sprite_data_index = self.address % SPRITE_DATA_SIZE;

        if sprite_data_index == 0 {
            sprite_data.y
        } else if sprite_data_index == 1 {
            sprite_data.index_number
        } else if sprite_data_index == 2 {
            sprite_data.attributes
        } else {
            sprite_data.x
        }
    }

    /// The whole sprite table, in index order.
    pub fn read_all(&self) -> (r: &[SpriteData; 64])
        ensures
            r == &self.sprites,
    {
        &self.sprites
    }

    /// Store one byte at the current address and advance it, wrapping.
    pub fn write(&mut self, value: u8)
        ensures
            *final(self) == oam_write_spec(*old(self), value),
            final(self).address == (old(self).address + 1) % 256,
            oam_byte_at(*final(self), old(self).address as int) == value,
            forall|i: int|
                0 <= i < 256 && i != old(self).address ==> oam_byte_at(*final(self), i)
                    == oam_byte_at(*old(self), i),
    {
        let sprite_index = (self.address / SPRITE_DATA_SIZE) as usize;
        let sprite_data_index = self.address % SPRITE_DATA_SIZE;
        let mut sprite_data = self.sprites[sprite_index];

        if sprite_data_index == 0 {
            sprite_data.y = value;
        } else if sprite_data_index == 1 {
            sprite_data.index_number = value;
        } else if sprite_data_index == 2 {
            sprite_data.attributes = value;
        } else {
            sprite_data.x = value;
        }
        self.sprites[sprite_index] = sprite_data;

        self.address = self.address.wrapping_add(1);

        proof {
            assert(self.sprites =~= oam_write_spec(*old(self), value).sprites);
        }
    }

    /// Aim the data port at a byte offset.
    pub fn write_address(&mut self, address: u8)
        ensures
            *final(self) == (Oam { address, ..*old(self) }),
    {
        self.address = address;
    }

    /// Store a full page of bytes starting at the current address, wrapping;
    /// the address ends where it started.
    pub fn write_all(&mut self, buffer: &[u8])
        requires
            buffer@.len() == 256,
        ensures
            final(self).address == old(self).address,
            forall|k: int|
                0 <= k < 256 ==> oam_byte_at(*final(self), (old(self).address + k) % 256)
                    == buffer@[k],
    {
        let ghost start = self.address;
        let mut j: usize = 0;
        while j < 256
            invariant
                j <= 256,
                buffer@.len() == 256,
                self.address == (start + j) % 256,
                forall|k: int|
                    0 <= k < j ==> oam_byte_at(*self, (start + k) % 256) == buffer@[k],
            decreases 256 - j,
        {
            self.write(*vstd::slice::slice_index_get(buffer, j));
            j += 1;
            proof {
                assert forall|k: int| 0 <= k < j implies oam_byte_at(
                    *self,
                    (start + k) % 256,
                ) == buffer@[k] by {
                    if k < j - 1 {
                        assert((start + k) % 256 != (start + (j - 1)) % 256);
                    }
                }
            }
        }
    }
}

} // verus!
