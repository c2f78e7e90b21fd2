//! The renderer: a read-only transform from picture-unit state to an RGB
//! pixel buffer.

pub mod bg_tile;
pub mod frame;
pub mod palettes;
pub mod viewport;

pub use bg_tile::BgTile;
pub use frame::Frame;
pub use viewport::Viewport;

use crate::cartridge::MirroringType;
use crate::errors::EmulatorError;
use crate::ppu::Ppu;
use crate::render::palettes::{system_palette, system_palette_spec};
use vstd::prelude::*;
use vstd::slice::{slice_index_get, slice_subrange};

verus! {

/// Width of the visible picture in pixels.
pub const FRAME_WIDTH: usize = 256;

/// Height of the visible picture in pixels.
pub const FRAME_HEIGHT: usize = 240;

/// The colour index that leaves a sprite pixel transparent.
pub const TRANSPARENT_PIXEL: u8 = 0;

/// One colour: red, green and blue channels.
#[derive(Debug, Clone, Copy, PartialEq, Eq, Structural)]
pub struct Rgb(pub u8, pub u8, pub u8);

/// What a picture unit must hold for the renderer to read it: a full
/// pattern-table window and one of the two-table mirroring arrangements.
pub open spec fn renderable(ppu: Ppu) -> bool {
    &&& ppu.chr_rom@.len() >= 0x2000
    &&& ppu.mirroring != MirroringType::FourScreen
}

/// The 4-entry background palette a tile block uses: the backdrop colour
/// plus three colours from the selected palette.
pub open spec fn bg_palette_spec(ppu: Ppu, start: int) -> Seq<u8> {
    seq![
        ppu.palette_table@[0],
        ppu.palette_table@[start],
        ppu.palette_table@[start + 1],
        ppu.palette_table@[start + 2],
    ]
}

/// The 4-entry sprite palette with the given index: entry zero is
/// transparent.
pub open spec fn sprite_palette_spec(ppu: Ppu, palette_idx: int) -> Seq<u8> {
    seq![
        0u8,
        ppu.palette_table@[palette_idx * 4 + 0x11],
        ppu.palette_table@[palette_idx * 4 + 0x12],
        ppu.palette_table@[palette_idx * 4 + 0x13],
    ]
}


/// Where a background tile's 4-entry palette starts in palette memory: one
/// attribute byte governs each 4x4 tile block, packing four 2-bit selectors,
/// one per 2x2-tile sub-quadrant.
pub open spec fn tile_palette_start_spec(name_table: Seq<u8>, tile_column: int, tile_row: int) -> u8 {
    let attr_byte = name_table[0x3c0 + (tile_row / 4) * 8 + tile_column / 4];
    let divisor = if tile_column % 4 / 2 == 0 && tile_row % 4 / 2 == 0 {
        1int
    } else if tile_column % 4 / 2 == 1 && tile_row % 4 / 2 == 0 {
        4int
    } else if tile_column % 4 / 2 == 0 && tile_row % 4 / 2 == 1 {
        16int
    } else {
        64int
    };
    (4 * ((attr_byte as int / divisor) % 4) + 1) as u8
}

/// One 8-pixel tile row drawn into the buffer, pixel by pixel from the two
/// bit planes, mirroring the drawing order: the planes are consumed from
/// their low bits, which paint the rightmost pixels first. A pixel lands
/// only when its source coordinate lies in the clip window; it is then
/// moved by the shift, toward the origin for the first nametable and away
/// from it for the second.
pub open spec fn tile_row_spec(
    ppu: Ppu,
    palette_start: u8,
    upper: u8,
    lower: u8,
    viewport: Viewport,
    shift_x: int,
    shift_y: int,
    shift_back: bool,
    tile_column: int,
    tile_row: int,
    y: int,
    data: Seq<u8>,
    xr: int,
) -> Seq<u8>
    decreases 8 - xr,
{
    if xr >= 8 {
        data
    } else {
        let x = 7 - xr;
        let value = ((lower % 2) * 2 + upper % 2) as u8;
        let rgb = system_palette_spec(bg_palette_spec(ppu, palette_start as int)[value as int]);
        let pixel_x = tile_column * 8 + x;
        let pixel_y = tile_row * 8 + y;
        let painted = if viewport.x1 <= pixel_x < viewport.x2 && viewport.y1 <= pixel_y
            < viewport.y2 {
            if shift_back {
                if pixel_x >= shift_x && pixel_y >= shift_y {
                    crate::render::frame::set_pixel_spec(
                        data,
                        pixel_x - shift_x,
                        pixel_y - shift_y,
                        rgb,
                    )
                } else {
                    data
                }
            } else {
                crate::render::frame::set_pixel_spec(data, pixel_x + shift_x, pixel_y + shift_y, rgb)
            }
        } else {
            data
        };
        tile_row_spec(
            ppu,
            palette_start,
            (upper / 2) as u8,
            (lower / 2) as u8,
            viewport,
            shift_x,
            shift_y,
            shift_back,
            tile_column,
            tile_row,
            y,
            painted,
            xr + 1,
        )
    }
}

/// One whole 8x8 tile drawn into the buffer, row by row from its sixteen
/// bytes of pattern data.
pub open spec fn tile_spec(
    ppu: Ppu,
    name_table: Seq<u8>,
    viewport: Viewport,
    shift_x: int,
    shift_y: int,
    shift_back: bool,
    addr: int,
    data: Seq<u8>,
    y: int,
) -> Seq<u8>
    decreases 8 - y,
{
    if y >= 8 {
        data
    } else {
        let bank = if ppu.registers.control.background_pattern_addr {
            0x1000int
        } else {
            0int
        };
        let tile_idx = name_table[addr];
        let tile_column = addr % 32;
        let tile_row = addr / 32;
        let palette_start = tile_palette_start_spec(name_table, tile_column, tile_row);
        let painted = tile_row_spec(
            ppu,
            palette_start,
            ppu.chr_rom@[bank + tile_idx * 16 + y],
            ppu.chr_rom@[bank + tile_idx * 16 + y + 8],
            viewport,
            shift_x,
            shift_y,
            shift_back,
            tile_column,
            tile_row,
            y,
            data,
            0,
        );
        tile_spec(ppu, name_table, viewport, shift_x, shift_y, shift_back, addr, painted, y + 1)
    }
}

/// One whole nametable drawn into the buffer: its 960 tiles in address
/// order, each through the clip window and shift.
pub open spec fn table_spec(
    ppu: Ppu,
    name_table: Seq<u8>,
    viewport: Viewport,
    shift_x: int,
    shift_y: int,
    shift_back: bool,
    data: Seq<u8>,
    addr: int,
) -> Seq<u8>
    decreases 0x3c0 - addr,
{
    if addr >= 0x3c0 || addr < 0 {
        data
    } else {
        let painted = tile_spec(
            ppu,
            name_table,
            viewport,
            shift_x,
            shift_y,
            shift_back,
            addr,
            data,
            0,
        );
        table_spec(ppu, name_table, viewport, shift_x, shift_y, shift_back, painted, addr + 1)
    }
}

/// The whole background layer drawn into the buffer: the selected nametable
/// fills the viewport shifted back by the scroll, and when a scroll is set
/// the neighbouring nametable fills the uncovered right or bottom strip.
pub open spec fn background_spec(ppu: Ppu, data: Seq<u8>) -> Seq<u8> {
    let scroll_x = ppu.registers.scroll.scroll_x as int;
    let raw_scroll_y = ppu.registers.scroll.scroll_y as int;
    let scroll_y = if raw_scroll_y > FRAME_HEIGHT {
        FRAME_HEIGHT as int
    } else {
        raw_scroll_y
    };
    let name_table_address = 0x2000 + (if ppu.registers.control.nametable1 {
        0x400int
    } else {
        0int
    }) + (if ppu.registers.control.nametable2 {
        0x800int
    } else {
        0int
    });
    let main_is_first = if ppu.mirroring == MirroringType::Vertical {
        name_table_address == 0x2000 || name_table_address == 0x2800
    } else {
        name_table_address == 0x2000 || name_table_address == 0x2400
    };
    let first = ppu.vram@.subrange(0, 0x400);
    let second = ppu.vram@.subrange(0x400, 0x800);
    let main_table = if main_is_first {
        first
    } else {
        second
    };
    let secondary_table = if main_is_first {
        second
    } else {
        first
    };
    let main_painted = table_spec(
        ppu,
        main_table,
        Viewport {
            x1: scroll_x as usize,
            x2: FRAME_WIDTH,
            y1: scroll_y as usize,
            y2: FRAME_HEIGHT,
        },
        scroll_x,
        scroll_y,
        true,
        data,
        0,
    );
    if scroll_x > 0 {
        table_spec(
            ppu,
            secondary_table,
            Viewport { x1: 0, x2: scroll_x as usize, y1: 0, y2: FRAME_HEIGHT },
            FRAME_WIDTH - scroll_x,
            0,
            false,
            main_painted,
            0,
        )
    } else if scroll_y > 0 {
        table_spec(
            ppu,
            secondary_table,
            Viewport { x1: 0, x2: FRAME_WIDTH, y1: 0, y2: scroll_y as usize },
            0,
            FRAME_HEIGHT - scroll_y,
            false,
            main_painted,
            0,
        )
    } else {
        main_painted
    }
}

/// One 8-pixel sprite tile row drawn into the buffer: colour index zero
/// leaves the pixel transparent, and the flip attributes mirror the pixel
/// position within the sprite.
pub open spec fn sprite_row_spec(
    ppu: Ppu,
    sprite: crate::ppu::registers::SpriteData,
    upper: u8,
    lower: u8,
    y_offset: int,
    data: Seq<u8>,
    xr: int,
) -> Seq<u8>
    decreases 8 - xr,
{
    if xr >= 8 {
        data
    } else {
        let x_offset = 7 - xr;
        let value = ((lower % 2) * 2 + upper % 2) as u8;
        let painted = if value == TRANSPARENT_PIXEL {
            data
        } else {
            let rgb = system_palette_spec(
                sprite_palette_spec(ppu, sprite.attributes as int % 4)[value as int],
            );
            let px = if sprite.attributes / 0x40 % 2 == 1 {
                sprite.x + 7 - x_offset
            } else {
                sprite.x + x_offset
            };
            let py = if sprite.attributes / 0x80 % 2 == 1 {
                sprite.y + 7 - y_offset
            } else {
                sprite.y + y_offset
            };
            crate::render::frame::set_pixel_spec(data, px as int, py as int, rgb)
        };
        sprite_row_spec(ppu, sprite, (upper / 2) as u8, (lower / 2) as u8, y_offset, painted, xr + 1)
    }
}

/// One whole sprite drawn into the buffer, row by row.
pub open spec fn sprite_spec(ppu: Ppu, i: int, data: Seq<u8>, y_offset: int) -> Seq<u8>
    decreases 8 - y_offset,
{
    if y_offset >= 8 {
        data
    } else {
        let sprite = ppu.registers.oam.sprites@[i];
        let bank = if ppu.registers.control.sprite_pattern_addr {
            0x1000int
        } else {
            0int
        };
        let painted = sprite_row_spec(
            ppu,
            sprite,
            ppu.chr_rom@[bank + sprite.index_number * 16 + y_offset],
            ppu.chr_rom@[bank + sprite.index_number * 16 + y_offset + 8],
            y_offset,
            data,
            0,
        );
        sprite_spec(ppu, i, painted, y_offset + 1)
    }
}

/// The whole sprite layer drawn into the buffer: all 64 sprite records in
/// reverse index order, so sprite zero is drawn last and visually wins
/// ties.
pub open spec fn sprites_fold_spec(ppu: Ppu, data: Seq<u8>, i: int) -> Seq<u8>
    decreases i,
{
    if i <= 0 {
        data
    } else {
        sprites_fold_spec(ppu, sprite_spec(ppu, i - 1, data, 0), i - 1)
    }
}

/// The sprite layer over a buffer.
pub open spec fn sprites_spec(ppu: Ppu, data: Seq<u8>) -> Seq<u8> {
    sprites_fold_spec(ppu, data, 64)
}

/// Draw the whole frame: the background layer, then the sprite layer, each
/// skipped when its visibility bit is off.
pub fn render(ppu: &Ppu, frame: &mut Frame) -> (r: Result<(), EmulatorError>)
    requires
        renderable(*ppu),
        old(frame).pixel_data@.len() == FRAME_WIDTH * FRAME_HEIGHT * 3,
    ensures
        final(frame).pixel_data@.len() == FRAME_WIDTH * FRAME_HEIGHT * 3,
        r == Ok::<(), EmulatorError>(()),
        !ppu.registers.mask.show_background && !ppu.registers.mask.show_sprites ==> *final(frame)
            == *old(frame),
        !ppu.registers.mask.show_background && ppu.registers.mask.show_sprites ==> final(frame).pixel_data@ == sprites_spec(*ppu, old(frame).pixel_data@),
        ppu.registers.mask.show_background && ppu.registers.mask.show_sprites ==> final(frame).pixel_data@ == sprites_spec(*ppu, background_spec(*ppu, old(frame).pixel_data@)),
        ppu.registers.mask.show_background && !ppu.registers.mask.show_sprites ==> final(frame).pixel_data@ == background_spec(*ppu, old(frame).pixel_data@),
{
    if ppu.registers.show_background() {
        render_background(ppu, frame)?;
    }

    if ppu.registers.show_sprites() {
        render_sprites(ppu, frame)?;
    }

    Ok(())
}

/// Draw the background: the selected nametable fills the viewport shifted
/// by the scroll position, and the neighbouring nametable fills what the
/// shift uncovers, so the screen shows a seamless scrolled view.
pub fn render_background(ppu: &Ppu, frame: &mut Frame) -> (r: Result<(), EmulatorError>)
    requires
        renderable(*ppu),
        old(frame).pixel_data@.len() == FRAME_WIDTH * FRAME_HEIGHT * 3,
    ensures
        final(frame).pixel_data@.len() == FRAME_WIDTH * FRAME_HEIGHT * 3,
        r == Ok::<(), EmulatorError>(()),
        final(frame).pixel_data@ == background_spec(*ppu, old(frame).pixel_data@),
{
    let name_table_address = ppu.registers.read_name_table_address();
    let scroll_x = ppu.registers.read_scroll_x() as usize;
    let raw_scroll_y = ppu.registers.read_scroll_y() as usize;
    // Vertical scroll values past the visible height select no real line;
    // they are clamped to the bottom of the picture.
    let scroll_y = if raw_scroll_y > FRAME_HEIGHT {
        FRAME_HEIGHT
    } else {
        raw_scroll_y
    };

    let vram = vstd::array::array_as_slice(&ppu.vram);
    let first = slice_subrange(vram, 0, 0x400);
    let second = slice_subrange(vram, 0x400, 0x800);

    let main_is_first = match ppu.mirroring {
        MirroringType::Vertical => name_table_address == 0x2000 || name_table_address == 0x2800,
        _ => name_table_address == 0x2000 || name_table_address == 0x2400,
    };
    let (main_table, secondary_table) = if main_is_first {
        (first, second)
    } else {
        (second, first)
    };

    let viewport = Viewport::new(scroll_x, FRAME_WIDTH, scroll_y, FRAME_HEIGHT);
    render_name_table(ppu, frame, main_table, viewport, scroll_x, scroll_y, true)?;

    if scroll_x > 0 {
        let viewport = Viewport::new(0, scroll_x, 0, FRAME_HEIGHT);
        render_name_table(ppu, frame, secondary_table, viewport, FRAME_WIDTH - scroll_x, 0, false)?;
    } else if scroll_y > 0 {
        let viewport = Viewport::new(0, FRAME_WIDTH, 0, scroll_y);
        render_name_table(
            ppu,
            frame,
            secondary_table,
            viewport,
            0,
            FRAME_HEIGHT - scroll_y,
            false,
        )?;
    }

    Ok(())
}

/// Draw one nametable through a clip window. With `shift_back` the window's
/// pixels move toward the origin by the shift; otherwise they move away
/// from it, which composites the second nametable past the seam.
pub fn render_name_table(
    ppu: &Ppu,
    frame: &mut Frame,
    name_table: &[u8],
    viewport: Viewport,
    shift_x: usize,
    shift_y: usize,
    shift_back: bool,
) -> (r: Result<(), EmulatorError>)
    requires
        renderable(*ppu),
        name_table@.len() == 0x400,
        shift_x <= FRAME_WIDTH,
        shift_y <= FRAME_HEIGHT,
        old(frame).pixel_data@.len() == FRAME_WIDTH * FRAME_HEIGHT * 3,
    ensures
        final(frame).pixel_data@.len() == FRAME_WIDTH * FRAME_HEIGHT * 3,
        r == Ok::<(), EmulatorError>(()),
        final(frame).pixel_data@ == table_spec(
            *ppu,
            name_table@,
            viewport,
            shift_x as int,
            shift_y as int,
            shift_back,
            old(frame).pixel_data@,
            0,
        ),
{
    let bank = ppu.registers.background_pattern_address();

    let mut addr: usize = 0;
    while addr < 0x03c0
        invariant
            renderable(*ppu),
            name_table@.len() == 0x400,
            shift_x <= FRAME_WIDTH,
            shift_y <= FRAME_HEIGHT,
            bank == (if ppu.registers.control.background_pattern_addr {
                0x1000int
            } else {
                0int
            }),
            addr <= 0x3c0,
            frame.pixel_data@.len() == FRAME_WIDTH * FRAME_HEIGHT * 3,
            table_spec(
                *ppu,
                name_table@,
                viewport,
                shift_x as int,
                shift_y as int,
                shift_back,
                frame.pixel_data@,
                addr as int,
            ) == table_spec(
                *ppu,
                name_table@,
                viewport,
                shift_x as int,
                shift_y as int,
                shift_back,
                old(frame).pixel_data@,
                0,
            ),
        decreases 0x03c0 - addr,
    {
        let tile_idx = *slice_index_get(name_table, addr) as usize;
        let tile_column = addr % 32;
        let tile_row = addr / 32;
        let palette_start = tile_palette_start(name_table, tile_column, tile_row);
        let palette = bg_palette(ppu, palette_start);
        let ghost tile_start = frame.pixel_data@;

        let mut y: usize = 0;
        while y < 8
            invariant
                renderable(*ppu),
                name_table@.len() == 0x400,
                shift_x <= FRAME_WIDTH,
                shift_y <= FRAME_HEIGHT,
                bank == (if ppu.registers.control.background_pattern_addr {
                    0x1000int
                } else {
                    0int
                }),
                addr < 0x3c0,
                tile_idx == name_table@[addr as int],
                tile_column == addr as int % 32,
                tile_row == addr as int / 32,
                palette_start == tile_palette_start_spec(
                    name_table@,
                    tile_column as int,
                    tile_row as int,
                ),
                palette@ == bg_palette_spec(*ppu, palette_start as int),
                y <= 8,
                frame.pixel_data@.len() == FRAME_WIDTH * FRAME_HEIGHT * 3,
                tile_spec(
                    *ppu,
                    name_table@,
                    viewport,
                    shift_x as int,
                    shift_y as int,
                    shift_back,
                    addr as int,
                    frame.pixel_data@,
                    y as int,
                ) == tile_spec(
                    *ppu,
                    name_table@,
                    viewport,
                    shift_x as int,
                    shift_y as int,
                    shift_back,
                    addr as int,
                    tile_start,
                    0,
                ),
            decreases 8 - y,
        {
            let mut upper = ppu.chr_rom[bank as usize + tile_idx * 16 + y];
            let mut lower = ppu.chr_rom[bank as usize + tile_idx * 16 + y + 8];
            let ghost row_start = frame.pixel_data@;
            let ghost upper0 = upper;
            let ghost lower0 = lower;

            let mut xr: usize = 0;
            while xr < 8
                invariant
                    shift_x <= FRAME_WIDTH,
                    shift_y <= FRAME_HEIGHT,
                    tile_column < 32,
                    tile_row < 30,
                    y < 8,
                    xr <= 8,
                    palette@ == bg_palette_spec(*ppu, palette_start as int),
                    frame.pixel_data@.len() == FRAME_WIDTH * FRAME_HEIGHT * 3,
                    tile_row_spec(
                        *ppu,
                        palette_start,
                        upper,
                        lower,
                        viewport,
                        shift_x as int,
                        shift_y as int,
                        shift_back,
                        tile_column as int,
                        tile_row as int,
                        y as int,
                        frame.pixel_data@,
                        xr as int,
                    ) == tile_row_spec(
                        *ppu,
                        palette_start,
                        upper0,
                        lower0,
                        viewport,
                        shift_x as int,
                        shift_y as int,
                        shift_back,
                        tile_column as int,
                        tile_row as int,
                        y as int,
                        row_start,
                        0,
                    ),
                decreases 8 - xr,
            {
                let x = 7 - xr;
                let value = (lower % 2) * 2 + upper % 2;
                upper = upper / 2;
                lower = lower / 2;
                let rgb = system_palette(palette_color(&palette, value));
                let pixel_x = tile_column * 8 + x;
                let pixel_y = tile_row * 8 + y;

                if pixel_x >= viewport.x1 && pixel_x < viewport.x2 && pixel_y >= viewport.y1
                    && pixel_y < viewport.y2 {
                    if shift_back {
                        if pixel_x >= shift_x && pixel_y >= shift_y {
                            frame.set_pixel(pixel_x - shift_x, pixel_y - shift_y, rgb);
                        }
                    } else {
                        frame.set_pixel(pixel_x + shift_x, pixel_y + shift_y, rgb);
                    }
                }
                xr += 1;
            }
            proof {
                assert(tile_spec(
                    *ppu,
                    name_table@,
                    viewport,
                    shift_x as int,
                    shift_y as int,
                    shift_back,
                    addr as int,
                    row_start,
                    y as int,
                ) == tile_spec(
                    *ppu,
                    name_table@,
                    viewport,
                    shift_x as int,
                    shift_y as int,
                    shift_back,
                    addr as int,
                    frame.pixel_data@,
                    y as int + 1,
                ));
            }
            y += 1;
        }
        proof {
            assert(table_spec(
                *ppu,
                name_table@,
                viewport,
                shift_x as int,
                shift_y as int,
                shift_back,
                tile_start,
                addr as int,
            ) == table_spec(
                *ppu,
                name_table@,
                viewport,
                shift_x as int,
                shift_y as int,
                shift_back,
                frame.pixel_data@,
                addr as int + 1,
            ));
        }
        addr += 1;
    }

    Ok(())
}

/// Draw the sprite layer: all 64 sprite records in reverse index order, so
/// sprite zero is drawn last and visually wins ties, as the hardware's
/// priority rules do. Colour index zero leaves the pixel transparent.
pub fn render_sprites(ppu: &Ppu, frame: &mut Frame) -> (r: Result<(), EmulatorError>)
    requires
        renderable(*ppu),
        old(frame).pixel_data@.len() == FRAME_WIDTH * FRAME_HEIGHT * 3,
    ensures
        final(frame).pixel_data@.len() == FRAME_WIDTH * FRAME_HEIGHT * 3,
        r == Ok::<(), EmulatorError>(()),
        final(frame).pixel_data@ == sprites_spec(*ppu, old(frame).pixel_data@),
{
    let sprites = ppu.registers.read_oam_dma();
    let bank = ppu.read_sprite_pattern_address() as usize;

    let mut i: usize = 64;
    while i > 0
        invariant
            renderable(*ppu),
            sprites == &ppu.registers.oam.sprites,
            bank == (if ppu.registers.control.sprite_pattern_addr {
                0x1000int
            } else {
                0int
            }),
            i <= 64,
            frame.pixel_data@.len() == FRAME_WIDTH * FRAME_HEIGHT * 3,
            sprites_fold_spec(*ppu, frame.pixel_data@, i as int) == sprites_fold_spec(
                *ppu,
                old(frame).pixel_data@,
                64,
            ),
        decreases i,
    {
        i -= 1;
        let sprite = sprites[i];
        let tile_idx = sprite.index_number as usize;
        let palette = sprite_palette(ppu, sprite.palette_index());
        let ghost sprite_start = frame.pixel_data@;

        let mut y_offset: usize = 0;
        while y_offset < 8
            invariant
                renderable(*ppu),
                i < 64,
                sprite == ppu.registers.oam.sprites@[i as int],
                bank == (if ppu.registers.control.sprite_pattern_addr {
                    0x1000int
                } else {
                    0int
                }),
                tile_idx == sprite.index_number,
                palette@ == sprite_palette_spec(*ppu, sprite.attributes as int % 4),
                y_offset <= 8,
                frame.pixel_data@.len() == FRAME_WIDTH * FRAME_HEIGHT * 3,
                sprite_spec(*ppu, i as int, sprite_start, 0) == sprite_spec(
                    *ppu,
                    i as int,
                    frame.pixel_data@,
                    y_offset as int,
                ),
            decreases 8 - y_offset,
        {
            let mut upper = ppu.chr_rom[bank + tile_idx * 16 + y_offset];
            let mut lower = ppu.chr_rom[bank + tile_idx * 16 + y_offset + 8];
            let ghost row_start = frame.pixel_data@;
            let ghost upper0 = upper;
            let ghost lower0 = lower;

            let mut xr: usize = 0;
            while xr < 8
                invariant
                    renderable(*ppu),
                    sprite == ppu.registers.oam.sprites@[i as int],
                    palette@ == sprite_palette_spec(*ppu, sprite.attributes as int % 4),
                    y_offset < 8,
                    xr <= 8,
                    frame.pixel_data@.len() == FRAME_WIDTH * FRAME_HEIGHT * 3,
                    sprite_row_spec(
                        *ppu,
                        sprite,
                        upper,
                        lower,
                        y_offset as int,
                        frame.pixel_data@,
                        xr as int,
                    ) == sprite_row_spec(
                        *ppu,
                        sprite,
                        upper0,
                        lower0,
                        y_offset as int,
                        row_start,
                        0,
                    ),
                decreases 8 - xr,
            {
                let x_offset = 7 - xr;
                let value = (lower % 2) * 2 + upper % 2;
                upper = upper / 2;
                lower = lower / 2;

                if value != TRANSPARENT_PIXEL {
                    let rgb = system_palette(palette_color(&palette, value));
                    frame.set_pixel(sprite.x_pos(x_offset), sprite.y_pos(y_offset), rgb);
                }
                xr += 1;
            }
            proof {
                assert(sprite_spec(*ppu, i as int, row_start, y_offset as int) == sprite_spec(
                    *ppu,
                    i as int,
                    frame.pixel_data@,
                    y_offset as int + 1,
                ));
            }
            y_offset += 1;
        }
        proof {
            assert(sprites_fold_spec(*ppu, sprite_start, i as int + 1) == sprites_fold_spec(
                *ppu,
                frame.pixel_data@,
                i as int,
            ));
        }
    }

    Ok(())
}

/// Where a background tile's palette starts, resolved through the
/// attribute table at the end of its nametable.
fn tile_palette_start(name_table: &[u8], tile_column: usize, tile_row: usize) -> (r: u8)
    requires
        name_table@.len() == 0x400,
        tile_column < 32,
        tile_row < 30,
    ensures
        r == tile_palette_start_spec(name_table@, tile_column as int, tile_row as int),
        r <= 13,
{
    let attr_table_idx = tile_row / 4 * 8 + tile_column / 4;
    let attr_byte = *slice_index_get(name_table, 0x3c0 + attr_table_idx);
    let col_half = tile_column % 4 / 2;
    let row_half = tile_row % 4 / 2;
    let divisor: u8 = if col_half == 0 && row_half == 0 {
        1
    } else if col_half == 1 && row_half == 0 {
        4
    } else if col_half == 0 && row_half == 1 {
        16
    } else {
        64
    };
    let palette_idx = (attr_byte / divisor) % 4;

    4 * palette_idx + 1
}

/// The 4-entry background palette starting at `palette_start`: the backdrop
/// colour plus three colours of the selected palette.
pub fn bg_palette(ppu: &Ppu, palette_start: u8) -> (r: [u8; 4])
    requires
        palette_start <= 13,
    ensures
        r@ == bg_palette_spec(*ppu, palette_start as int),
{
    let r = [
        ppu.palette_table[0],
        ppu.palette_table[palette_start as usize],
        ppu.palette_table[palette_start as usize + 1],
        ppu.palette_table[palette_start as usize + 2],
    ];
    proof {
        assert(r@ =~= bg_palette_spec(*ppu, palette_start as int));
    }
    r
}

/// The 4-entry sprite palette with the given index: entry zero transparent.
pub fn sprite_palette(ppu: &Ppu, palette_idx: u8) -> (r: [u8; 4])
    requires
        palette_idx <= 3,
    ensures
        r@ == sprite_palette_spec(*ppu, palette_idx as int),
{
    let start = palette_idx as usize * 4 + 0x11;
    let r = [0u8, ppu.palette_table[start], ppu.palette_table[start + 1], ppu.palette_table[start
        + 2]];
    proof {
        assert(r@ =~= sprite_palette_spec(*ppu, palette_idx as int));
    }
    r
}

/// The palette entry a two-bit colour index selects.
fn palette_color(palette: &[u8; 4], value: u8) -> (r: u8)
    requires
        value < 4,
    ensures
        r == palette@[value as int],
{
    palette[value as usize]
}

} // verus!
