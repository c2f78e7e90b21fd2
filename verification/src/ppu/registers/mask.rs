//! The picture unit's mask register, decoded into its named bits.
//!
//! From bit 0 upward: greyscale, the two leftmost-column bits, background
//! visibility, sprite visibility, and the three colour-emphasis bits.

use vstd::prelude::*;

verus! {

/// The eight mask bits, each held as a named boolean.
#[derive(Debug, Clone, Copy, PartialEq, Eq, Structural)]
pub struct MaskRegister {
    pub greyscale: bool,
    pub leftmost_8pxl_background: bool,
    pub leftmost_8pxl_sprite: bool,
    pub show_background: bool,
    pub show_sprites: bool,
    pub emphasise_red: bool,
    pub emphasise_green: bool,
    pub emphasise_blue: bool,
}

/// A colour channel the mask register can emphasize.
#[derive(Debug, Clone, Copy, PartialEq, Eq, Structural)]
pub enum Color {
    Red,
    Green,
    Blue,
}

/// The register a written byte decodes into.
pub open spec fn mask_from_bits(value: u8) -> MaskRegister {
    MaskRegister {
        greyscale: value % 2 == 1,
        leftmost_8pxl_background: value / 0x02 % 2 == 1,
        leftmost_8pxl_sprite: value / 0x04 % 2 == 1,
        show_background: value / 0x08 % 2 == 1,
        show_sprites: value / 0x10 % 2 == 1,
        emphasise_red: value / 0x20 % 2 == 1,
        emphasise_green: value / 0x40 % 2 == 1,
        emphasise_blue: value / 0x80 % 2 == 1,
    }
}

/// The colour channels a register emphasizes, red then green then blue.
pub open spec fn emphasized_colors_spec(m: MaskRegister) -> Seq<Color> {
    (if m.emphasise_red {
        seq![Color::Red]
    } else {
        Seq::<Color>::empty()
    }) + (if m.emphasise_green {
        seq![Color::Green]
    } else {
        Seq::<Color>::empty()
    }) + (if m.emphasise_blue {
        seq![Color::Blue]
    } else {
        Seq::<Color>::empty()
    })
}

impl Default for MaskRegister {
    fn default() -> (r: Self)
        ensures
            r == mask_from_bits(0),
    {
        MaskRegister {
            greyscale: false,
            leftmost_8pxl_background: false,
            leftmost_8pxl_sprite: false,
            show_background: false,
            show_sprites: false,
            emphasise_red: false,
            emphasise_green: false,
            emphasise_blue: false,
        }
    }
}

impl MaskRegister {
    /// Replace the register with a freshly written byte.
    pub fn update(&mut self, value: u8)
        ensures
            *final(self) == mask_from_bits(value),
    {
        *self = MaskRegister {
            greyscale: value % 2 == 1,
            leftmost_8pxl_background: value / 0x02 % 2 == 1,
            leftmost_8pxl_sprite: value / 0x04 % 2 == 1,
            show_background: value / 0x08 % 2 == 1,
            show_sprites: value / 0x10 % 2 == 1,
            emphasise_red: value / 0x20 % 2 == 1,
            emphasise_green: value / 0x40 % 2 == 1,
            emphasise_blue: value / 0x80 % 2 == 1,
        };
    }

    /// Whether the background layer is drawn.
    pub fn show_background(&self) -> (r: bool)
        ensures
            r == self.show_background,
    {
        self.show_background
    }

    /// Whether the sprite layer is drawn.
    pub fn show_sprites(&self) -> (r: bool)
        ensures
            r == self.show_sprites,
    {
        self.show_sprites
    }

    /// The colour channels the register emphasizes, red then green then blue.
    pub fn emphasized_colors(&self) -> (r: Vec<Color>)
        ensures
            r@ == emphasized_colors_spec(*self),
    {
        let mut colors: Vec<Color> = Vec::new();

        if self.emphasise_red {
            colors.push(Color::Red);
        }

        if self.emphasise_green {
            colors.push(Color::Green);
        }

        if self.emphasise_blue {
            colors.push(Color::Blue);
        }

        proof {
            assert(colors@ =~= emphasized_colors_spec(*self));
        }

        colors
    }
}

} // verus!
