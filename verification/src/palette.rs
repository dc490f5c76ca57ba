//! The named colors of the palette, each written as `0xRRGGBB`.

use vstd::prelude::*;
use crate::img::Color;

verus! {

impl Color {
    /// `0xeff7ff`.
    pub fn alice_blue() -> (c: Self)
        ensures
            c == (Color { r: 0xef, g: 0xf7, b: 0xff }),
    {
        Color { r: 0xef, g: 0xf7, b: 0xff }
    }

    /// `0xf9ebd6`.
    pub fn antique_white() -> (c: Self)
        ensures
            c == (Color { r: 0xf9, g: 0xeb, b: 0xd6 }),
    {
        Color { r: 0xf9, g: 0xeb, b: 0xd6 }
    }

    /// `0x00ffff`.
    pub fn aqua() -> (c: Self)
        ensures
            c == (Color { r: 0x00, g: 0xff, b: 0xff }),
    {
        Color { r: 0x00, g: 0xff, b: 0xff }
    }

    /// `0x7effd4`.
    pub fn aquamarine() -> (c: Self)
        ensures
            c == (Color { r: 0x7e, g: 0xff, b: 0xd4 }),
    {
        Color { r: 0x7e, g: 0xff, b: 0xd4 }
    }

    /// `0xefffff`.
    pub fn azure() -> (c: Self)
        ensures
            c == (Color { r: 0xef, g: 0xff, b: 0xff }),
    {
        Color { r: 0xef, g: 0xff, b: 0xff }
    }

    /// `0xf4f4db`.
    pub fn beige() -> (c: Self)
        ensures
            c == (Color { r: 0xf4, g: 0xf4, b: 0xdb }),
    {
        Color { r: 0xf4, g: 0xf4, b: 0xdb }
    }

    /// `0xffe4c3`.
    pub fn bisque() -> (c: Self)
        ensures
            c == (Color { r: 0xff, g: 0xe4, b: 0xc3 }),
    {
        Color { r: 0xff, g: 0xe4, b: 0xc3 }
    }

    /// `0xffebcd`.
    pub fn blanched_almond() -> (c: Self)
        ensures
            c == (Color { r: 0xff, g: 0xeb, b: 0xcd }),
    {
        Color { r: 0xff, g: 0xeb, b: 0xcd }
    }

    /// `0x0000ff`.
    pub fn blue() -> (c: Self)
        ensures
            c == (Color { r: 0x00, g: 0x00, b: 0xff }),
    {
        Color { r: 0x00, g: 0x00, b: 0xff }
    }

    /// `0x892ae2`.
    pub fn blue_violet() -> (c: Self)
        ensures
            c == (Color { r: 0x89, g: 0x2a, b: 0xe2 }),
    {
        Color { r: 0x89, g: 0x2a, b: 0xe2 }
    }

    /// `0xa52a2a`.
    pub fn brown() -> (c: Self)
        ensures
            c == (Color { r: 0xa5, g: 0x2a, b: 0x2a }),
    {
        Color { r: 0xa5, g: 0x2a, b: 0x2a }
    }

    /// `0xddb887`.
    pub fn burlywood() -> (c: Self)
        ensures
            c == (Color { r: 0xdd, g: 0xb8, b: 0x87 }),
    {
        Color { r: 0xdd, g: 0xb8, b: 0x87 }
    }

    /// `0x5e9ea0`.
    pub fn cadet_blue() -> (c: Self)
        ensures
            c == (Color { r: 0x5e, g: 0x9e, b: 0xa0 }),
    {
        Color { r: 0x5e, g: 0x9e, b: 0xa0 }
    }

    /// `0x7eff00`.
    pub fn chartreuse() -> (c: Self)
        ensures
            c == (Color { r: 0x7e, g: 0xff, b: 0x00 }),
    {
        Color { r: 0x7e, g: 0xff, b: 0x00 }
    }

    /// `0xd1691d`.
    pub fn chocolate() -> (c: Self)
        ensures
            c == (Color { r: 0xd1, g: 0x69, b: 0x1d }),
    {
        Color { r: 0xd1, g: 0x69, b: 0x1d }
    }

    /// `0xff7e50`.
    pub fn coral() -> (c: Self)
        ensures
            c == (Color { r: 0xff, g: 0x7e, b: 0x50 }),
    {
        Color { r: 0xff, g: 0x7e, b: 0x50 }
    }

    /// `0x6495ed`.
    pub fn cornflower_blue() -> (c: Self)
        ensures
            c == (Color { r: 0x64, g: 0x95, b: 0xed }),
    {
        Color { r: 0x64, g: 0x95, b: 0xed }
    }

    /// `0xfff7db`.
    pub fn cornsilk() -> (c: Self)
        ensures
            c == (Color { r: 0xff, g: 0xf7, b: 0xdb }),
    {
        Color { r: 0xff, g: 0xf7, b: 0xdb }
    }

    /// `0xdb143b`.
    pub fn crimson() -> (c: Self)
        ensures
            c == (Color { r: 0xdb, g: 0x14, b: 0x3b }),
    {
        Color { r: 0xdb, g: 0x14, b: 0x3b }
    }

    /// `0x00ffff`.
    pub fn cyan() -> (c: Self)
        ensures
            c == (Color { r: 0x00, g: 0xff, b: 0xff }),
    {
        Color { r: 0x00, g: 0xff, b: 0xff }
    }

    /// `0x00008a`.
    pub fn dark_blue() -> (c: Self)
        ensures
            c == (Color { r: 0x00, g: 0x00, b: 0x8a }),
    {
        Color { r: 0x00, g: 0x00, b: 0x8a }
    }

    /// `0x008a8a`.
    pub fn dark_cyan() -> (c: Self)
        ensures
            c == (Color { r: 0x00, g: 0x8a, b: 0x8a }),
    {
        Color { r: 0x00, g: 0x8a, b: 0x8a }
    }

    /// `0xb8850b`.
    pub fn dark_goldenrod() -> (c: Self)
        ensures
            c == (Color { r: 0xb8, g: 0x85, b: 0x0b }),
    {
        Color { r: 0xb8, g: 0x85, b: 0x0b }
    }

    /// `0xa8a8a8`.
    pub fn dark_gray() -> (c: Self)
        ensures
            c == (Color { r: 0xa8, g: 0xa8, b: 0xa8 }),
    {
        Color { r: 0xa8, g: 0xa8, b: 0xa8 }
    }

    /// `0x006400`.
    pub fn dark_green() -> (c: Self)
        ensures
            c == (Color { r: 0x00, g: 0x64, b: 0x00 }),
    {
        Color { r: 0x00, g: 0x64, b: 0x00 }
    }

    /// `0xbcb66b`.
    pub fn dark_khaki() -> (c: Self)
        ensures
            c == (Color { r: 0xbc, g: 0xb6, b: 0x6b }),
    {
        Color { r: 0xbc, g: 0xb6, b: 0x6b }
    }

    /// `0x8a008a`.
    pub fn dark_magenta() -> (c: Self)
        ensures
            c == (Color { r: 0x8a, g: 0x00, b: 0x8a }),
    {
        Color { r: 0x8a, g: 0x00, b: 0x8a }
    }

    /// `0x546b2f`.
    pub fn dark_olive_green() -> (c: Self)
        ensures
            c == (Color { r: 0x54, g: 0x6b, b: 0x2f }),
    {
        Color { r: 0x54, g: 0x6b, b: 0x2f }
    }

    /// `0xff8c00`.
    pub fn dark_orange() -> (c: Self)
        ensures
            c == (Color { r: 0xff, g: 0x8c, b: 0x00 }),
    {
        Color { r: 0xff, g: 0x8c, b: 0x00 }
    }

    /// `0x9931cc`.
    pub fn dark_orchid() -> (c: Self)
        ensures
            c == (Color { r: 0x99, g: 0x31, b: 0xcc }),
    {
        Color { r: 0x99, g: 0x31, b: 0xcc }
    }

    /// `0x8a0000`.
    pub fn dark_red() -> (c: Self)
        ensures
            c == (Color { r: 0x8a, g: 0x00, b: 0x00 }),
    {
        Color { r: 0x8a, g: 0x00, b: 0x00 }
    }

    /// `0xe89579`.
    pub fn dark_salmon() -> (c: Self)
        ensures
            c == (Color { r: 0xe8, g: 0x95, b: 0x79 }),
    {
        Color { r: 0xe8, g: 0x95, b: 0x79 }
    }

    /// `0x8ebc8e`.
    pub fn dark_sea_green() -> (c: Self)
        ensures
            c == (Color { r: 0x8e, g: 0xbc, b: 0x8e }),
    {
        Color { r: 0x8e, g: 0xbc, b: 0x8e }
    }

    /// `0x483d8a`.
    pub fn dark_slate_blue() -> (c: Self)
        ensures
            c == (Color { r: 0x48, g: 0x3d, b: 0x8a }),
    {
        Color { r: 0x48, g: 0x3d, b: 0x8a }
    }

    /// `0x2f4f4f`.
    pub fn dark_slate_gray() -> (c: Self)
        ensures
            c == (Color { r: 0x2f, g: 0x4f, b: 0x4f }),
    {
        Color { r: 0x2f, g: 0x4f, b: 0x4f }
    }

    /// `0x00cdd1`.
    pub fn dark_turquoise() -> (c: Self)
        ensures
            c == (Color { r: 0x00, g: 0xcd, b: 0xd1 }),
    {
        Color { r: 0x00, g: 0xcd, b: 0xd1 }
    }

    /// `0x9300d3`.
    pub fn dark_violet() -> (c: Self)
        ensures
            c == (Color { r: 0x93, g: 0x00, b: 0xd3 }),
    {
        Color { r: 0x93, g: 0x00, b: 0xd3 }
    }

    /// `0xff1493`.
    pub fn deep_pink() -> (c: Self)
        ensures
            c == (Color { r: 0xff, g: 0x14, b: 0x93 }),
    {
        Color { r: 0xff, g: 0x14, b: 0x93 }
    }

    /// `0x00bfff`.
    pub fn deep_sky_blue() -> (c: Self)
        ensures
            c == (Color { r: 0x00, g: 0xbf, b: 0xff }),
    {
        Color { r: 0x00, g: 0xbf, b: 0xff }
    }

    /// `0x696969`.
    pub fn dim_gray() -> (c: Self)
        ensures
            c == (Color { r: 0x69, g: 0x69, b: 0x69 }),
    {
        Color { r: 0x69, g: 0x69, b: 0x69 }
    }

    /// `0x1d90ff`.
    pub fn dodger_blue() -> (c: Self)
        ensures
            c == (Color { r: 0x1d, g: 0x90, b: 0xff }),
    {
        Color { r: 0x1d, g: 0x90, b: 0xff }
    }

    /// `0xb12121`.
    pub fn firebrick() -> (c: Self)
        ensures
            c == (Color { r: 0xb1, g: 0x21, b: 0x21 }),
    {
        Color { r: 0xb1, g: 0x21, b: 0x21 }
    }

    /// `0xfff9ef`.
    pub fn floral_white() -> (c: Self)
        ensures
            c == (Color { r: 0xff, g: 0xf9, b: 0xef }),
    {
        Color { r: 0xff, g: 0xf9, b: 0xef }
    }

    /// `0x218a21`.
    pub fn forest_green() -> (c: Self)
        ensures
            c == (Color { r: 0x21, g: 0x8a, b: 0x21 }),
    {
        Color { r: 0x21, g: 0x8a, b: 0x21 }
    }

    /// `0xff00ff`.
    pub fn fuchsia() -> (c: Self)
        ensures
            c == (Color { r: 0xff, g: 0x00, b: 0xff }),
    {
        Color { r: 0xff, g: 0x00, b: 0xff }
    }

    /// `0xdbdbdb`.
    pub fn gainsboro() -> (c: Self)
        ensures
            c == (Color { r: 0xdb, g: 0xdb, b: 0xdb }),
    {
        Color { r: 0xdb, g: 0xdb, b: 0xdb }
    }

    /// `0xf7f7ff`.
    pub fn ghost_white() -> (c: Self)
        ensures
            c == (Color { r: 0xf7, g: 0xf7, b: 0xff }),
    {
        Color { r: 0xf7, g: 0xf7, b: 0xff }
    }

    /// `0xffd600`.
    pub fn gold() -> (c: Self)
        ensures
            c == (Color { r: 0xff, g: 0xd6, b: 0x00 }),
    {
        Color { r: 0xff, g: 0xd6, b: 0x00 }
    }

    /// `0xdaa51f`.
    pub fn goldenrod() -> (c: Self)
        ensures
            c == (Color { r: 0xda, g: 0xa5, b: 0x1f }),
    {
        Color { r: 0xda, g: 0xa5, b: 0x1f }
    }

    /// `0xbdbdbd`.
    pub fn gray() -> (c: Self)
        ensures
            c == (Color { r: 0xbd, g: 0xbd, b: 0xbd }),
    {
        Color { r: 0xbd, g: 0xbd, b: 0xbd }
    }

    /// `0x00ff00`.
    pub fn green() -> (c: Self)
        ensures
            c == (Color { r: 0x00, g: 0xff, b: 0x00 }),
    {
        Color { r: 0x00, g: 0xff, b: 0x00 }
    }

    /// `0xacff2f`.
    pub fn green_yellow() -> (c: Self)
        ensures
            c == (Color { r: 0xac, g: 0xff, b: 0x2f }),
    {
        Color { r: 0xac, g: 0xff, b: 0x2f }
    }

    /// `0xefffef`.
    pub fn honeydew() -> (c: Self)
        ensures
            c == (Color { r: 0xef, g: 0xff, b: 0xef }),
    {
        Color { r: 0xef, g: 0xff, b: 0xef }
    }

    /// `0xff69b3`.
    pub fn hot_pink() -> (c: Self)
        ensures
            c == (Color { r: 0xff, g: 0x69, b: 0xb3 }),
    {
        Color { r: 0xff, g: 0x69, b: 0xb3 }
    }

    /// `0xcd5b5b`.
    pub fn indian_red() -> (c: Self)
        ensures
            c == (Color { r: 0xcd, g: 0x5b, b: 0x5b }),
    {
        Color { r: 0xcd, g: 0x5b, b: 0x5b }
    }

    /// `0x4b0082`.
    pub fn indigo() -> (c: Self)
        ensures
            c == (Color { r: 0x4b, g: 0x00, b: 0x82 }),
    {
        Color { r: 0x4b, g: 0x00, b: 0x82 }
    }

    /// `0xffffef`.
    pub fn ivory() -> (c: Self)
        ensures
            c == (Color { r: 0xff, g: 0xff, b: 0xef }),
    {
        Color { r: 0xff, g: 0xff, b: 0xef }
    }

    /// `0xefe68c`.
    pub fn khaki() -> (c: Self)
        ensures
            c == (Color { r: 0xef, g: 0xe6, b: 0x8c }),
    {
        Color { r: 0xef, g: 0xe6, b: 0x8c }
    }

    /// `0xe6e6f9`.
    pub fn lavender() -> (c: Self)
        ensures
            c == (Color { r: 0xe6, g: 0xe6, b: 0xf9 }),
    {
        Color { r: 0xe6, g: 0xe6, b: 0xf9 }
    }

    /// `0xffeff4`.
    pub fn lavender_blush() -> (c: Self)
        ensures
            c == (Color { r: 0xff, g: 0xef, b: 0xf4 }),
    {
        Color { r: 0xff, g: 0xef, b: 0xf4 }
    }

    /// `0x7cfb00`.
    pub fn lawn_green() -> (c: Self)
        ensures
            c == (Color { r: 0x7c, g: 0xfb, b: 0x00 }),
    {
        Color { r: 0x7c, g: 0xfb, b: 0x00 }
    }

    /// `0xfff9cd`.
    pub fn lemon_chiffon() -> (c: Self)
        ensures
            c == (Color { r: 0xff, g: 0xf9, b: 0xcd }),
    {
        Color { r: 0xff, g: 0xf9, b: 0xcd }
    }

    /// `0xacd8e6`.
    pub fn light_blue() -> (c: Self)
        ensures
            c == (Color { r: 0xac, g: 0xd8, b: 0xe6 }),
    {
        Color { r: 0xac, g: 0xd8, b: 0xe6 }
    }

    /// `0xef8080`.
    pub fn light_coral() -> (c: Self)
        ensures
            c == (Color { r: 0xef, g: 0x80, b: 0x80 }),
    {
        Color { r: 0xef, g: 0x80, b: 0x80 }
    }

    /// `0xdfffff`.
    pub fn light_cyan() -> (c: Self)
        ensures
            c == (Color { r: 0xdf, g: 0xff, b: 0xff }),
    {
        Color { r: 0xdf, g: 0xff, b: 0xff }
    }

    /// `0xf9f9d1`.
    pub fn light_goldenrod() -> (c: Self)
        ensures
            c == (Color { r: 0xf9, g: 0xf9, b: 0xd1 }),
    {
        Color { r: 0xf9, g: 0xf9, b: 0xd1 }
    }

    /// `0xd3d3d3`.
    pub fn light_gray() -> (c: Self)
        ensures
            c == (Color { r: 0xd3, g: 0xd3, b: 0xd3 }),
    {
        Color { r: 0xd3, g: 0xd3, b: 0xd3 }
    }

    /// `0x90ed90`.
    pub fn light_green() -> (c: Self)
        ensures
            c == (Color { r: 0x90, g: 0xed, b: 0x90 }),
    {
        Color { r: 0x90, g: 0xed, b: 0x90 }
    }

    /// `0xffb6c1`.
    pub fn light_pink() -> (c: Self)
        ensures
            c == (Color { r: 0xff, g: 0xb6, b: 0xc1 }),
    {
        Color { r: 0xff, g: 0xb6, b: 0xc1 }
    }

    /// `0xffa079`.
    pub fn light_salmon() -> (c: Self)
        ensures
            c == (Color { r: 0xff, g: 0xa0, b: 0x79 }),
    {
        Color { r: 0xff, g: 0xa0, b: 0x79 }
    }

    /// `0x1fb1aa`.
    pub fn light_sea_green() -> (c: Self)
        ensures
            c == (Color { r: 0x1f, g: 0xb1, b: 0xaa }),
    {
        Color { r: 0x1f, g: 0xb1, b: 0xaa }
    }

    /// `0x87cdf9`.
    pub fn light_sky_blue() -> (c: Self)
        ensures
            c == (Color { r: 0x87, g: 0xcd, b: 0xf9 }),
    {
        Color { r: 0x87, g: 0xcd, b: 0xf9 }
    }

    /// `0x778799`.
    pub fn light_slate_gray() -> (c: Self)
        ensures
            c == (Color { r: 0x77, g: 0x87, b: 0x99 }),
    {
        Color { r: 0x77, g: 0x87, b: 0x99 }
    }

    /// `0xafc3dd`.
    pub fn light_steel_blue() -> (c: Self)
        ensures
            c == (Color { r: 0xaf, g: 0xc3, b: 0xdd }),
    {
        Color { r: 0xaf, g: 0xc3, b: 0xdd }
    }

    /// `0xffffdf`.
    pub fn light_yellow() -> (c: Self)
        ensures
            c == (Color { r: 0xff, g: 0xff, b: 0xdf }),
    {
        Color { r: 0xff, g: 0xff, b: 0xdf }
    }

    /// `0x00ff00`.
    pub fn lime() -> (c: Self)
        ensures
            c == (Color { r: 0x00, g: 0xff, b: 0x00 }),
    {
        Color { r: 0x00, g: 0xff, b: 0x00 }
    }

    /// `0x31cd31`.
    pub fn lime_green() -> (c: Self)
        ensures
            c == (Color { r: 0x31, g: 0xcd, b: 0x31 }),
    {
        Color { r: 0x31, g: 0xcd, b: 0x31 }
    }

    /// `0xf9efe6`.
    pub fn linen() -> (c: Self)
        ensures
            c == (Color { r: 0xf9, g: 0xef, b: 0xe6 }),
    {
        Color { r: 0xf9, g: 0xef, b: 0xe6 }
    }

    /// `0xff00ff`.
    pub fn magenta() -> (c: Self)
        ensures
            c == (Color { r: 0xff, g: 0x00, b: 0xff }),
    {
        Color { r: 0xff, g: 0x00, b: 0xff }
    }

    /// `0xaf2f60`.
    pub fn maroon() -> (c: Self)
        ensures
            c == (Color { r: 0xaf, g: 0x2f, b: 0x60 }),
    {
        Color { r: 0xaf, g: 0x2f, b: 0x60 }
    }

    /// `0x66cdaa`.
    pub fn medium_aquamarine() -> (c: Self)
        ensures
            c == (Color { r: 0x66, g: 0xcd, b: 0xaa }),
    {
        Color { r: 0x66, g: 0xcd, b: 0xaa }
    }

    /// `0x0000cd`.
    pub fn medium_blue() -> (c: Self)
        ensures
            c == (Color { r: 0x00, g: 0x00, b: 0xcd }),
    {
        Color { r: 0x00, g: 0x00, b: 0xcd }
    }

    /// `0xba54d3`.
    pub fn medium_orchid() -> (c: Self)
        ensures
            c == (Color { r: 0xba, g: 0x54, b: 0xd3 }),
    {
        Color { r: 0xba, g: 0x54, b: 0xd3 }
    }

    /// `0x9370db`.
    pub fn medium_purple() -> (c: Self)
        ensures
            c == (Color { r: 0x93, g: 0x70, b: 0xdb }),
    {
        Color { r: 0x93, g: 0x70, b: 0xdb }
    }

    /// `0x3bb370`.
    pub fn medium_sea_green() -> (c: Self)
        ensures
            c == (Color { r: 0x3b, g: 0xb3, b: 0x70 }),
    {
        Color { r: 0x3b, g: 0xb3, b: 0x70 }
    }

    /// `0x7b67ed`.
    pub fn medium_slate_blue() -> (c: Self)
        ensures
            c == (Color { r: 0x7b, g: 0x67, b: 0xed }),
    {
        Color { r: 0x7b, g: 0x67, b: 0xed }
    }

    /// `0x00f99a`.
    pub fn medium_spring_green() -> (c: Self)
        ensures
            c == (Color { r: 0x00, g: 0xf9, b: 0x9a }),
    {
        Color { r: 0x00, g: 0xf9, b: 0x9a }
    }

    /// `0x48d1cc`.
    pub fn medium_turquoise() -> (c: Self)
        ensures
            c == (Color { r: 0x48, g: 0xd1, b: 0xcc }),
    {
        Color { r: 0x48, g: 0xd1, b: 0xcc }
    }

    /// `0xc61485`.
    pub fn medium_violet_red() -> (c: Self)
        ensures
            c == (Color { r: 0xc6, g: 0x14, b: 0x85 }),
    {
        Color { r: 0xc6, g: 0x14, b: 0x85 }
    }

    /// `0x181870`.
    pub fn midnight_blue() -> (c: Self)
        ensures
            c == (Color { r: 0x18, g: 0x18, b: 0x70 }),
    {
        Color { r: 0x18, g: 0x18, b: 0x70 }
    }

    /// `0xf4fff9`.
    pub fn mint_cream() -> (c: Self)
        ensures
            c == (Color { r: 0xf4, g: 0xff, b: 0xf9 }),
    {
        Color { r: 0xf4, g: 0xff, b: 0xf9 }
    }

    /// `0xffe4e1`.
    pub fn misty_rose() -> (c: Self)
        ensures
            c == (Color { r: 0xff, g: 0xe4, b: 0xe1 }),
    {
        Color { r: 0xff, g: 0xe4, b: 0xe1 }
    }

    /// `0xffe4b5`.
    pub fn moccasin() -> (c: Self)
        ensures
            c == (Color { r: 0xff, g: 0xe4, b: 0xb5 }),
    {
        Color { r: 0xff, g: 0xe4, b: 0xb5 }
    }

    /// `0xffddac`.
    pub fn navajo_white() -> (c: Self)
        ensures
            c == (Color { r: 0xff, g: 0xdd, b: 0xac }),
    {
        Color { r: 0xff, g: 0xdd, b: 0xac }
    }

    /// `0x000080`.
    pub fn navy_blue() -> (c: Self)
        ensures
            c == (Color { r: 0x00, g: 0x00, b: 0x80 }),
    {
        Color { r: 0x00, g: 0x00, b: 0x80 }
    }

    /// `0xfdf4e6`.
    pub fn old_lace() -> (c: Self)
        ensures
            c == (Color { r: 0xfd, g: 0xf4, b: 0xe6 }),
    {
        Color { r: 0xfd, g: 0xf4, b: 0xe6 }
    }

    /// `0x808000`.
    pub fn olive() -> (c: Self)
        ensures
            c == (Color { r: 0x80, g: 0x80, b: 0x00 }),
    {
        Color { r: 0x80, g: 0x80, b: 0x00 }
    }

    /// `0x6b8e23`.
    pub fn olive_drab() -> (c: Self)
        ensures
            c == (Color { r: 0x6b, g: 0x8e, b: 0x23 }),
    {
        Color { r: 0x6b, g: 0x8e, b: 0x23 }
    }

    /// `0xffa500`.
    pub fn orange() -> (c: Self)
        ensures
            c == (Color { r: 0xff, g: 0xa5, b: 0x00 }),
    {
        Color { r: 0xff, g: 0xa5, b: 0x00 }
    }

    /// `0xff4400`.
    pub fn orange_red() -> (c: Self)
        ensures
            c == (Color { r: 0xff, g: 0x44, b: 0x00 }),
    {
        Color { r: 0xff, g: 0x44, b: 0x00 }
    }

    /// `0xda70d6`.
    pub fn orchid() -> (c: Self)
        ensures
            c == (Color { r: 0xda, g: 0x70, b: 0xd6 }),
    {
        Color { r: 0xda, g: 0x70, b: 0xd6 }
    }

    /// `0xede8aa`.
    pub fn pale_goldenrod() -> (c: Self)
        ensures
            c == (Color { r: 0xed, g: 0xe8, b: 0xaa }),
    {
        Color { r: 0xed, g: 0xe8, b: 0xaa }
    }

    /// `0x97fb97`.
    pub fn pale_green() -> (c: Self)
        ensures
            c == (Color { r: 0x97, g: 0xfb, b: 0x97 }),
    {
        Color { r: 0x97, g: 0xfb, b: 0x97 }
    }

    /// `0xafeded`.
    pub fn pale_turquoise() -> (c: Self)
        ensures
            c == (Color { r: 0xaf, g: 0xed, b: 0xed }),
    {
        Color { r: 0xaf, g: 0xed, b: 0xed }
    }

    /// `0xdb7093`.
    pub fn pale_violet_red() -> (c: Self)
        ensures
            c == (Color { r: 0xdb, g: 0x70, b: 0x93 }),
    {
        Color { r: 0xdb, g: 0x70, b: 0x93 }
    }

    /// `0xffefd4`.
    pub fn papaya_whip() -> (c: Self)
        ensures
            c == (Color { r: 0xff, g: 0xef, b: 0xd4 }),
    {
        Color { r: 0xff, g: 0xef, b: 0xd4 }
    }

    /// `0xffdab8`.
    pub fn peach_puff() -> (c: Self)
        ensures
            c == (Color { r: 0xff, g: 0xda, b: 0xb8 }),
    {
        Color { r: 0xff, g: 0xda, b: 0xb8 }
    }

    /// `0xcd853f`.
    pub fn peru() -> (c: Self)
        ensures
            c == (Color { r: 0xcd, g: 0x85, b: 0x3f }),
    {
        Color { r: 0xcd, g: 0x85, b: 0x3f }
    }

    /// `0xffbfca`.
    pub fn pink() -> (c: Self)
        ensures
            c == (Color { r: 0xff, g: 0xbf, b: 0xca }),
    {
        Color { r: 0xff, g: 0xbf, b: 0xca }
    }

    /// `0xdda0dd`.
    pub fn plum() -> (c: Self)
        ensures
            c == (Color { r: 0xdd, g: 0xa0, b: 0xdd }),
    {
        Color { r: 0xdd, g: 0xa0, b: 0xdd }
    }

    /// `0xafdfe6`.
    pub fn powder_blue() -> (c: Self)
        ensures
            c == (Color { r: 0xaf, g: 0xdf, b: 0xe6 }),
    {
        Color { r: 0xaf, g: 0xdf, b: 0xe6 }
    }

    /// `0xa01fef`.
    pub fn purple() -> (c: Self)
        ensures
            c == (Color { r: 0xa0, g: 0x1f, b: 0xef }),
    {
        Color { r: 0xa0, g: 0x1f, b: 0xef }
    }

    /// `0x663399`.
    pub fn rebecca_purple() -> (c: Self)
        ensures
            c == (Color { r: 0x66, g: 0x33, b: 0x99 }),
    {
        Color { r: 0x66, g: 0x33, b: 0x99 }
    }

    /// `0xff0000`.
    pub fn red() -> (c: Self)
        ensures
            c == (Color { r: 0xff, g: 0x00, b: 0x00 }),
    {
        Color { r: 0xff, g: 0x00, b: 0x00 }
    }

    /// `0xbc8e8e`.
    pub fn rosy_brown() -> (c: Self)
        ensures
            c == (Color { r: 0xbc, g: 0x8e, b: 0x8e }),
    {
        Color { r: 0xbc, g: 0x8e, b: 0x8e }
    }

    /// `0x4169e1`.
    pub fn royal_blue() -> (c: Self)
        ensures
            c == (Color { r: 0x41, g: 0x69, b: 0xe1 }),
    {
        Color { r: 0x41, g: 0x69, b: 0xe1 }
    }

    /// `0x8a4412`.
    pub fn saddle_brown() -> (c: Self)
        ensures
            c == (Color { r: 0x8a, g: 0x44, b: 0x12 }),
    {
        Color { r: 0x8a, g: 0x44, b: 0x12 }
    }

    /// `0xf98072`.
    pub fn salmon() -> (c: Self)
        ensures
            c == (Color { r: 0xf9, g: 0x80, b: 0x72 }),
    {
        Color { r: 0xf9, g: 0x80, b: 0x72 }
    }

    /// `0xf4a360`.
    pub fn sandy_brown() -> (c: Self)
        ensures
            c == (Color { r: 0xf4, g: 0xa3, b: 0x60 }),
    {
        Color { r: 0xf4, g: 0xa3, b: 0x60 }
    }

    /// `0x2d8a56`.
    pub fn sea_green() -> (c: Self)
        ensures
            c == (Color { r: 0x2d, g: 0x8a, b: 0x56 }),
    {
        Color { r: 0x2d, g: 0x8a, b: 0x56 }
    }

    /// `0xfff4ed`.
    pub fn seashell() -> (c: Self)
        ensures
            c == (Color { r: 0xff, g: 0xf4, b: 0xed }),
    {
        Color { r: 0xff, g: 0xf4, b: 0xed }
    }

    /// `0xa0522d`.
    pub fn sienna() -> (c: Self)
        ensures
            c == (Color { r: 0xa0, g: 0x52, b: 0x2d }),
    {
        Color { r: 0xa0, g: 0x52, b: 0x2d }
    }

    /// `0xbfbfbf`.
    pub fn silver() -> (c: Self)
        ensures
            c == (Color { r: 0xbf, g: 0xbf, b: 0xbf }),
    {
        Color { r: 0xbf, g: 0xbf, b: 0xbf }
    }

    /// `0x87cdeb`.
    pub fn sky_blue() -> (c: Self)
        ensures
            c == (Color { r: 0x87, g: 0xcd, b: 0xeb }),
    {
        Color { r: 0x87, g: 0xcd, b: 0xeb }
    }

    /// `0x6959cd`.
    pub fn slate_blue() -> (c: Self)
        ensures
            c == (Color { r: 0x69, g: 0x59, b: 0xcd }),
    {
        Color { r: 0x69, g: 0x59, b: 0xcd }
    }

    /// `0x708090`.
    pub fn slate_gray() -> (c: Self)
        ensures
            c == (Color { r: 0x70, g: 0x80, b: 0x90 }),
    {
        Color { r: 0x70, g: 0x80, b: 0x90 }
    }

    /// `0xfff9f9`.
    pub fn snow() -> (c: Self)
        ensures
            c == (Color { r: 0xff, g: 0xf9, b: 0xf9 }),
    {
        Color { r: 0xff, g: 0xf9, b: 0xf9 }
    }

    /// `0x00ff7e`.
    pub fn spring_green() -> (c: Self)
        ensures
            c == (Color { r: 0x00, g: 0xff, b: 0x7e }),
    {
        Color { r: 0x00, g: 0xff, b: 0x7e }
    }

    /// `0x4682b3`.
    pub fn steel_blue() -> (c: Self)
        ensures
            c == (Color { r: 0x46, g: 0x82, b: 0xb3 }),
    {
        Color { r: 0x46, g: 0x82, b: 0xb3 }
    }

    /// `0xd1b38c`.
    pub fn tan() -> (c: Self)
        ensures
            c == (Color { r: 0xd1, g: 0xb3, b: 0x8c }),
    {
        Color { r: 0xd1, g: 0xb3, b: 0x8c }
    }

    /// `0x008080`.
    pub fn teal() -> (c: Self)
        ensures
            c == (Color { r: 0x00, g: 0x80, b: 0x80 }),
    {
        Color { r: 0x00, g: 0x80, b: 0x80 }
    }

    /// `0xd8bfd8`.
    pub fn thistle() -> (c: Self)
        ensures
            c == (Color { r: 0xd8, g: 0xbf, b: 0xd8 }),
    {
        Color { r: 0xd8, g: 0xbf, b: 0xd8 }
    }

    /// `0xff6246`.
    pub fn tomato() -> (c: Self)
        ensures
            c == (Color { r: 0xff, g: 0x62, b: 0x46 }),
    {
        Color { r: 0xff, g: 0x62, b: 0x46 }
    }

    /// `0xffffff`.
    pub fn transparent() -> (c: Self)
        ensures
            c == (Color { r: 0xff, g: 0xff, b: 0xff }),
    {
        Color { r: 0xff, g: 0xff, b: 0xff }
    }

    /// `0x3fdfcf`.
    pub fn turquoise() -> (c: Self)
        ensures
            c == (Color { r: 0x3f, g: 0xdf, b: 0xcf }),
    {
        Color { r: 0x3f, g: 0xdf, b: 0xcf }
    }

    /// `0xed82ed`.
    pub fn violet() -> (c: Self)
        ensures
            c == (Color { r: 0xed, g: 0x82, b: 0xed }),
    {
        Color { r: 0xed, g: 0x82, b: 0xed }
    }

    /// `0x808080`.
    pub fn web_gray() -> (c: Self)
        ensures
            c == (Color { r: 0x80, g: 0x80, b: 0x80 }),
    {
        Color { r: 0x80, g: 0x80, b: 0x80 }
    }

    /// `0x008000`.
    pub fn web_green() -> (c: Self)
        ensures
            c == (Color { r: 0x00, g: 0x80, b: 0x00 }),
    {
        Color { r: 0x00, g: 0x80, b: 0x00 }
    }

    /// `0x800000`.
    pub fn web_maroon() -> (c: Self)
        ensures
            c == (Color { r: 0x80, g: 0x00, b: 0x00 }),
    {
        Color { r: 0x80, g: 0x00, b: 0x00 }
    }

    /// `0x800080`.
    pub fn web_purple() -> (c: Self)
        ensures
            c == (Color { r: 0x80, g: 0x00, b: 0x80 }),
    {
        Color { r: 0x80, g: 0x00, b: 0x80 }
    }

    /// `0xf4ddb3`.
    pub fn wheat() -> (c: Self)
        ensures
            c == (Color { r: 0xf4, g: 0xdd, b: 0xb3 }),
    {
        Color { r: 0xf4, g: 0xdd, b: 0xb3 }
    }

    /// `0xffffff`.
    pub fn white() -> (c: Self)
        ensures
            c == (Color { r: 0xff, g: 0xff, b: 0xff }),
    {
        Color { r: 0xff, g: 0xff, b: 0xff }
    }

    /// `0xf4f4f4`.
    pub fn white_smoke() -> (c: Self)
        ensures
            c == (Color { r: 0xf4, g: 0xf4, b: 0xf4 }),
    {
        Color { r: 0xf4, g: 0xf4, b: 0xf4 }
    }

    /// `0xffff00`.
    pub fn yellow() -> (c: Self)
        ensures
            c == (Color { r: 0xff, g: 0xff, b: 0x00 }),
    {
        Color { r: 0xff, g: 0xff, b: 0x00 }
    }

    /// `0x9acd31`.
    pub fn yellow_green() -> (c: Self)
        ensures
            c == (Color { r: 0x9a, g: 0xcd, b: 0x31 }),
    {
        Color { r: 0x9a, g: 0xcd, b: 0x31 }
    }
}

} // verus!
