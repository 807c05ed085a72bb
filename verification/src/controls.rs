//! The render-configuration snapshot.
//!
//! The side panel hands the renderer a read-only snapshot each frame:
//! which fractal variant to draw, the iteration cap, the color count, the
//! anti-aliasing level, the smoothing flag and the ordered color palette.
//! Color channels are carried as the bit patterns of their 32-bit float
//! values; the packer moves them into GPU buffers without looking inside.

use vstd::prelude::*;
use vstd::string::StringExecFns;

verus! {

/// The fractal variants the shader can draw.
#[derive(Clone, Copy, PartialEq, Eq, Structural, Debug, Default)]
pub enum Fractals {
    /// The Mandelbrot set.
    #[default]
    Mandelbrot,
    /// The burning-ship fractal.
    BurningShip,
    /// The tricorn (Mandelbar) fractal.
    Tricorn,
    /// The feather fractal.
    Feather,
    /// The eye fractal.
    Eye,
}

/// The selector value a variant contributes to the packed fractal word:
/// one distinct bit per variant.
pub open spec fn fractal_id_spec(f: Fractals) -> int {
    match f {
        Fractals::Mandelbrot => 1,
        Fractals::BurningShip => 2,
        Fractals::Tricorn => 4,
        Fractals::Feather => 8,
        Fractals::Eye => 16,
    }
}

/// The name shown for a variant.
pub open spec fn fractal_name_spec(f: Fractals) -> Seq<char> {
    match f {
        Fractals::Mandelbrot => "Mandelbrot set"@,
        Fractals::BurningShip => "Burning ship"@,
        Fractals::Tricorn => "Tricorn"@,
        Fractals::Feather => "Feather"@,
        Fractals::Eye => "Eye"@,
    }
}

impl Fractals {
    /// The selector value of this variant, one distinct bit each.
    pub fn id(&self) -> (r: u32)
        ensures
            r == fractal_id_spec(*self),
    {
        match self {
            Fractals::Mandelbrot => 1,
            Fractals::BurningShip => 2,
            Fractals::Tricorn => 4,
            Fractals::Feather => 8,
            Fractals::Eye => 16,
        }
    }

    /// The variant with the given selector value, if any.
    pub fn from_id(id: u32) -> (r: Option<Fractals>)
        ensures
            match r {
                Some(f) => fractal_id_spec(f) == id,
                None => forall|f: Fractals| fractal_id_spec(f) != id,
            },
    {
        match id {
            1u32 => Some(Fractals::Mandelbrot),
            2u32 => Some(Fractals::BurningShip),
            4u32 => Some(Fractals::Tricorn),
            8u32 => Some(Fractals::Feather),
            16u32 => Some(Fractals::Eye),
            _ => None,
        }
    }

    /// The name shown for this variant.
    pub fn display_name(&self) -> (r: String)
        ensures
            r@ == fractal_name_spec(*self),
    {
        match self {
            Fractals::Mandelbrot => "Mandelbrot set".to_owned(),
            Fractals::BurningShip => "Burning ship".to_owned(),
            Fractals::Tricorn => "Tricorn".to_owned(),
            Fractals::Feather => "Feather".to_owned(),
            Fractals::Eye => "Eye".to_owned(),
        }
    }
}

/// One palette entry: the bit patterns of the four 32-bit float channels,
/// red, green, blue, alpha.
#[derive(Clone, Copy, PartialEq, Eq, Structural, Debug)]
pub struct Color {
    /// Bit pattern of the red channel.
    pub r_bits: u32,
    /// Bit pattern of the green channel.
    pub g_bits: u32,
    /// Bit pattern of the blue channel.
    pub b_bits: u32,
    /// Bit pattern of the alpha channel.
    pub a_bits: u32,
}

/// Bit pattern of the 32-bit float value one: a full color channel.
pub const ONE_BITS: u32 = 0x3F80_0000;

/// Bit pattern of the 32-bit float value 85/255.
pub const BITS_85_OF_255: u32 = 0x3EAA_AAAB;

/// Bit pattern of the 32-bit float value 205/255.
pub const BITS_205_OF_255: u32 = 0x3F4D_CDCE;

/// Bit pattern of the 32-bit float value 252/255.
pub const BITS_252_OF_255: u32 = 0x3F7C_FCFD;

/// Bit pattern of the 32-bit float value 247/255.
pub const BITS_247_OF_255: u32 = 0x3F77_F7F8;

/// Bit pattern of the 32-bit float value 168/255.
pub const BITS_168_OF_255: u32 = 0x3F28_A8A9;

/// Bit pattern of the 32-bit float value 184/255.
pub const BITS_184_OF_255: u32 = 0x3F38_B8B9;

/// The startup palette, opaque alpha throughout: a light-blue stripe
/// (85, 205, 252 over 255), a pink stripe (247, 168, 184 over 255),
/// white, and the pink and light-blue stripes again.
pub open spec fn startup_palette_spec() -> Seq<Color> {
    seq![
        Color {
            r_bits: BITS_85_OF_255,
            g_bits: BITS_205_OF_255,
            b_bits: BITS_252_OF_255,
            a_bits: ONE_BITS,
        },
        Color {
            r_bits: BITS_247_OF_255,
            g_bits: BITS_168_OF_255,
            b_bits: BITS_184_OF_255,
            a_bits: ONE_BITS,
        },
        Color { r_bits: ONE_BITS, g_bits: ONE_BITS, b_bits: ONE_BITS, a_bits: ONE_BITS },
        Color {
            r_bits: BITS_247_OF_255,
            g_bits: BITS_168_OF_255,
            b_bits: BITS_184_OF_255,
            a_bits: ONE_BITS,
        },
        Color {
            r_bits: BITS_85_OF_255,
            g_bits: BITS_205_OF_255,
            b_bits: BITS_252_OF_255,
            a_bits: ONE_BITS,
        },
    ]
}

/// The state of the side panel, read as an immutable snapshot by the
/// renderer each frame: fractal variant, iteration cap, color count,
/// smoothing, anti-aliasing level, and the ordered color palette.
#[derive(Clone, PartialEq, Eq, Debug)]
pub struct Controls {
    /// Whether the panel is unfolded.
    pub ui_open: bool,
    /// Which fractal variant to draw.
    pub current_fractal: Fractals,
    /// The ordered color palette.
    pub colors: Vec<Color>,
    /// Iteration cap of the escape-time loop.
    pub num_iters: u32,
    /// How many palette entries the shader blends over.
    pub num_colors: u32,
    /// Smooth coloring on or off.
    pub smooth_enabled: bool,
    /// Anti-aliasing level, 1 through 8.
    pub msaa: u32,
    /// Which palette entry the color picker edits.
    pub color_editing_index: usize,
    /// Whether the color picker is open.
    pub editing_color: bool,
}

/// An interaction with the side panel.
#[derive(Clone, Copy, PartialEq, Eq, Structural, Debug)]
pub enum Message {
    /// Fold or unfold the panel.
    ToggleUi,
    /// Select a fractal variant.
    ChangeFractal(Fractals),
    /// Move the color-count slider.
    NumColorsChanged(u32),
    /// Move the iteration-cap slider.
    NumItersChanged(u32),
    /// Switch smooth coloring.
    ToggleSmooth(bool),
    /// Move the anti-aliasing slider.
    MsaaChanged(u32),
    /// Delete one palette entry.
    ColorRemove(usize),
    /// Open the color picker on one palette entry.
    OpenColorPicker(usize),
    /// Append a white palette entry.
    ColorAdd,
    /// Close the color picker without a choice.
    CancelColor,
    /// Close the color picker with a choice.
    SubmitColor(Color),
}

/// Which messages a state accepts: an index into the palette must exist.
pub open spec fn update_allowed(c: Controls, msg: Message) -> bool {
    match msg {
        Message::ColorRemove(index) => index < c.colors@.len(),
        Message::SubmitColor(_) => c.color_editing_index < c.colors@.len(),
        _ => true,
    }
}

impl Controls {
    /// The panel at startup: the five-stripe startup palette, one
    /// thousand iterations, two hundred colors, no anti-aliasing,
    /// everything folded.
    pub fn new() -> (c: Controls)
        ensures
            c.colors@ == startup_palette_spec(),
            !c.ui_open,
            c.current_fractal == Fractals::Mandelbrot,
            c.num_iters == 1000,
            c.num_colors == 200,
            c.msaa == 1,
            !c.smooth_enabled,
            c.color_editing_index == 0,
            !c.editing_color,
    {
        let colors: Vec<Color> = vec![
            Color {
                r_bits: BITS_85_OF_255,
                g_bits: BITS_205_OF_255,
                b_bits: BITS_252_OF_255,
                a_bits: ONE_BITS,
            },
            Color {
                r_bits: BITS_247_OF_255,
                g_bits: BITS_168_OF_255,
                b_bits: BITS_184_OF_255,
                a_bits: ONE_BITS,
            },
            Color { r_bits: ONE_BITS, g_bits: ONE_BITS, b_bits: ONE_BITS, a_bits: ONE_BITS },
            Color {
                r_bits: BITS_247_OF_255,
                g_bits: BITS_168_OF_255,
                b_bits: BITS_184_OF_255,
                a_bits: ONE_BITS,
            },
            Color {
                r_bits: BITS_85_OF_255,
                g_bits: BITS_205_OF_255,
                b_bits: BITS_252_OF_255,
                a_bits: ONE_BITS,
            },
        ];
        proof {
            assert(colors@ =~= startup_palette_spec());
        }
        Controls {
            ui_open: false,
            current_fractal: Fractals::Mandelbrot,
            colors,
            num_iters: 1000,
            num_colors: 200,
            smooth_enabled: false,
            msaa: 1,
            color_editing_index: 0,
            editing_color: false,
        }
    }

    /// Apply one panel interaction to the state: flip the toggles, move
    /// the sliders, and edit the palette as the message says, leaving
    /// every other field alone.
    pub fn update(&mut self, msg: Message)
        requires
            update_allowed(*old(self), msg),
        ensures
            match msg {
                Message::ToggleUi => *final(self) == (Controls {
                    ui_open: !old(self).ui_open,
                    ..*old(self)
                }),
                Message::ChangeFractal(f) => *final(self) == (Controls {
                    current_fractal: f,
                    ..*old(self)
                }),
                Message::NumColorsChanged(value) => *final(self) == (Controls {
                    num_colors: value,
                    ..*old(self)
                }),
                Message::NumItersChanged(value) => *final(self) == (Controls {
                    num_iters: value,
                    ..*old(self)
                }),
                Message::ToggleSmooth(value) => *final(self) == (Controls {
                    smooth_enabled: value,
                    ..*old(self)
                }),
                Message::MsaaChanged(value) => *final(self) == (Controls {
                    msaa: value,
                    ..*old(self)
                }),
                Message::ColorRemove(index) => *final(self) == (Controls {
                    colors: final(self).colors,
                    ..*old(self)
                }) && final(self).colors@ == old(self).colors@.remove(index as int),
                Message::OpenColorPicker(index) => *final(self) == (Controls {
                    color_editing_index: index,
                    editing_color: true,
                    ..*old(self)
                }),
                Message::ColorAdd => *final(self) == (Controls {
                    colors: final(self).colors,
                    ..*old(self)
                }) && final(self).colors@ == old(self).colors@.push(
                    Color {
                        r_bits: ONE_BITS,
                        g_bits: ONE_BITS,
                        b_bits: ONE_BITS,
                        a_bits: ONE_BITS,
                    },
                ),
                Message::CancelColor => *final(self) == (Controls {
                    editing_color: false,
                    ..*old(self)
                }),
                Message::SubmitColor(color) => *final(self) == (Controls {
                    editing_color: false,
                    colors: final(self).colors,
                    ..*old(self)
                }) && final(self).colors@ == old(self).colors@.update(
                    old(self).color_editing_index as int,
                    color,
                ),
            },
    {
        match msg {
            Message::ToggleUi => {
                self.ui_open = !self.ui_open;
            },
            Message::ChangeFractal(f) => {
                self.current_fractal = f;
            },
            Message::NumColorsChanged(value) => {
                self.num_colors = value;
            },
            Message::NumItersChanged(value) => {
                self.num_iters = value;
            },
            Message::ToggleSmooth(value) => {
                self.smooth_enabled = value;
            },
            Message::MsaaChanged(value) => {
                self.msaa = value;
            },
            Message::ColorRemove(index) => {
                self.colors.remove(index);
            },
            Message::OpenColorPicker(index) => {
                self.color_editing_index = index;
                self.editing_color = true;
            },
            Message::ColorAdd => {
                self.colors.push(
                    Color {
                        r_bits: ONE_BITS,
                        g_bits: ONE_BITS,
                        b_bits: ONE_BITS,
                        a_bits: ONE_BITS,
                    },
                );
            },
            Message::CancelColor => {
                self.editing_color = false;
            },
            Message::SubmitColor(color) => {
                self.editing_color = false;
                self.colors[self.color_editing_index] = color;
            },
        }
    }

    /// The palette flattened to one word per channel, four words per
    /// color, in palette order.
    pub fn get_colors_raw(&self) -> (r: Vec<u32>)
        ensures
            r@.len() == 4 * self.colors@.len(),
            forall|i: int|
                0 <= i < self.colors@.len() ==> {
                    &&& r@[4 * i] == self.colors@[i].r_bits
                    &&& r@[4 * i + 1] == self.colors@[i].g_bits
                    &&& r@[4 * i + 2] == self.colors@[i].b_bits
                    &&& r@[4 * i + 3] == self.colors@[i].a_bits
                },
    {
        let mut r: Vec<u32> = Vec::new();
        let mut i: usize = 0;
        while i < self.colors.len()
            invariant
                i <= self.colors@.len(),
                r@.len() == 4 * i,
                forall|j: int|
                    0 <= j < i ==> {
                        &&& r@[4 * j] == self.colors@[j].r_bits
                        &&& r@[4 * j + 1] == self.colors@[j].g_bits
                        &&& r@[4 * j + 2] == self.colors@[j].b_bits
                        &&& r@[4 * j + 3] == self.colors@[j].a_bits
                    },
            decreases self.colors@.len() - i,
        {
            let c = self.colors[i];
            r.push(c.r_bits);
            r.push(c.g_bits);
            r.push(c.b_bits);
            r.push(c.a_bits);
            i = i + 1;
        }
        r
    }
}

/// One lower-case hexadecimal digit.
pub open spec fn hex_digit_spec(v: int) -> Seq<char> {
    if v == 0 {
        "0"@
    } else if v == 1 {
        "1"@
    } else if v == 2 {
        "2"@
    } else if v == 3 {
        "3"@
    } else if v == 4 {
        "4"@
    } else if v == 5 {
        "5"@
    } else if v == 6 {
        "6"@
    } else if v == 7 {
        "7"@
    } else if v == 8 {
        "8"@
    } else if v == 9 {
        "9"@
    } else if v == 10 {
        "a"@
    } else if v == 11 {
        "b"@
    } else if v == 12 {
        "c"@
    } else if v == 13 {
        "d"@
    } else if v == 14 {
        "e"@
    } else {
        "f"@
    }
}

/// One lower-case hexadecimal digit for a value below 16.
fn hex_digit(v: u8) -> (r: &'static str)
    requires
        v < 16,
    ensures
        r@ == hex_digit_spec(v as int),
{
    match v {
        0u8 => "0",
        1u8 => "1",
        2u8 => "2",
        3u8 => "3",
        4u8 => "4",
        5u8 => "5",
        6u8 => "6",
        7u8 => "7",
        8u8 => "8",
        9u8 => "9",
        10u8 => "a",
        11u8 => "b",
        12u8 => "c",
        13u8 => "d",
        14u8 => "e",
        _ => "f",
    }
}

/// A color's hex notation: a hash sign and the two lower-case hex digits
/// of each 8-bit channel, red, green, blue, alpha.
pub open spec fn color_hex_spec(r: int, g: int, b: int, a: int) -> Seq<char> {
    "#"@ + hex_digit_spec(r / 16) + hex_digit_spec(r % 16) + hex_digit_spec(g / 16)
        + hex_digit_spec(g % 16) + hex_digit_spec(b / 16) + hex_digit_spec(b % 16) + hex_digit_spec(
        a / 16,
    ) + hex_digit_spec(a % 16)
}

/// Format a color, given as its four 8-bit channels, in hex notation.
pub fn color_hex(r: u8, g: u8, b: u8, a: u8) -> (s: String)
    ensures
        s@ == color_hex_spec(r as int, g as int, b as int, a as int),
        s@.len() == 9,
{
    let mut s: String = String::from_str("#");
    s.append(hex_digit(r / 16));
    s.append(hex_digit(r % 16));
    s.append(hex_digit(g / 16));
    s.append(hex_digit(g % 16));
    s.append(hex_digit(b / 16));
    s.append(hex_digit(b % 16));
    s.append(hex_digit(a / 16));
    s.append(hex_digit(a % 16));
    proof {
        reveal_strlit("#");
        reveal_strlit("0");
        reveal_strlit("1");
        reveal_strlit("2");
        reveal_strlit("3");
        reveal_strlit("4");
        reveal_strlit("5");
        reveal_strlit("6");
        reveal_strlit("7");
        reveal_strlit("8");
        reveal_strlit("9");
        reveal_strlit("a");
        reveal_strlit("b");
        reveal_strlit("c");
        reveal_strlit("d");
        reveal_strlit("e");
        reveal_strlit("f");
    }
    s
}

} // verus!
