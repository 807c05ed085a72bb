//! The uniform packer and the GPU upload data.
//!
//! Every frame the camera and the configuration snapshot are packed into
//! two flat buffers: a fixed-layout block of twelve 32-bit words the
//! shader reads as its uniforms, and a flat array of color channel words
//! for the palette storage buffer.  The word order of the uniform block is
//! a binary contract with the shader and never changes.
//!
//! Float-valued fields (pan offset, aspect ratio, zoom) travel as the bit
//! patterns of their 32-bit float values; the packer arranges words and
//! never looks inside them.

use vstd::prelude::*;

use crate::controls::Color;
use crate::controls::Fractals;
use crate::controls::Controls;
use crate::controls::fractal_id_spec;

verus! {

/// The high bit of the packed fractal word: set when smooth coloring is on.
pub const SMOOTH_FLAG: u32 = 0x8000_0000;

/// The palette storage buffer holds at most this many colors.
pub const MAX_PALETTE_COLORS: usize = 64;

/// Rejected configuration: the color count exceeds the palette length.
#[derive(Clone, Copy, PartialEq, Eq, Structural, Debug)]
pub struct ConfigError {
    /// The color count that was asked for.
    pub num_colors: u32,
    /// The palette length it exceeded.
    pub palette_len: usize,
}

/// Rejected upload: the data does not fill its staging region exactly.
#[derive(Clone, Copy, PartialEq, Eq, Structural, Debug)]
pub struct SizeMismatchError {
    /// Size of the staging region, in bytes.
    pub region_bytes: usize,
    /// Size of the serialized data, in bytes.
    pub data_bytes: usize,
}

/// The packed fractal word: the variant's selector bit, plus the high bit
/// when smooth coloring is on.
pub open spec fn fractal_bits_spec(f: Fractals, smooth: bool) -> int {
    fractal_id_spec(f) + if smooth {
        SMOOTH_FLAG as int
    } else {
        0
    }
}

/// Pack the fractal selector and the smoothing flag into one word.
/// The selector occupies the low bits, the flag the high bit.
pub fn pack_fractal_bits(f: Fractals, smooth: bool) -> (r: u32)
    ensures
        r == fractal_bits_spec(f, smooth),
{
    let id = f.id();
    if smooth {
        id + SMOOTH_FLAG
    } else {
        id
    }
}

/// Recover the fractal variant and the smoothing flag from a packed word.
/// Inverse of `pack_fractal_bits`; `None` when the selector bits name no
/// variant.
pub fn unpack_fractal_bits(bits: u32) -> (r: Option<(Fractals, bool)>)
    ensures
        match r {
            Some(p) => fractal_bits_spec(p.0, p.1) == bits,
            None => forall|f: Fractals, smooth: bool| fractal_bits_spec(f, smooth) != bits,
        },
{
    let smooth = bits >= SMOOTH_FLAG;
    let id = if smooth {
        bits - SMOOTH_FLAG
    } else {
        bits
    };
    match Fractals::from_id(id) {
        Some(f) => Some((f, smooth)),
        None => None,
    }
}

/// The uniform block handed to the shader, before serialization: one
/// field per word, in the order the shader declares them.
#[derive(Clone, Copy, PartialEq, Eq, Debug, Default)]
pub struct ShaderDataUniforms {
    /// Bit patterns of the pan offset, x and y.
    pub position: [u32; 2],
    /// Surface size in pixels, width and height.
    pub resolution: [u32; 2],
    /// Bit pattern of the width-over-height aspect ratio.
    pub aspect: u32,
    /// Bit pattern of the zoom.
    pub zoom: u32,
    /// How many colors the palette storage buffer holds.
    pub arr_len: u32,
    /// The packed fractal word.
    pub fractal: u32,
    /// Iteration cap of the escape-time loop.
    pub max_iter: u32,
    /// How many palette entries the shader blends over.
    pub num_colors: u32,
    /// Anti-aliasing level.
    pub msaa: u32,
}

/// The twelve words of the uniform block, in shader order.  The sixth
/// word is padding and always zero.
pub open spec fn uniform_words_spec(u: ShaderDataUniforms) -> Seq<u32> {
    seq![
        u.position[0],
        u.position[1],
        u.resolution[0],
        u.resolution[1],
        u.aspect,
        0u32,
        u.zoom,
        u.arr_len,
        u.fractal,
        u.max_iter,
        u.num_colors,
        u.msaa,
    ]
}

impl ShaderDataUniforms {
    /// Lay the fields out as the twelve words the shader expects:
    /// position, resolution, aspect, one word of padding, zoom, palette
    /// length, fractal word, iteration cap, color count, anti-aliasing
    /// level.
    pub fn to_uniform_data(self) -> (r: [u32; 12])
        ensures
            r@ == uniform_words_spec(self),
    {
        let r = [
            self.position[0],
            self.position[1],
            self.resolution[0],
            self.resolution[1],
            self.aspect,
            0u32,
            self.zoom,
            self.arr_len,
            self.fractal,
            self.max_iter,
            self.num_colors,
            self.msaa,
        ];
        proof {
            assert(r@ =~= uniform_words_spec(self));
        }
        r
    }

    /// Read a uniform block back out of its twelve words.  Inverse of
    /// `to_uniform_data` on every block it produces.
    pub fn from_uniform_data(words: &[u32; 12]) -> (r: ShaderDataUniforms)
        ensures
            r.position[0] == words@[0] && r.position[1] == words@[1],
            r.resolution[0] == words@[2] && r.resolution[1] == words@[3],
            r.aspect == words@[4],
            r.zoom == words@[6],
            r.arr_len == words@[7],
            r.fractal == words@[8],
            r.max_iter == words@[9],
            r.num_colors == words@[10],
            r.msaa == words@[11],
    {
        ShaderDataUniforms {
            position: [words[0], words[1]],
            resolution: [words[2], words[3]],
            aspect: words[4],
            zoom: words[6],
            arr_len: words[7],
            fractal: words[8],
            max_iter: words[9],
            num_colors: words[10],
            msaa: words[11],
        }
    }
}

/// One channel of a palette entry, by index: red, green, blue, alpha.
pub open spec fn channel_spec(c: Color, k: int) -> u32 {
    if k == 0 {
        c.r_bits
    } else if k == 1 {
        c.g_bits
    } else if k == 2 {
        c.b_bits
    } else {
        c.a_bits
    }
}

/// How many colors of a palette reach the storage buffer: all of them,
/// truncated to the buffer's capacity of 64.
pub open spec fn packed_color_count(palette_len: int) -> int {
    vstd::math::min(palette_len, MAX_PALETTE_COLORS as int)
}

/// The flat palette buffer: four channel words per packed color, in
/// palette order up to `num_colors`, zero beyond it.
pub open spec fn packed_palette_spec(colors: Seq<Color>, num_colors: int) -> Seq<u32> {
    Seq::new(
        (4 * packed_color_count(colors.len() as int)) as nat,
        |k: int|
            if k / 4 < num_colors {
                channel_spec(colors[k / 4], k % 4)
            } else {
                0u32
            },
    )
}

/// Pack a configuration's palette for the storage buffer: the first
/// `num_colors` colors channel by channel, zero-padded to four words per
/// palette entry (up to the buffer's 64-color capacity).  Rejected with
/// `ConfigError`, producing no output, when the color count exceeds the
/// palette length.
pub fn pack_palette(config: &Controls) -> (r: Result<Vec<u32>, ConfigError>)
    ensures
        r.is_err() <==> config.num_colors > config.colors@.len(),
        r matches Err(e) ==> e == (ConfigError {
            num_colors: config.num_colors,
            palette_len: config.colors@.len() as usize,
        }),
        r matches Ok(v) ==> v@ == packed_palette_spec(config.colors@, config.num_colors as int),
{
    if config.num_colors as usize > config.colors.len() {
        return Err(ConfigError { num_colors: config.num_colors, palette_len: config.colors.len() });
    }
    let n: usize = if config.colors.len() > MAX_PALETTE_COLORS {
        MAX_PALETTE_COLORS
    } else {
        config.colors.len()
    };
    let ghost target = packed_palette_spec(config.colors@, config.num_colors as int);
    let mut out: Vec<u32> = Vec::new();
    let mut i: usize = 0;
    while i < n
        invariant
            i <= n,
            n == packed_color_count(config.colors@.len() as int),
            config.num_colors <= config.colors@.len(),
            target == packed_palette_spec(config.colors@, config.num_colors as int),
            out@.len() == 4 * i,
            forall|k: int| 0 <= k < 4 * i ==> out@[k] == target[k],
        decreases n - i,
    {
        let ghost k0 = 4 * i as int;
        if i < config.num_colors as usize {
            let c = config.colors[i];
            out.push(c.r_bits);
            out.push(c.g_bits);
            out.push(c.b_bits);
            out.push(c.a_bits);
        } else {
            out.push(0);
            out.push(0);
            out.push(0);
            out.push(0);
        }
        proof {
            assert forall|k: int| k0 <= k < k0 + 4 implies out@[k] == target[k] by {
                vstd::arithmetic::div_mod::lemma_fundamental_div_mod_converse(
                    k,
                    4,
                    i as int,
                    k - k0,
                );
            }
        }
        i = i + 1;
    }
    proof {
        assert(out@ =~= target);
    }
    Ok(out)
}

/// The float-valued camera words of a frame, as bit patterns: pan offset,
/// zoom, and the surface's width-over-height aspect ratio.
#[derive(Clone, Copy, PartialEq, Eq, Structural, Debug)]
pub struct CameraWords {
    /// Bit pattern of the pan offset, x.
    pub pos_x_bits: u32,
    /// Bit pattern of the pan offset, y.
    pub pos_y_bits: u32,
    /// Bit pattern of the zoom.
    pub zoom_bits: u32,
    /// Bit pattern of the aspect ratio.
    pub aspect_bits: u32,
}

/// Everything one frame uploads: the twelve uniform words and the flat
/// palette buffer.
#[derive(Clone, PartialEq, Eq, Debug)]
pub struct FrameData {
    /// The uniform block, packed.
    pub uniform: [u32; 12],
    /// The palette storage buffer, packed.
    pub palette: Vec<u32>,
}

/// The uniform block a frame packs, field by field.
pub open spec fn frame_uniforms_spec(
    cam: CameraWords,
    config: Controls,
    width: u32,
    height: u32,
) -> ShaderDataUniforms {
    ShaderDataUniforms {
        position: [cam.pos_x_bits, cam.pos_y_bits],
        resolution: [width, height],
        aspect: cam.aspect_bits,
        zoom: cam.zoom_bits,
        arr_len: packed_color_count(config.colors.len() as int) as u32,
        fractal: fractal_bits_spec(config.current_fractal, config.smooth_enabled) as u32,
        max_iter: config.num_iters,
        num_colors: config.num_colors,
        msaa: config.msaa,
    }
}

/// Pack one frame: validate the configuration, then lay out the uniform
/// block and the palette buffer.  Rejected with `ConfigError`, producing
/// no output, exactly when the color count exceeds the palette length.
pub fn pack_frame(cam: &CameraWords, config: &Controls, width: u32, height: u32) -> (r: Result<
    FrameData,
    ConfigError,
>)
    ensures
        r.is_err() <==> config.num_colors > config.colors@.len(),
        r matches Err(e) ==> e == (ConfigError {
            num_colors: config.num_colors,
            palette_len: config.colors@.len() as usize,
        }),
        r matches Ok(fd) ==> fd.uniform@ == uniform_words_spec(
            frame_uniforms_spec(*cam, *config, width, height),
        ) && fd.palette@ == packed_palette_spec(config.colors@, config.num_colors as int),
{
    let palette = match pack_palette(config) {
        Ok(p) => p,
        Err(e) => {
            return Err(e);
        },
    };
    let n: usize = if config.colors.len() > MAX_PALETTE_COLORS {
        MAX_PALETTE_COLORS
    } else {
        config.colors.len()
    };
    let uniforms = ShaderDataUniforms {
        position: [cam.pos_x_bits, cam.pos_y_bits],
        resolution: [width, height],
        aspect: cam.aspect_bits,
        zoom: cam.zoom_bits,
        arr_len: n as u32,
        fractal: pack_fractal_bits(config.current_fractal, config.smooth_enabled),
        max_iter: config.num_iters,
        num_colors: config.num_colors,
        msaa: config.msaa,
    };
    Ok(FrameData { uniform: uniforms.to_uniform_data(), palette })
}

/// The little-endian byte at position `k` (0 through 3) of a 32-bit word.
pub open spec fn le_byte_spec(w: u32, k: int) -> u8 {
    if k == 0 {
        (w % 256) as u8
    } else if k == 1 {
        ((w / 256) % 256) as u8
    } else if k == 2 {
        ((w / 65_536) % 256) as u8
    } else {
        (w / 16_777_216) as u8
    }
}

/// A word sequence serialized for upload: four little-endian bytes per
/// word, least significant first, as the shader-side binary contract
/// fixes them.
pub open spec fn le_bytes_spec(words: Seq<u32>) -> Seq<u8> {
    Seq::new(4 * words.len(), |k: int| le_byte_spec(words[k / 4], k % 4))
}

/// Serialize 32-bit words for a GPU upload, four little-endian bytes per
/// word.
pub fn words_to_bytes(words: &[u32]) -> (r: Vec<u8>)
    ensures
        r@ == le_bytes_spec(words@),
{
    let n: usize = words.len();
    let mut r: Vec<u8> = Vec::new();
    let mut i: usize = 0;
    while i < n
        invariant
            i <= n,
            n == words@.len(),
            r@.len() == 4 * i,
            forall|k: int| 0 <= k < 4 * i ==> r@[k] == le_bytes_spec(words@)[k],
        decreases n - i,
    {
        let w = words[i];
        proof {
            vstd::arithmetic::div_mod::lemma_mod_bound(w as int, 256);
            vstd::arithmetic::div_mod::lemma_mod_bound((w / 256) as int, 256);
            vstd::arithmetic::div_mod::lemma_mod_bound((w / 65_536) as int, 256);
            vstd::arithmetic::div_mod::lemma_div_is_ordered(w as int, u32::MAX as int, 16_777_216);
        }
        let b0: u8 = (w % 256) as u8;
        let b1: u8 = ((w / 256) % 256) as u8;
        let b2: u8 = ((w / 65_536) % 256) as u8;
        let b3: u8 = (w / 16_777_216) as u8;
        let ghost k0 = 4 * i as int;
        r.push(b0);
        r.push(b1);
        r.push(b2);
        r.push(b3);
        proof {
            assert forall|k: int| k0 <= k < k0 + 4 implies r@[k] == le_bytes_spec(words@)[k] by {
                vstd::arithmetic::div_mod::lemma_fundamental_div_mod_converse(k, 4, i as int, k - k0);
            }
        }
        i = i + 1;
    }
    proof {
        assert(r@ =~= le_bytes_spec(words@));
    }
    r
}

impl FrameData {
    /// The uniform block as upload bytes: its twelve words serialized
    /// little-endian, always exactly 48 bytes.
    pub fn uniform_bytes(&self) -> (r: Vec<u8>)
        ensures
            r@ == le_bytes_spec(self.uniform@),
            r@.len() == 48,
    {
        words_to_bytes(self.uniform.as_slice())
    }

    /// The palette buffer as upload bytes: its words serialized
    /// little-endian, four bytes per packed word.
    pub fn palette_bytes(&self) -> (r: Vec<u8>)
        ensures
            r@ == le_bytes_spec(self.palette@),
            r@.len() == 4 * self.palette@.len(),
    {
        words_to_bytes(self.palette.as_slice())
    }
}

/// Guard one staging write: the serialized data must fill the staging
/// region exactly, else the upload is rejected with `SizeMismatchError`
/// naming both sizes.
pub fn validate_upload(data: &Vec<u8>, region_bytes: usize) -> (r: Result<(), SizeMismatchError>)
    ensures
        r.is_ok() <==> data@.len() == region_bytes,
        r matches Err(e) ==> e == (SizeMismatchError {
            region_bytes,
            data_bytes: data@.len() as usize,
        }),
{
    if data.len() == region_bytes {
        Ok(())
    } else {
        Err(SizeMismatchError { region_bytes, data_bytes: data.len() })
    }
}

/// The palette read back out of a flat buffer: one color per four words.
pub open spec fn unpacked_palette_spec(flat: Seq<u32>) -> Seq<Color> {
    Seq::new(
        (flat.len() / 4) as nat,
        |i: int|
            Color {
                r_bits: flat[4 * i],
                g_bits: flat[4 * i + 1],
                b_bits: flat[4 * i + 2],
                a_bits: flat[4 * i + 3],
            },
    )
}

/// Read colors back out of a flat palette buffer, four words each.
pub fn unpack_palette(flat: &Vec<u32>) -> (r: Vec<Color>)
    ensures
        r@ == unpacked_palette_spec(flat@),
{
    let len = flat.len();
    let n = len / 4;
    proof {
        vstd::arithmetic::div_mod::lemma_fundamental_div_mod(len as int, 4);
        vstd::arithmetic::div_mod::lemma_mod_bound(len as int, 4);
    }
    let mut r: Vec<Color> = Vec::new();
    let mut i: usize = 0;
    while i < n
        invariant
            i <= n,
            len == flat@.len(),
            n == flat@.len() / 4,
            4 * n <= len,
            r@.len() == i,
            forall|j: int| 0 <= j < i ==> r@[j] == unpacked_palette_spec(flat@)[j],
        decreases n - i,
    {
        proof {
            assert(4 * i + 3 < flat@.len());
        }
        let c = Color {
            r_bits: flat[4 * i],
            g_bits: flat[4 * i + 1],
            b_bits: flat[4 * i + 2],
            a_bits: flat[4 * i + 3],
        };
        r.push(c);
        i = i + 1;
    }
    proof {
        assert(r@ =~= unpacked_palette_spec(flat@));
    }
    r
}

/// Palette packing round-trip: for a validated configuration, unpacking
/// the packed buffer gives back a palette of the same truncated length
/// whose first `num_colors` colors are exactly the configuration's, the
/// rest zeroed.
pub proof fn lemma_palette_round_trip(colors: Seq<Color>, num_colors: int)
    requires
        0 <= num_colors <= colors.len(),
    ensures
        unpacked_palette_spec(packed_palette_spec(colors, num_colors)).len() == packed_color_count(
            colors.len() as int,
        ),
        forall|i: int|
            0 <= i < num_colors && i < packed_color_count(colors.len() as int)
                ==> unpacked_palette_spec(packed_palette_spec(colors, num_colors))[i] == colors[i],
        forall|i: int|
            num_colors <= i < packed_color_count(colors.len() as int) ==> unpacked_palette_spec(
                packed_palette_spec(colors, num_colors),
            )[i] == (Color { r_bits: 0, g_bits: 0, b_bits: 0, a_bits: 0 }),
{
    let packed = packed_palette_spec(colors, num_colors);
    let n = packed_color_count(colors.len() as int);
    vstd::arithmetic::div_mod::lemma_div_multiples_vanish(n, 4);
    assert forall|i: int| 0 <= i < n implies {
        &&& packed[4 * i] == (if i < num_colors {
            colors[i].r_bits
        } else {
            0u32
        })
        &&& packed[4 * i + 1] == (if i < num_colors {
            colors[i].g_bits
        } else {
            0u32
        })
        &&& packed[4 * i + 2] == (if i < num_colors {
            colors[i].b_bits
        } else {
            0u32
        })
        &&& packed[4 * i + 3] == (if i < num_colors {
            colors[i].a_bits
        } else {
            0u32
        })
    } by {
        vstd::arithmetic::div_mod::lemma_fundamental_div_mod_converse(4 * i, 4, i, 0);
        vstd::arithmetic::div_mod::lemma_fundamental_div_mod_converse(4 * i + 1, 4, i, 1);
        vstd::arithmetic::div_mod::lemma_fundamental_div_mod_converse(4 * i + 2, 4, i, 2);
        vstd::arithmetic::div_mod::lemma_fundamental_div_mod_converse(4 * i + 3, 4, i, 3);
    }
}

/// Uniform packing round-trip: reading the packed words back recovers
/// every field of the block.
pub proof fn lemma_uniform_round_trip(u: ShaderDataUniforms, words: Seq<u32>)
    requires
        words == uniform_words_spec(u),
    ensures
        words.len() == 12,
        words[0] == u.position[0] && words[1] == u.position[1],
        words[2] == u.resolution[0] && words[3] == u.resolution[1],
        words[4] == u.aspect,
        words[5] == 0,
        words[6] == u.zoom,
        words[7] == u.arr_len,
        words[8] == u.fractal,
        words[9] == u.max_iter,
        words[10] == u.num_colors,
        words[11] == u.msaa,
{
}

} // verus!
