//! The resource converter's algorithm: nearest-level color quantization, a
//! shared palette capped at 16 entries, and one bitmap resource blob per
//! 16 by 16 tile. Decoding the source image file is the platform's job; this
//! module works on plain RGBA bytes.

use vstd::prelude::*;
use vstd::seq_lib::*;
use crate::color::spec_rgba_to_u16;
use crate::image::{spec_decode_resource, Image};
use crate::palette::Palette;
use crate::{IMAGE_PIXELS, IMAGE_SIZE, PALETTE_COLORS, RESOURCE_BYTES};

verus! {

/// Why a conversion run was rejected.
#[derive(Copy, Clone, PartialEq, Eq, Structural, Debug)]
pub enum ConvertError {
    /// The source dimensions are not positive multiples of the tile side.
    BadDimensions,
    /// Some tile needed a 17th distinct quantized color.
    PaletteOverflow,
    /// The source bytes could not be decoded as an image.
    UnreadableImage,
}

/// The nearest 4-bit level for an 8-bit channel: the levels are 17 apart
/// (255 = 15 * 17), so this is division by 17 rounded to the nearest value.
pub open spec fn spec_quantize_channel(c: u8) -> u8 {
    (((c as int) + 8) / 17) as u8
}

/// Rounds an 8-bit channel to the nearest of the 16 evenly spaced 4-bit
/// levels.
pub fn quantize_channel(c: u8) -> (q: u8)
    ensures
        q == spec_quantize_channel(c),
        q <= 15,
{
    ((c as u16 + 8) / 17) as u8
}

/// The quantized, packed color of one RGBA pixel.
pub open spec fn spec_quantize_rgba(r: u8, g: u8, b: u8, a: u8) -> u16 {
    spec_rgba_to_u16(
        spec_quantize_channel(r),
        spec_quantize_channel(g),
        spec_quantize_channel(b),
        spec_quantize_channel(a),
    )
}

/// Quantizes all four channels of a pixel and packs them into a 16-bit
/// color.
pub fn quantize_rgba(r: u8, g: u8, b: u8, a: u8) -> (c: u16)
    ensures
        c == spec_quantize_rgba(r, g, b, a),
{
    crate::color::rgba_to_u16(
        [quantize_channel(r), quantize_channel(g), quantize_channel(b), quantize_channel(a)],
    )
}

/// The palette contents after interning a run of colors, in order: a color
/// already present is reused, a new one is appended.
pub open spec fn spec_fold_palette(pal: Seq<u16>, colors: Seq<u16>) -> Seq<u16>
    decreases colors.len(),
{
    if colors.len() == 0 {
        pal
    } else {
        let p = spec_fold_palette(pal, colors.drop_last());
        if p.contains(colors.last()) {
            p
        } else {
            p.push(colors.last())
        }
    }
}

/// Folding only ever appends: the starting palette stays a prefix, and so
/// does the fold of any shorter run.
pub proof fn lemma_fold_palette_extends(pal: Seq<u16>, colors: Seq<u16>)
    ensures
        pal.is_prefix_of(spec_fold_palette(pal, colors)),
        pal.len() <= spec_fold_palette(pal, colors).len(),
    decreases colors.len(),
{
    if colors.len() > 0 {
        lemma_fold_palette_extends(pal, colors.drop_last());
        let p = spec_fold_palette(pal, colors.drop_last());
        if !p.contains(colors.last()) {
            assert(pal.is_prefix_of(p.push(colors.last())));
        }
    }
}

/// One step of the fold: interning one more color either finds it or
/// appends it.
pub proof fn lemma_fold_palette_step(pal: Seq<u16>, colors: Seq<u16>, i: int)
    requires
        0 <= i < colors.len(),
    ensures
        spec_fold_palette(pal, colors.take(i + 1)) == {
            let p = spec_fold_palette(pal, colors.take(i));
            if p.contains(colors[i]) {
                p
            } else {
                p.push(colors[i])
            }
        },
{
    assert(colors.take(i + 1).drop_last() =~= colors.take(i));
    assert(colors.take(i + 1).last() == colors[i]);
}

/// The fold of a shorter run is a prefix of the fold of the whole run.
pub proof fn lemma_fold_palette_take_prefix(pal: Seq<u16>, colors: Seq<u16>, i: int)
    requires
        0 <= i <= colors.len(),
    ensures
        spec_fold_palette(pal, colors.take(i)).is_prefix_of(spec_fold_palette(pal, colors)),
    decreases colors.len() - i,
{
    if i == colors.len() {
        assert(colors.take(i) =~= colors);
    } else {
        lemma_fold_palette_step(pal, colors, i);
        lemma_fold_palette_take_prefix(pal, colors, i + 1);
        let p = spec_fold_palette(pal, colors.take(i));
        let q = spec_fold_palette(pal, colors.take(i + 1));
        assert(p.is_prefix_of(q));
        assert(q.is_prefix_of(spec_fold_palette(pal, colors)));
        assert(p =~= q.take(p.len() as int).take(p.len() as int));
    }
}

/// Folding keeps the palette duplicate-free.
pub proof fn lemma_fold_palette_no_duplicates(pal: Seq<u16>, colors: Seq<u16>)
    requires
        pal.no_duplicates(),
    ensures
        spec_fold_palette(pal, colors).no_duplicates(),
    decreases colors.len(),
{
    if colors.len() > 0 {
        lemma_fold_palette_no_duplicates(pal, colors.drop_last());
    }
}

/// The folded palette holds exactly the starting colors and the interned
/// ones.
pub proof fn lemma_fold_palette_to_set(pal: Seq<u16>, colors: Seq<u16>)
    ensures
        spec_fold_palette(pal, colors).to_set() == pal.to_set().union(colors.to_set()),
    decreases colors.len(),
{
    broadcast use vstd::seq_lib::group_seq_properties;

    if colors.len() == 0 {
        assert(colors.to_set() =~= Set::empty());
        assert(spec_fold_palette(pal, colors).to_set() =~= pal.to_set().union(colors.to_set()));
    } else {
        lemma_fold_palette_to_set(pal, colors.drop_last());
        let p = spec_fold_palette(pal, colors.drop_last());
        let c = colors.last();
        assert(colors.drop_last().push(c) =~= colors);
        assert(colors.to_set() =~= colors.drop_last().to_set().insert(c)) by {
            assert forall|x: u16| colors.to_set().contains(x) implies colors.drop_last()
                .to_set().contains(x) || x == c by {
                let k = choose|k: int| 0 <= k < colors.len() && colors[k] == x;
                if k < colors.len() - 1 {
                    assert(colors.drop_last()[k] == x);
                }
            }
            assert forall|x: u16|
                colors.drop_last().to_set().contains(x) || x == c implies colors.to_set().contains(
                x,
            ) by {
                if colors.drop_last().to_set().contains(x) {
                    let k = choose|k: int|
                        0 <= k < colors.drop_last().len() && colors.drop_last()[k] == x;
                    assert(colors[k] == x);
                } else {
                    assert(colors[colors.len() - 1] == c);
                }
            }
        }
        if p.contains(c) {
            assert(spec_fold_palette(pal, colors).to_set() =~= pal.to_set().union(
                colors.to_set(),
            ));
        } else {
            assert(p.push(c).to_set() =~= p.to_set().insert(c)) by {
                assert forall|x: u16| p.push(c).to_set().contains(x) implies p.to_set().contains(x)
                    || x == c by {
                    let k = choose|k: int| 0 <= k < p.push(c).len() && p.push(c)[k] == x;
                    if k < p.len() {
                        assert(p[k] == x);
                    }
                }
                assert forall|x: u16| p.to_set().contains(x) || x == c implies p.push(
                    c,
                ).to_set().contains(x) by {
                    if p.to_set().contains(x) {
                        let k = choose|k: int| 0 <= k < p.len() && p[k] == x;
                        assert(p.push(c)[k] == x);
                    } else {
                        assert(p.push(c)[p.len() as int] == c);
                    }
                }
            }
            assert(spec_fold_palette(pal, colors).to_set() =~= pal.to_set().union(
                colors.to_set(),
            ));
        }
    }
}

/// Builds the shared palette for a conversion run: colors are interned in
/// pixel order, the table is capped at 16 entries, and unused entries stay
/// zero.
#[derive(Copy, Clone)]
pub struct PaletteBuilder {
    pub colors: [u16; PALETTE_COLORS],
    pub used: usize,
}

impl PaletteBuilder {
    /// The interned colors, in order of first appearance.
    pub open spec fn contents(self) -> Seq<u16> {
        self.colors@.take(self.used as int)
    }

    /// At most 16 colors, no color twice, unused entries zero.
    pub open spec fn wf(self) -> bool {
        &&& self.used <= PALETTE_COLORS
        &&& self.contents().no_duplicates()
        &&& forall|k: int| self.used <= k < PALETTE_COLORS ==> self.colors@[k] == 0
    }

    /// An empty builder.
    pub fn new() -> (b: PaletteBuilder)
        ensures
            b.wf(),
            b.contents() =~= Seq::<u16>::empty(),
    {
        PaletteBuilder { colors: [0u16; PALETTE_COLORS], used: 0 }
    }

    /// The finished palette: interned colors in order, zeroes after them.
    pub fn into_palette(&self) -> (p: Palette)
        requires
            self.wf(),
        ensures
            p.0@.take(self.used as int) == self.contents(),
            forall|k: int| self.used <= k < PALETTE_COLORS ==> p.0@[k] == 0,
    {
        Palette(self.colors)
    }

    /// How many colors have been interned.
    pub fn colors_used(&self) -> (n: usize)
        requires
            self.wf(),
        ensures
            n == self.contents().len(),
    {
        self.used
    }

    /// Interns one color: an index into the palette where the color already
    /// sits or is newly appended, or nothing when a 17th distinct color
    /// arrives.
    pub fn intern(&mut self, color: u16) -> (r: Option<u8>)
        requires
            old(self).wf(),
        ensures
            final(self).wf(),
            r is Some <==> (old(self).contents().contains(color) || old(self).contents().len()
                < PALETTE_COLORS),
            r is Some ==> {
                &&& (r->Some_0 as int) < final(self).contents().len()
                &&& final(self).contents()[r->Some_0 as int] == color
                &&& final(self).contents() == (if old(self).contents().contains(color) {
                    old(self).contents()
                } else {
                    old(self).contents().push(color)
                })
            },
            r is None ==> *final(self) == *old(self),
    {
        let mut i: usize = 0;
        while i < self.used
            invariant
                self.wf(),
                i <= self.used,
                forall|k: int| 0 <= k < i ==> self.contents()[k] != color,
            decreases self.used - i,
        {
            if self.colors[i] == color {
                assert(self.contents()[i as int] == color);
                return Some(i as u8);
            }
            i += 1;
        }
        if self.used == PALETTE_COLORS {
            assert(!self.contents().contains(color));
            return None;
        }
        let idx = self.used;
        self.colors[idx] = color;
        self.used = idx + 1;
        assert(self.contents() =~= old(self).contents().push(color));
        Some(idx as u8)
    }
}

/// Interns one tile's 256 quantized colors into the shared palette and
/// builds the tile's indexed image. On overflow — a color that will not fit
/// the 16-entry cap — nothing is produced and the palette is left exactly
/// as it was.
pub fn build_tile(pixels: &Vec<u16>, builder: &mut PaletteBuilder) -> (r: Option<Image>)
    requires
        pixels@.len() == IMAGE_PIXELS,
        old(builder).wf(),
    ensures
        final(builder).wf(),
        r is Some <==> spec_fold_palette(old(builder).contents(), pixels@).len() <= PALETTE_COLORS,
        r is Some ==> final(builder).contents() == spec_fold_palette(
            old(builder).contents(),
            pixels@,
        ),
        r is Some ==> r->Some_0.wf() && forall|i: int|
            0 <= i < IMAGE_PIXELS ==> (#[trigger] r->Some_0.0@[i])
                < final(builder).contents().len()
                && final(builder).contents()[r->Some_0.0@[i] as int] == pixels@[i],
        r is None ==> *final(builder) == *old(builder),
{
    let mut tmp: PaletteBuilder = *builder;
    let mut img = [0u8; IMAGE_PIXELS];
    let mut i: usize = 0;
    while i < IMAGE_PIXELS
        invariant
            pixels@.len() == IMAGE_PIXELS,
            i <= IMAGE_PIXELS,
            tmp.wf(),
            old(builder).wf(),
            *builder == *old(builder),
            tmp.contents() == spec_fold_palette(old(builder).contents(), pixels@.take(i as int)),
            forall|k: int|
                0 <= k < i ==> (#[trigger] img@[k]) < tmp.contents().len()
                    && tmp.contents()[img@[k] as int] == pixels@[k],
        decreases IMAGE_PIXELS - i,
    {
        let c = pixels[i];
        proof {
            lemma_fold_palette_step(old(builder).contents(), pixels@, i as int);
        }
        let ghost before = tmp.contents();
        match tmp.intern(c) {
            Some(idx) => {
                proof {
                    assert(before.is_prefix_of(tmp.contents()));
                    assert forall|k: int| 0 <= k < i implies (#[trigger] img@[k])
                        < tmp.contents().len() && tmp.contents()[img@[k] as int] == pixels@[k] by {
                        assert(before[img@[k] as int] == pixels@[k]);
                        assert(tmp.contents()[img@[k] as int] == before[img@[k] as int]);
                    }
                }
                img[i] = idx;
            },
            None => {
                proof {
                    assert(spec_fold_palette(old(builder).contents(), pixels@.take(i as int + 1))
                        == before.push(c));
                    lemma_fold_palette_take_prefix(old(builder).contents(), pixels@, i as int + 1);
                    assert(spec_fold_palette(old(builder).contents(), pixels@).len() > (
                    PALETTE_COLORS as int));
                }
                return None;
            },
        }
        i += 1;
    }
    proof {
        assert(pixels@.take(IMAGE_PIXELS as int) =~= pixels@);
    }
    *builder = tmp;
    Some(Image(img))
}

/// Interning a run of colors into an empty palette uses exactly one entry
/// per distinct color: with at most 16 distinct quantized colors the
/// palette never overflows, and with a 17th distinct color it always does.
pub proof fn lemma_distinct_color_count(colors: Seq<u16>)
    ensures
        spec_fold_palette(Seq::<u16>::empty(), colors).len() == colors.to_set().len(),
{
    let f = spec_fold_palette(Seq::<u16>::empty(), colors);
    lemma_fold_palette_no_duplicates(Seq::<u16>::empty(), colors);
    lemma_fold_palette_to_set(Seq::<u16>::empty(), colors);
    assert(f.to_set() =~= colors.to_set());
    f.unique_seq_to_set();
}

/// Whether source dimensions are positive multiples of the tile side.
pub open spec fn spec_dims_ok(w: int, h: int) -> bool {
    w >= IMAGE_SIZE && h >= IMAGE_SIZE && w % (IMAGE_SIZE as int) == 0 && h % (IMAGE_SIZE as int)
        == 0
}

/// The quantized, packed color of source pixel `(px, py)` in a row-major
/// RGBA byte buffer of width `w`.
pub open spec fn spec_pixel_color(w: int, rgba: Seq<u8>, px: int, py: int) -> u16 {
    spec_quantize_rgba(
        rgba[(py * w + px) * 4],
        rgba[(py * w + px) * 4 + 1],
        rgba[(py * w + px) * 4 + 2],
        rgba[(py * w + px) * 4 + 3],
    )
}

/// The 256 quantized colors of the tile at tile coordinates `(tx, ty)`, in
/// row-major pixel order.
pub open spec fn spec_tile_colors(w: int, rgba: Seq<u8>, tx: int, ty: int) -> Seq<u16> {
    Seq::new(
        IMAGE_PIXELS as nat,
        |i: int|
            spec_pixel_color(
                w,
                rgba,
                tx * IMAGE_SIZE + i % (IMAGE_SIZE as int),
                ty * IMAGE_SIZE + i / (IMAGE_SIZE as int),
            ),
    )
}

/// The shared palette after converting the first `t` tiles, in tile-index
/// order over a grid `tw` tiles wide.
pub open spec fn spec_palette_after(w: int, rgba: Seq<u8>, tw: int, t: int) -> Seq<u16>
    decreases t,
{
    if t <= 0 {
        Seq::empty()
    } else {
        spec_fold_palette(
            spec_palette_after(w, rgba, tw, t - 1),
            spec_tile_colors(w, rgba, (t - 1) % tw, (t - 1) / tw),
        )
    }
}

/// Converting more tiles only ever appends to the shared palette.
pub proof fn lemma_palette_after_monotone(w: int, rgba: Seq<u8>, tw: int, t1: int, t2: int)
    requires
        0 <= t1 <= t2,
    ensures
        spec_palette_after(w, rgba, tw, t1).is_prefix_of(spec_palette_after(w, rgba, tw, t2)),
    decreases t2 - t1,
{
    if t1 < t2 {
        lemma_palette_after_monotone(w, rgba, tw, t1, t2 - 1);
        let a = spec_palette_after(w, rgba, tw, t1);
        let b = spec_palette_after(w, rgba, tw, t2 - 1);
        let c = spec_palette_after(w, rgba, tw, t2);
        lemma_fold_palette_extends(b, spec_tile_colors(w, rgba, (t2 - 1) % tw, (t2 - 1) / tw));
        assert(a =~= c.subrange(0, a.len() as int)) by {
            assert(a =~= b.subrange(0, a.len() as int));
            assert(b =~= c.subrange(0, b.len() as int));
        }
    }
}

/// Everything a successful conversion run promises, over decoded RGBA
/// bytes of width `w` and height `h`: one blob per tile in row-major tile
/// order, each decoding to indices that look up, in the duplicate-free
/// output palette, exactly the tile's quantized colors; the palette holds
/// the interned colors in first-appearance order, zeroes after them.
pub open spec fn spec_convert_output(
    w: int,
    h: int,
    rgba: Seq<u8>,
    blobs: Seq<Vec<u8>>,
    pal: Palette,
) -> bool {
    let tw = w / 16;
    let nt = tw * (h / 16);
    let palfin = spec_palette_after(w, rgba, tw, nt);
    &&& blobs.len() == nt
    &&& forall|t: int| 0 <= t < nt ==> (#[trigger] blobs[t])@.len() == RESOURCE_BYTES
    &&& forall|t: int, i: int|
        0 <= t < nt && 0 <= i < IMAGE_PIXELS ==> (#[trigger] spec_decode_resource(blobs[t]@)[i])
            < palfin.len() && palfin[spec_decode_resource(blobs[t]@)[i] as int]
            == spec_tile_colors(w, rgba, t % tw, t / tw)[i]
    &&& palfin.no_duplicates()
    &&& palfin.len() <= PALETTE_COLORS
    &&& pal.0@.take(palfin.len() as int) == palfin
    &&& forall|k: int| palfin.len() <= k < PALETTE_COLORS ==> pal.0@[k] == 0
}

/// Converts a whole source image, already decoded to RGBA bytes: the
/// dimensions must be positive multiples of the tile side; the image is cut
/// into 16 by 16 tiles in row-major order; each tile's colors are rounded
/// to the nearest 4-bit level per channel and interned into one palette
/// shared across the whole image, capped at 16 entries. The result is one
/// resource blob per tile — each decodes to indices that look up, in the
/// returned palette, exactly the tile's quantized colors — or an error, in
/// which case no output is produced.
pub fn convert_rgba(width: u32, height: u32, rgba: &Vec<u8>) -> (r: Result<
    (Vec<Vec<u8>>, Palette),
    ConvertError,
>)
    requires
        rgba@.len() == width * height * 4,
    ensures
        (r is Err && r->Err_0 == ConvertError::BadDimensions) <==> !spec_dims_ok(
            width as int,
            height as int,
        ),
        spec_dims_ok(width as int, height as int) ==> ((r is Ok) <==> spec_palette_after(
            width as int,
            rgba@,
            width as int / 16,
            (width as int / 16) * (height as int / 16),
        ).len() <= PALETTE_COLORS),
        r is Err && spec_dims_ok(width as int, height as int) ==> r->Err_0
            == ConvertError::PaletteOverflow,
        r is Ok ==> spec_convert_output(
            width as int,
            height as int,
            rgba@,
            r->Ok_0.0@,
            r->Ok_0.1,
        ),
{
    if width < 16 || height < 16 || width % 16 != 0 || height % 16 != 0 {
        return Err(ConvertError::BadDimensions);
    }
    let w: usize = width as usize;
    let h: usize = height as usize;
    let n_bytes: usize = rgba.len();
    let tw: usize = w / 16;
    let th: usize = h / 16;
    proof {
        assert(tw * 16 == w && th * 16 == h && tw * th * 256 == w * h && w * h * 4 == n_bytes
            && tw * th <= n_bytes) by (nonlinear_arith)
            requires
                tw == w / 16 && th == h / 16 && w % 16 == 0 && h % 16 == 0 && w >= 16 && h >= 16
                    && n_bytes == w * h * 4,
        ;
    }
    let nt: usize = tw * th;
    let mut builder = PaletteBuilder::new();
    let mut blobs: Vec<Vec<u8>> = Vec::new();
    let ghost gw = width as int;
    let mut t: usize = 0;
    while t < nt
        invariant
            rgba@.len() == width * height * 4,
            n_bytes == rgba@.len(),
            w == width && h == height,
            w >= 16 && h >= 16 && w % 16 == 0 && h % 16 == 0,
            tw == w / 16 && th == h / 16 && nt == tw * th,
            gw == width as int,
            builder.wf(),
            builder.contents() == spec_palette_after(gw, rgba@, tw as int, t as int),
            t <= nt,
            blobs@.len() == t,
            forall|tt: int| 0 <= tt < t ==> (#[trigger] blobs@[tt])@.len() == RESOURCE_BYTES,
            forall|tt: int, i: int|
                0 <= tt < t && 0 <= i < IMAGE_PIXELS ==> (#[trigger] spec_decode_resource(
                    blobs@[tt]@,
                )[i]) < builder.contents().len() && builder.contents()[spec_decode_resource(
                    blobs@[tt]@,
                )[i] as int] == spec_tile_colors(gw, rgba@, tt % (tw as int), tt / (tw as int))[i],
        decreases nt - t,
    {
        let tx: usize = t % tw;
        let ty: usize = t / tw;
        proof {
            assert(tx < tw && ty < th) by (nonlinear_arith)
                requires
                    tx == t % tw && ty == t / tw && t < nt && nt == tw * th && tw > 0 && th > 0,
            ;
        }
        let mut colors: Vec<u16> = Vec::new();
        let mut i: usize = 0;
        while i < IMAGE_PIXELS
            invariant
                rgba@.len() == width * height * 4,
                n_bytes == rgba@.len(),
                w == width && h == height,
                w >= 16 && h >= 16 && w % 16 == 0 && h % 16 == 0,
                tw == w / 16 && th == h / 16,
                gw == width as int,
                tx < tw && ty < th,
                i <= IMAGE_PIXELS,
                colors@.len() == i,
                forall|k: int|
                    0 <= k < i ==> colors@[k] == spec_tile_colors(
                        gw,
                        rgba@,
                        tx as int,
                        ty as int,
                    )[k],
            decreases IMAGE_PIXELS - i,
        {
            let px: usize = tx * 16 + (i % 16);
            let py: usize = ty * 16 + (i / 16);
            proof {
                assert(px < w && py < h) by (nonlinear_arith)
                    requires
                        px == tx * 16 + (i % 16) && py == ty * 16 + (i / 16) && tx < tw && ty < th
                            && tw == w / 16 && th == h / 16 && w % 16 == 0 && h % 16 == 0 && i
                            < 256,
                ;
                assert((py * w + px) * 4 + 3 < n_bytes) by (nonlinear_arith)
                    requires
                        px < w && py < h && n_bytes == w * h * 4,
                ;
            }
            let base: usize = (py * w + px) * 4;
            let c = quantize_rgba(rgba[base], rgba[base + 1], rgba[base + 2], rgba[base + 3]);
            colors.push(c);
            i += 1;
        }
        proof {
            assert(colors@ =~= spec_tile_colors(gw, rgba@, tx as int, ty as int));
        }
        let ghost before = builder.contents();
        match build_tile(&colors, &mut builder) {
            None => {
                proof {
                    lemma_palette_after_monotone(
                        gw,
                        rgba@,
                        tw as int,
                        t as int + 1,
                        nt as int,
                    );
                }
                return Err(ConvertError::PaletteOverflow);
            },
            Some(img) => {
                proof {
                    crate::image::lemma_pixel_round_trip(img.0@);
                    assert(before.is_prefix_of(builder.contents())) by {
                        lemma_fold_palette_extends(before, colors@);
                    }
                    assert forall|tt: int, i2: int|
                        0 <= tt < t && 0 <= i2 < IMAGE_PIXELS implies (
                    #[trigger] spec_decode_resource(blobs@[tt]@)[i2]) < builder.contents().len()
                        && builder.contents()[spec_decode_resource(blobs@[tt]@)[i2] as int]
                        == spec_tile_colors(gw, rgba@, tt % (tw as int), tt / (tw as int))[i2] by {
                        let idx = spec_decode_resource(blobs@[tt]@)[i2];
                        assert(before[idx as int] == spec_tile_colors(
                            gw,
                            rgba@,
                            tt % (tw as int),
                            tt / (tw as int),
                        )[i2]);
                        assert(builder.contents()[idx as int] == before[idx as int]);
                    }
                }
                let blob = img.encode_resource();
                blobs.push(blob);
            },
        }
        t += 1;
    }
    let pal = builder.into_palette();
    Ok((blobs, pal))
}

/// What decoding a byte string as an image yields: nothing, or the decoded
/// width, height and row-major RGBA bytes. Decoding is a function of the
/// bytes alone.
pub uninterp spec fn spec_decoded(bytes: Seq<u8>) -> Option<(u32, u32, Seq<u8>)>;

/// Relies on image::load_from_memory and image::DynamicImage::to_rgba8: a
/// successfully decoded image yields its dimensions and an RGBA byte
/// buffer holding at least width * height * 4 bytes (ImageBuffer
/// guarantees its container fits its dimensions).
#[verifier::external_body]
fn decode_image_rgba(bytes: &Vec<u8>) -> (r: Option<(u32, u32, Vec<u8>)>)
    ensures
        r is Some <==> spec_decoded(bytes@) is Some,
        r is Some ==> ({
            let d = spec_decoded(bytes@)->Some_0;
            &&& r->Some_0.0 == d.0
            &&& r->Some_0.1 == d.1
            &&& r->Some_0.2@ == d.2
            &&& d.2.len() >= d.0 * d.1 * 4
        }),
{
    match image::load_from_memory(bytes.as_slice()) {
        Ok(img) => {
            let rgba = img.to_rgba8();
            Some((rgba.width(), rgba.height(), rgba.into_raw()))
        },
        Err(_) => None,
    }
}

/// Converts an encoded source image (a PNG file's bytes, say): the image
/// is decoded by the image crate, then cut, quantized and interned exactly
/// as `convert_rgba` does it, over the decoded width, height and pixels.
/// Every error leaves no output: undecodable bytes, dimensions that are
/// not positive multiples of the tile side, or a tile needing a 17th
/// distinct color.
pub fn convert_image(bytes: &Vec<u8>) -> (r: Result<(Vec<Vec<u8>>, Palette), ConvertError>)
    ensures
        (r is Err && r->Err_0 == ConvertError::UnreadableImage) <==> spec_decoded(bytes@) is None,
        spec_decoded(bytes@) is Some ==> ({
            let d = spec_decoded(bytes@)->Some_0;
            let w = d.0 as int;
            let h = d.1 as int;
            let px = d.2.take(w * h * 4);
            &&& ((r is Err && r->Err_0 == ConvertError::BadDimensions) <==> !spec_dims_ok(w, h))
            &&& (spec_dims_ok(w, h) ==> ((r is Ok) <==> spec_palette_after(
                w,
                px,
                w / 16,
                (w / 16) * (h / 16),
            ).len() <= PALETTE_COLORS))
            &&& (r is Ok ==> spec_convert_output(w, h, px, r->Ok_0.0@, r->Ok_0.1))
        }),
{
    match decode_image_rgba(bytes) {
        None => Err(ConvertError::UnreadableImage),
        Some((width, height, mut rgba)) => {
            let cap: usize = rgba.len();
            if width < 16 || height < 16 || width % 16 != 0 || height % 16 != 0 {
                return Err(ConvertError::BadDimensions);
            }
            proof {
                assert((width as int) * (height as int) * 4 <= cap) by (nonlinear_arith)
                    requires
                        cap >= width * height * 4,
                ;
            }
            let need: usize = (width as usize) * (height as usize) * 4;
            rgba.truncate(need);
            proof {
                assert(rgba@.len() == width * height * 4);
            }
            convert_rgba(width, height, &rgba)
        },
    }
}

} // verus!
