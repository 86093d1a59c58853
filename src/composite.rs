//! The per-pixel arithmetic of the splat compositing scheme, in fixed point:
//! a model of what the splat shader, the blend and depth states of the two
//! splat pipelines, and the normalize shader compute at one pixel.
//!
//! A colour channel or a weight is a `u32` where `COLOR_ONE` stands for 1.0.
//! Depth follows the reversed-Z convention: a larger value is nearer to the
//! camera, and `FAR_DEPTH` (0) is the value a depth target is cleared to.
use vstd::prelude::*;

verus! {

/// The fixed-point value of 1.0 for colour channels and weights.
pub const COLOR_ONE: u32 = 10000;

/// The clear value of the depth target: the far plane in reversed-Z.
pub const FAR_DEPTH: u32 = 0;

/// A straight (not premultiplied) RGBA colour in fixed point.
#[derive(Clone, Copy, Debug, PartialEq, Eq, Structural)]
pub struct Rgba {
    pub r: u32,
    pub g: u32,
    pub b: u32,
    pub a: u32,
}

/// One fragment of a splat at one pixel: its colour, its weight and its depth.
#[derive(Clone, Copy, Debug, PartialEq, Eq, Structural)]
pub struct SplatFragment {
    pub color: Rgba,
    pub weight: u32,
    pub depth: u32,
}

/// One texel of the accumulation target: the weighted colour sums in
/// `r`, `g`, `b`, and the sum of weights in `weight`.
#[derive(Clone, Copy, Debug, PartialEq, Eq, Structural)]
pub struct Accumulation {
    pub r: u64,
    pub g: u64,
    pub b: u64,
    pub weight: u64,
}

/// A resolved pixel colour, channels in fixed point.
#[derive(Clone, Copy, Debug, PartialEq, Eq, Structural)]
pub struct PixelColor {
    pub r: u64,
    pub g: u64,
    pub b: u64,
    pub a: u64,
}

/// The mathematical value of an accumulation texel.
pub struct AccumulationModel {
    pub r: int,
    pub g: int,
    pub b: int,
    pub weight: int,
}

impl Accumulation {
    pub open spec fn model(self) -> AccumulationModel {
        AccumulationModel { r: self.r as int, g: self.g as int, b: self.b as int, weight: self.weight as int }
    }
}

/// What one fragment adds to the accumulation target: `(rgb * weight, weight)`.
pub open spec fn contribution(f: SplatFragment) -> AccumulationModel {
    AccumulationModel {
        r: f.color.r * f.weight,
        g: f.color.g * f.weight,
        b: f.color.b * f.weight,
        weight: f.weight as int,
    }
}

pub open spec fn model_add(x: AccumulationModel, y: AccumulationModel) -> AccumulationModel {
    AccumulationModel { r: x.r + y.r, g: x.g + y.g, b: x.b + y.b, weight: x.weight + y.weight }
}

pub open spec fn model_scale(k: int, x: AccumulationModel) -> AccumulationModel {
    AccumulationModel { r: k * x.r, g: k * x.g, b: k * x.b, weight: k * x.weight }
}

pub open spec fn model_zero() -> AccumulationModel {
    AccumulationModel { r: 0, g: 0, b: 0, weight: 0 }
}

/// The depth test of the accumulation pass (`GreaterEqual`, reversed-Z): a
/// fragment survives when it is at least as near as the recorded nearest depth.
pub open spec fn survives_depth_gate(fragment_depth: int, nearest: int) -> bool {
    fragment_depth >= nearest
}

/// The nearest depth among the fragments, as the depth pre-pass records it
/// (a depth target cleared to `FAR_DEPTH`, compare `GreaterEqual`, write on).
pub open spec fn nearest_depth(frags: Seq<SplatFragment>) -> int
    decreases frags.len(),
{
    if frags.len() == 0 {
        FAR_DEPTH as int
    } else {
        let rest = nearest_depth(frags.drop_last());
        let d = frags.last().depth as int;
        if d >= rest { d } else { rest }
    }
}

/// The accumulated value of the fragments that pass the depth gate.
pub open spec fn gated_sum(frags: Seq<SplatFragment>, nearest: int) -> AccumulationModel
    decreases frags.len(),
{
    if frags.len() == 0 {
        model_zero()
    } else {
        let rest = gated_sum(frags.drop_last(), nearest);
        let f = frags.last();
        if survives_depth_gate(f.depth as int, nearest) {
            model_add(rest, contribution(f))
        } else {
            rest
        }
    }
}

/// What the normalize pass does with one pixel.
#[derive(Clone, Copy, Debug, PartialEq, Eq, Structural)]
pub enum NormalizedPixel {
    /// The pixel is covered: this colour is written.
    Covered(PixelColor),
    /// No weight reached the pixel: nothing is written (the shader discards
    /// the fragment), so the pixel keeps the background the frame holds.
    Background,
}

/// The normalize pass without eye-dome lighting: the weighted mean colour,
/// opaque, where some weight was accumulated; the background elsewhere.
pub open spec fn normalized(acc: AccumulationModel) -> NormalizedPixel {
    if acc.weight > 0 {
        NormalizedPixel::Covered(
            PixelColor {
                r: (acc.r / acc.weight) as u64,
                g: (acc.g / acc.weight) as u64,
                b: (acc.b / acc.weight) as u64,
                a: COLOR_ONE as u64,
            },
        )
    } else {
        NormalizedPixel::Background
    }
}

/// An accumulation texel whose value fits the target's 64-bit channels.
pub open spec fn model_fits(m: AccumulationModel) -> bool {
    0 <= m.r <= u64::MAX && 0 <= m.g <= u64::MAX && 0 <= m.b <= u64::MAX
        && 0 <= m.weight <= u64::MAX
}

/// The cleared accumulation target texel.
pub fn empty_accumulation() -> (r: Accumulation)
    ensures
        r.model() == model_zero(),
{
    Accumulation { r: 0, g: 0, b: 0, weight: 0 }
}

impl Accumulation {
    /// Additive blending of one fragment into this texel.
    pub fn add_fragment(&mut self, f: &SplatFragment)
        requires
            model_fits(model_add(old(self).model(), contribution(*f))),
        ensures
            final(self).model() == model_add(old(self).model(), contribution(*f)),
    {
        let w = f.weight as u64;
        proof {
            lemma_product_fits(f.color.r, f.weight);
            lemma_product_fits(f.color.g, f.weight);
            lemma_product_fits(f.color.b, f.weight);
        }
        self.r = self.r + (f.color.r as u64) * w;
        self.g = self.g + (f.color.g as u64) * w;
        self.b = self.b + (f.color.b as u64) * w;
        self.weight = self.weight + w;
    }
}

proof fn lemma_product_fits(c: u32, w: u32)
    ensures
        0 <= (c as int) * (w as int) <= u64::MAX,
{
    assert(0 <= (c as int) * (w as int) <= (u32::MAX as int) * (u32::MAX as int)) by (nonlinear_arith);
}

/// The depth test of the accumulation pass.
pub fn passes_depth_gate(fragment_depth: u32, nearest: u32) -> (r: bool)
    ensures
        r == survives_depth_gate(fragment_depth as int, nearest as int),
{
    fragment_depth >= nearest
}

/// The depth pre-pass at one pixel: the nearest depth among the fragments.
pub fn depth_prepass(frags: &Vec<SplatFragment>) -> (r: u32)
    ensures
        r as int == nearest_depth(frags@),
{
    let mut nearest: u32 = FAR_DEPTH;
    let mut i: usize = 0;
    while i < frags.len()
        invariant
            i <= frags@.len(),
            nearest as int == nearest_depth(frags@.subrange(0, i as int)),
        decreases frags@.len() - i,
    {
        proof {
            assert(frags@.subrange(0, i as int + 1).drop_last() =~= frags@.subrange(0, i as int));
        }
        if frags[i].depth >= nearest {
            nearest = frags[i].depth;
        }
        i = i + 1;
    }
    proof {
        assert(frags@.subrange(0, frags@.len() as int) =~= frags@);
    }
    nearest
}

/// The accumulation pass at one pixel: the fragments that pass the depth
/// gate against `nearest` are blended additively into a cleared texel.
pub fn accumulate(frags: &Vec<SplatFragment>, nearest: u32) -> (r: Accumulation)
    requires
        model_fits(gated_sum(frags@, nearest as int)),
    ensures
        r.model() == gated_sum(frags@, nearest as int),
{
    let mut acc = empty_accumulation();
    let mut i: usize = 0;
    while i < frags.len()
        invariant
            i <= frags@.len(),
            model_fits(gated_sum(frags@, nearest as int)),
            acc.model() == gated_sum(frags@.subrange(0, i as int), nearest as int),
        decreases frags@.len() - i,
    {
        proof {
            assert(frags@.subrange(0, i as int + 1).drop_last() =~= frags@.subrange(0, i as int));
            lemma_gated_sum_prefix_fits(frags@, nearest as int, i as int + 1);
        }
        if passes_depth_gate(frags[i].depth, nearest) {
            acc.add_fragment(&frags[i]);
        }
        i = i + 1;
    }
    proof {
        assert(frags@.subrange(0, frags@.len() as int) =~= frags@);
    }
    acc
}

/// The sums over a prefix never exceed the sums over the whole sequence.
proof fn lemma_gated_sum_prefix_fits(frags: Seq<SplatFragment>, nearest: int, n: int)
    requires
        0 <= n <= frags.len(),
        model_fits(gated_sum(frags, nearest)),
    ensures
        model_fits(gated_sum(frags.subrange(0, n), nearest)),
    decreases frags.len() - n,
{
    if n < frags.len() {
        lemma_gated_sum_prefix_fits(frags, nearest, n + 1);
        let longer = frags.subrange(0, n + 1);
        assert(longer.drop_last() =~= frags.subrange(0, n));
        lemma_gated_sum_nonneg(frags.subrange(0, n), nearest);
    } else {
        assert(frags.subrange(0, n) =~= frags);
    }
}

proof fn lemma_gated_sum_nonneg(frags: Seq<SplatFragment>, nearest: int)
    ensures
        gated_sum(frags, nearest).r >= 0,
        gated_sum(frags, nearest).g >= 0,
        gated_sum(frags, nearest).b >= 0,
        gated_sum(frags, nearest).weight >= 0,
    decreases frags.len(),
{
    if frags.len() > 0 {
        lemma_gated_sum_nonneg(frags.drop_last(), nearest);
        let f = frags.last();
        assert(f.color.r * f.weight >= 0) by (nonlinear_arith)
            requires f.color.r >= 0, f.weight >= 0;
        assert(f.color.g * f.weight >= 0) by (nonlinear_arith)
            requires f.color.g >= 0, f.weight >= 0;
        assert(f.color.b * f.weight >= 0) by (nonlinear_arith)
            requires f.color.b >= 0, f.weight >= 0;
    }
}

/// The normalize pass without eye-dome lighting, for one texel.
pub fn normalize(acc: &Accumulation) -> (r: NormalizedPixel)
    ensures
        r == normalized(acc.model()),
        acc.weight > 0 ==> r == NormalizedPixel::Covered(
            PixelColor {
                r: acc.r / acc.weight,
                g: acc.g / acc.weight,
                b: acc.b / acc.weight,
                a: COLOR_ONE as u64,
            },
        ),
        acc.weight == 0 ==> r == NormalizedPixel::Background,
{
    if acc.weight > 0 {
        NormalizedPixel::Covered(
            PixelColor {
                r: acc.r / acc.weight,
                g: acc.g / acc.weight,
                b: acc.b / acc.weight,
                a: COLOR_ONE as u64,
            },
        )
    } else {
        NormalizedPixel::Background
    }
}

/// The final colour of one pixel covered by `frags`, with eye-dome lighting
/// off: the depth pre-pass, the gated accumulation, then normalization.
pub fn resolve_pixel(frags: &Vec<SplatFragment>) -> (r: NormalizedPixel)
    requires
        model_fits(gated_sum(frags@, nearest_depth(frags@))),
    ensures
        r == normalized(gated_sum(frags@, nearest_depth(frags@))),
{
    let nearest = depth_prepass(frags);
    let acc = accumulate(frags, nearest);
    normalize(&acc)
}

/// Accumulation is additive: the sum over two sequences of fragments
/// rendered one after the other is the sum of their separate sums.
pub proof fn lemma_gated_sum_concat(a: Seq<SplatFragment>, b: Seq<SplatFragment>, nearest: int)
    ensures
        gated_sum(a + b, nearest) == model_add(gated_sum(a, nearest), gated_sum(b, nearest)),
    decreases b.len(),
{
    if b.len() == 0 {
        assert(a + b =~= a);
    } else {
        lemma_gated_sum_concat(a, b.drop_last(), nearest);
        assert((a + b).drop_last() =~= a + b.drop_last());
        assert((a + b).last() == b.last());
    }
}

/// Rendering the same splats twice into a pixel doubles both the
/// accumulated weighted colour and the accumulated weight, compared with
/// rendering them once.
pub proof fn lemma_render_twice_doubles(frags: Seq<SplatFragment>, nearest: int)
    ensures
        gated_sum(frags + frags, nearest) == model_scale(2, gated_sum(frags, nearest)),
{
    lemma_gated_sum_concat(frags, frags, nearest);
}

/// A fragment strictly farther than the recorded nearest depth adds nothing
/// to the accumulation target, wherever it stands among the other fragments.
pub proof fn lemma_farther_fragment_ignored(
    before: Seq<SplatFragment>,
    f: SplatFragment,
    after: Seq<SplatFragment>,
    nearest: int,
)
    requires
        (f.depth as int) < nearest,
    ensures
        gated_sum(before + seq![f] + after, nearest) == gated_sum(before + after, nearest),
{
    lemma_gated_sum_concat(before + seq![f], after, nearest);
    lemma_gated_sum_concat(before, after, nearest);
    assert((before + seq![f]).drop_last() =~= before);
}

/// The depth pre-pass records a depth at least as near as every fragment's.
pub proof fn lemma_nearest_depth_is_nearest(frags: Seq<SplatFragment>, i: int)
    requires
        0 <= i < frags.len(),
    ensures
        frags[i].depth as int <= nearest_depth(frags),
    decreases frags.len(),
{
    if i < frags.len() - 1 {
        lemma_nearest_depth_is_nearest(frags.drop_last(), i);
    }
}

proof fn lemma_nearest_depth_concat(a: Seq<SplatFragment>, b: Seq<SplatFragment>)
    ensures
        nearest_depth(a + b) == (if nearest_depth(a) >= nearest_depth(b) {
            nearest_depth(a)
        } else {
            nearest_depth(b)
        }),
    decreases b.len(),
{
    lemma_nearest_depth_at_least_far(a);
    if b.len() == 0 {
        assert(a + b =~= a);
    } else {
        lemma_nearest_depth_concat(a, b.drop_last());
        assert((a + b).drop_last() =~= a + b.drop_last());
        assert((a + b).last() == b.last());
    }
}

proof fn lemma_nearest_depth_at_least_far(a: Seq<SplatFragment>)
    ensures
        nearest_depth(a) >= FAR_DEPTH,
    decreases a.len(),
{
    if a.len() > 0 {
        lemma_nearest_depth_at_least_far(a.drop_last());
    }
}

/// End to end: a splat strictly farther than the nearest depth of the other
/// splats at a pixel changes neither the recorded depth nor the final colour.
pub proof fn lemma_farther_splat_invisible(
    before: Seq<SplatFragment>,
    f: SplatFragment,
    after: Seq<SplatFragment>,
)
    requires
        (f.depth as int) < nearest_depth(before + after),
    ensures
        nearest_depth(before + seq![f] + after) == nearest_depth(before + after),
        gated_sum(before + seq![f] + after, nearest_depth(before + seq![f] + after))
            == gated_sum(before + after, nearest_depth(before + after)),
{
    lemma_nearest_depth_concat(before + seq![f], after);
    lemma_nearest_depth_concat(before, seq![f]);
    lemma_nearest_depth_concat(before, after);
    assert(seq![f].drop_last() =~= Seq::<SplatFragment>::empty());
    assert(nearest_depth(Seq::<SplatFragment>::empty()) == FAR_DEPTH as int);
    assert(seq![f].last() == f);
    assert(nearest_depth(seq![f]) == f.depth as int);
    lemma_nearest_depth_at_least_far(before);
    lemma_nearest_depth_at_least_far(after);
    lemma_farther_fragment_ignored(before, f, after, nearest_depth(before + after));
}

} // verus!
