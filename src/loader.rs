//! The part of loading a LAS point file that decides which points a cloud
//! keeps; reading the file and converting coordinates happen around it.
use vstd::prelude::*;

verus! {

/// The bit pattern of the `f32` value -1.0: a point size that asks for the
/// material's size.
pub const MATERIAL_POINT_SIZE_BITS: u32 = 0xBF80_0000;

/// A LAS point colour: 16 bits per channel.
#[derive(Clone, Copy, Debug, PartialEq, Eq, Structural)]
pub struct LasColor {
    pub red: u16,
    pub green: u16,
    pub blue: u16,
}

/// The settings of the LAS loader: it has none.
#[derive(Clone, Copy, Debug, PartialEq, Eq, Structural)]
pub struct LasLoaderSettings {}

impl Default for LasLoaderSettings {
    fn default() -> (r: Self)
        ensures
            r == (LasLoaderSettings {}),
    {
        LasLoaderSettings {}
    }
}

/// The LAS loader. It reads the whole file in memory.
#[derive(Clone, Copy, Debug, PartialEq, Eq, Structural)]
pub struct LasLoader {}

/// The positions, in order, of the points that carry a colour.
pub open spec fn colored_indices(colors: Seq<Option<LasColor>>) -> Seq<usize>
    decreases colors.len(),
{
    if colors.len() == 0 {
        Seq::empty()
    } else {
        let rest = colored_indices(colors.drop_last());
        if colors.last().is_some() {
            rest.push((colors.len() - 1) as usize)
        } else {
            rest
        }
    }
}

impl LasLoader {
    pub fn new() -> (r: Self)
        ensures
            r == (LasLoader {}),
    {
        LasLoader {}
    }

    /// The points that a loaded cloud keeps: those with a colour, in file
    /// order. `colors[i]` is the colour of point `i`, if it has one.
    pub fn colored_points(&self, colors: &Vec<Option<LasColor>>) -> (r: Vec<usize>)
        ensures
            r@ == colored_indices(colors@),
    {
        let mut kept: Vec<usize> = Vec::new();
        let mut i: usize = 0;
        while i < colors.len()
            invariant
                i <= colors@.len(),
                kept@ == colored_indices(colors@.subrange(0, i as int)),
            decreases colors@.len() - i,
        {
            proof {
                assert(colors@.subrange(0, i as int + 1).drop_last() =~= colors@.subrange(0, i as int));
            }
            if colors[i].is_some() {
                kept.push(i);
            }
            i = i + 1;
        }
        proof {
            assert(colors@.subrange(0, colors@.len() as int) =~= colors@);
        }
        kept
    }
}

proof fn lemma_colored_indices_bounded(colors: Seq<Option<LasColor>>)
    requires
        colors.len() <= usize::MAX,
    ensures
        forall|k: int| 0 <= k < colored_indices(colors).len() ==> {
            let i = #[trigger] colored_indices(colors)[k] as int;
            0 <= i < colors.len() && colors[i].is_some()
        },
        forall|k: int, l: int|
            0 <= k < l < colored_indices(colors).len() ==> #[trigger] colored_indices(colors)[k]
                < #[trigger] colored_indices(colors)[l],
    decreases colors.len(),
{
    if colors.len() > 0 {
        let prefix = colors.drop_last();
        lemma_colored_indices_bounded(prefix);
        let rest = colored_indices(prefix);
        let all = colored_indices(colors);
        assert forall|k: int| 0 <= k < all.len() implies {
            let i = #[trigger] all[k] as int;
            0 <= i < colors.len() && colors[i].is_some()
        } by {
            if k < rest.len() {
                assert(all[k] == rest[k]);
                assert(prefix[rest[k] as int] == colors[rest[k] as int]);
            }
        }
        assert forall|k: int, l: int| 0 <= k < l < all.len() implies #[trigger] all[k] < #[trigger] all[l] by {
            if l < rest.len() {
                assert(all[k] == rest[k] && all[l] == rest[l]);
            } else {
                assert(all[k] == rest[k]);
                assert((rest[k] as int) < prefix.len());
            }
        }
    }
}

proof fn lemma_colored_indices_complete(colors: Seq<Option<LasColor>>, i: int)
    requires
        colors.len() <= usize::MAX,
        0 <= i < colors.len(),
        colors[i].is_some(),
    ensures
        colored_indices(colors).contains(i as usize),
    decreases colors.len(),
{
    let prefix = colors.drop_last();
    let rest = colored_indices(prefix);
    if i < colors.len() - 1 {
        lemma_colored_indices_complete(prefix, i);
        let k = choose|k: int| 0 <= k < rest.len() && rest[k] == i as usize;
        assert(colored_indices(colors)[k] == i as usize);
    } else {
        assert(colored_indices(colors)[rest.len() as int] == i as usize);
    }
}

/// The kept positions are exactly the coloured points: each holds a colour,
/// they rise strictly, and no coloured point is left out.
pub proof fn lemma_colored_indices_exact(colors: Seq<Option<LasColor>>)
    requires
        colors.len() <= usize::MAX,
    ensures
        forall|k: int| 0 <= k < colored_indices(colors).len() ==> {
            let i = #[trigger] colored_indices(colors)[k] as int;
            0 <= i < colors.len() && colors[i].is_some()
        },
        forall|k: int, l: int|
            0 <= k < l < colored_indices(colors).len() ==> #[trigger] colored_indices(colors)[k]
                < #[trigger] colored_indices(colors)[l],
        forall|i: int|
            0 <= i < colors.len() && (#[trigger] colors[i]).is_some() ==> colored_indices(colors).contains(
                i as usize,
            ),
{
    lemma_colored_indices_bounded(colors);
    assert forall|i: int| 0 <= i < colors.len() && (#[trigger] colors[i]).is_some() implies colored_indices(colors).contains(i as usize) by {
        lemma_colored_indices_complete(colors, i);
    }
}

} // verus!
