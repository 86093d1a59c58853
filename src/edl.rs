//! Eye-dome lighting: the neighbour direction tables and their cache, and
//! the per-camera values that the uniform block and the pipeline key share.
use vstd::prelude::*;
use bevy_platform::collections::HashMap;
use bevy_platform::hash::FixedHasher;
use crate::pipeline::{NormalizePassPipelineKey, canonical_key};

verus! {

#[verifier::external_type_specification]
#[verifier::external_body]
#[verifier::reject_recursive_types(K)]
#[verifier::reject_recursive_types(V)]
#[verifier::reject_recursive_types(S)]
pub struct ExHashMap<K, V, S>(HashMap<K, V, S>);

#[verifier::external_type_specification]
#[verifier::external_body]
pub struct ExFixedHasher(FixedHasher);

/// A sample direction of eye-dome lighting: the unit vector at angle
/// `2π * step / count`.
#[derive(Clone, Copy, Debug, PartialEq, Eq, Structural)]
pub struct NeighbourDirection {
    pub step: u32,
    pub count: u32,
}

/// The `n` sample directions for a neighbour count `n`: direction `i` is at
/// angle `2π * i / n`.
pub open spec fn neighbour_directions(n: u32) -> Seq<NeighbourDirection> {
    Seq::new(n as nat, |i: int| NeighbourDirection { step: i as u32, count: n })
}

/// What the map of direction tables holds.
pub uninterp spec fn direction_tables(m: HashMap<u32, Vec<NeighbourDirection>, FixedHasher>) -> Map<
    u32,
    Seq<NeighbourDirection>,
>;

/// Relies on bevy_platform's HashMap::new: a new map is empty.
#[verifier::external_body]
fn table_map_new() -> (r: HashMap<u32, Vec<NeighbourDirection>, FixedHasher>)
    ensures
        direction_tables(r).dom() == Set::<u32>::empty(),
{
    HashMap::new()
}

/// Relies on bevy_platform's HashMap::get: the value stored under `n`, if any.
#[verifier::external_body]
fn table_map_get(m: &HashMap<u32, Vec<NeighbourDirection>, FixedHasher>, n: u32) -> (r: Option<
    Vec<NeighbourDirection>,
>)
    ensures
        r.is_some() == direction_tables(*m).contains_key(n),
        r.is_some() ==> r.unwrap()@ == direction_tables(*m)[n],
{
    m.get(&n).cloned()
}

/// Relies on bevy_platform's HashMap::insert: `n` is mapped to `v`, the
/// other keys keep their values.
#[verifier::external_body]
fn table_map_insert(
    m: &mut HashMap<u32, Vec<NeighbourDirection>, FixedHasher>,
    n: u32,
    v: Vec<NeighbourDirection>,
)
    ensures
        direction_tables(*final(m)) == direction_tables(*old(m)).insert(n, v@),
{
    m.insert(n, v);
}

/// Computes the direction table for `n` neighbours.
pub fn compute_neighbour_directions(n: u32) -> (r: Vec<NeighbourDirection>)
    ensures
        r@ == neighbour_directions(n),
{
    let mut v: Vec<NeighbourDirection> = Vec::new();
    let mut i: u32 = 0;
    while i < n
        invariant
            i <= n,
            v@ == neighbour_directions(n).subrange(0, i as int),
        decreases n - i,
    {
        v.push(NeighbourDirection { step: i, count: n });
        i = i + 1;
        proof {
            assert(v@ =~= neighbour_directions(n).subrange(0, i as int));
        }
    }
    proof {
        assert(v@ =~= neighbour_directions(n));
    }
    v
}

/// A memo of direction tables by neighbour count. It is never invalidated:
/// a table depends on its count alone.
pub struct NeighboursCache {
    tables: HashMap<u32, Vec<NeighbourDirection>, FixedHasher>,
}

impl NeighboursCache {
    pub closed spec fn view(&self) -> Map<u32, Seq<NeighbourDirection>> {
        direction_tables(self.tables)
    }

    /// Every cached table is the one its count gives.
    pub open spec fn wf(&self) -> bool {
        forall|n: u32| #[trigger] self.view().contains_key(n) ==> self.view()[n] == neighbour_directions(n)
    }

    pub fn new() -> (r: Self)
        ensures
            r.wf(),
            r.view() == Map::<u32, Seq<NeighbourDirection>>::empty(),
    {
        let tables = table_map_new();
        proof {
            assert(direction_tables(tables) =~= Map::<u32, Seq<NeighbourDirection>>::empty());
        }
        NeighboursCache { tables }
    }

    /// The direction table for `neighbours_count`, computed on the first
    /// request for that count and taken from the cache afterwards.
    pub fn get_neighbours(&mut self, neighbours_count: u32) -> (r: Vec<NeighbourDirection>)
        requires
            old(self).wf(),
        ensures
            final(self).wf(),
            r@ == neighbour_directions(neighbours_count),
            final(self).view() == old(self).view().insert(neighbours_count, neighbour_directions(neighbours_count)),
    {
        match table_map_get(&self.tables, neighbours_count) {
            Some(table) => {
                proof {
                    assert(self.view().insert(neighbours_count, neighbour_directions(neighbours_count)) =~= self.view());
                }
                table
            },
            None => {
                let table = compute_neighbour_directions(neighbours_count);
                let stored = table.clone();
                assert(stored@ == table@);
                table_map_insert(&mut self.tables, neighbours_count, stored);
                proof {
                    assert forall|n: u32| #[trigger] self.view().contains_key(n) implies self.view()[n]
                        == neighbour_directions(n) by {
                        if n != neighbours_count {
                            assert(old(self).view().contains_key(n));
                        }
                    }
                }
                table
            },
        }
    }
}

/// Repeated requests for one neighbour count give identical tables, whether
/// they are served from the cache or computed afresh, and direction `i` of
/// the table for `n` lies at angle `2π * i / n`.
pub proof fn lemma_neighbours_repeatable(c: NeighboursCache, n: u32, i: int)
    requires
        c.wf(),
        0 <= i < n,
    ensures
        c.view().contains_key(n) ==> c.view()[n] == neighbour_directions(n),
        neighbour_directions(n).len() == n,
        neighbour_directions(n)[i] == (NeighbourDirection { step: i as u32, count: n }),
{
}

/// The number of directions the uniform block holds: two per vector, eight vectors.
pub const UNIFORM_DIRECTION_SLOTS: usize = 16;

/// The largest neighbour count eye-dome lighting supports: every direction
/// of its table has a slot in the uniform block.
pub const MAX_NEIGHBOUR_COUNT: u32 = 16;

/// The uniform block's direction slots: slot `k` holds direction `k` of the
/// table while there is one; vector `m` of the block holds slots `2m` and
/// `2m + 1`.
pub open spec fn direction_slots(table: Seq<NeighbourDirection>) -> Seq<Option<NeighbourDirection>> {
    Seq::new(UNIFORM_DIRECTION_SLOTS as nat, |k: int| if k < table.len() { Some(table[k]) } else { None })
}

/// Lays a direction table out in the uniform block's slots.
pub fn uniform_direction_slots(table: &Vec<NeighbourDirection>) -> (r: Vec<Option<NeighbourDirection>>)
    ensures
        r@ == direction_slots(table@),
{
    let mut slots: Vec<Option<NeighbourDirection>> = Vec::new();
    let mut k: usize = 0;
    while k < UNIFORM_DIRECTION_SLOTS
        invariant
            k <= UNIFORM_DIRECTION_SLOTS,
            slots@ == direction_slots(table@).subrange(0, k as int),
        decreases UNIFORM_DIRECTION_SLOTS - k,
    {
        if k < table.len() {
            slots.push(Some(table[k]));
        } else {
            slots.push(None);
        }
        k = k + 1;
        proof {
            assert(slots@ =~= direction_slots(table@).subrange(0, k as int));
        }
    }
    proof {
        assert(slots@ =~= direction_slots(table@));
    }
    slots
}

/// The eye-dome lighting settings of a camera that the passes read as
/// integers: whether it is on, and its neighbour count.
#[derive(Clone, Copy, Debug, PartialEq, Eq, Structural)]
pub struct EdlMode {
    pub enabled: bool,
    pub neighbour_count: u32,
}

/// A mode the passes can render: eye-dome lighting off, or on with at most
/// `MAX_NEIGHBOUR_COUNT` neighbours.
pub open spec fn supported_mode(m: EdlMode) -> bool {
    !m.enabled || m.neighbour_count <= MAX_NEIGHBOUR_COUNT
}

/// The normalize pipeline key of a view with `samples` samples per pixel and
/// the given eye-dome lighting mode, if the camera has one; `None` for an
/// unsupported mode, whose view is not composited.
pub open spec fn view_key(samples: u32, mode: Option<EdlMode>) -> Option<NormalizePassPipelineKey> {
    match mode {
        Some(m) if m.enabled => if supported_mode(m) {
            Some(NormalizePassPipelineKey {
                samples,
                use_edl: true,
                edl_neighbour_count: m.neighbour_count,
            })
        } else {
            None
        },
        _ => Some(NormalizePassPipelineKey { samples, use_edl: false, edl_neighbour_count: 0 }),
    }
}

/// The normalize pipeline key of a view.
pub fn normalize_pipeline_key(samples: u32, mode: Option<EdlMode>) -> (r: Option<NormalizePassPipelineKey>)
    ensures
        r == view_key(samples, mode),
        r.is_some() ==> canonical_key(r.unwrap()),
{
    match mode {
        Some(m) => {
            if !m.enabled {
                Some(NormalizePassPipelineKey { samples, use_edl: false, edl_neighbour_count: 0 })
            } else if m.neighbour_count <= MAX_NEIGHBOUR_COUNT {
                Some(NormalizePassPipelineKey { samples, use_edl: true, edl_neighbour_count: m.neighbour_count })
            } else {
                None
            }
        },
        None => Some(NormalizePassPipelineKey { samples, use_edl: false, edl_neighbour_count: 0 }),
    }
}

/// The integer part of a camera's eye-dome lighting uniform block: the
/// screen size and the sample directions.
pub struct EdlUniformPlan {
    pub screen_width: u32,
    pub screen_height: u32,
    pub neighbours: Vec<NeighbourDirection>,
}

/// What extraction does for one camera that has a render mode.
pub enum EdlExtraction {
    /// The camera has no viewport or target size yet: nothing is inserted.
    SkipCamera,
    /// The camera's render-world view is missing: a warning, nothing inserted.
    MissingRenderEntity,
    /// Eye-dome lighting is on with more than `MAX_NEIGHBOUR_COUNT`
    /// neighbours: an error, nothing inserted.
    UnsupportedNeighbourCount,
    /// The uniform block to insert on the camera's render-world view.
    Insert(EdlUniformPlan),
}

/// Decides the extraction of a camera's eye-dome lighting uniform block.
pub fn extract_camera_render_mode(
    cache: &mut NeighboursCache,
    viewport_known: bool,
    target_size: Option<(u32, u32)>,
    render_entity_found: bool,
    mode: EdlMode,
) -> (r: EdlExtraction)
    requires
        old(cache).wf(),
    ensures
        final(cache).wf(),
        (!viewport_known || target_size.is_none()) ==> r is SkipCamera,
        (viewport_known && target_size.is_some() && !supported_mode(mode)) ==> r is UnsupportedNeighbourCount,
        (viewport_known && target_size.is_some() && supported_mode(mode) && !render_entity_found) ==> r is MissingRenderEntity,
        (viewport_known && target_size.is_some() && supported_mode(mode) && render_entity_found) ==> r is Insert
            && r->Insert_0.screen_width == target_size.unwrap().0
            && r->Insert_0.screen_height == target_size.unwrap().1
            && r->Insert_0.neighbours@ == neighbour_directions(mode.neighbour_count),
{
    if !viewport_known {
        return EdlExtraction::SkipCamera;
    }
    match target_size {
        None => EdlExtraction::SkipCamera,
        Some((w, h)) => {
            if mode.enabled && mode.neighbour_count > MAX_NEIGHBOUR_COUNT {
                EdlExtraction::UnsupportedNeighbourCount
            } else if render_entity_found {
                let neighbours = cache.get_neighbours(mode.neighbour_count);
                EdlExtraction::Insert(EdlUniformPlan { screen_width: w, screen_height: h, neighbours })
            } else {
                EdlExtraction::MissingRenderEntity
            }
        },
    }
}

/// For a camera with a supported eye-dome lighting mode on, the uniform
/// block and the pipeline key agree: the key's neighbour count is the
/// number of sample directions, and each of them has its own slot in the
/// uniform block.
pub proof fn lemma_uniform_and_key_agree(samples: u32, mode: EdlMode, k: int)
    requires
        mode.enabled,
        supported_mode(mode),
        0 <= k < mode.neighbour_count,
    ensures
        view_key(samples, Some(mode)).is_some(),
        view_key(samples, Some(mode)).unwrap().use_edl,
        view_key(samples, Some(mode)).unwrap().edl_neighbour_count == neighbour_directions(mode.neighbour_count).len(),
        neighbour_directions(mode.neighbour_count).len() <= direction_slots(neighbour_directions(mode.neighbour_count)).len(),
        direction_slots(neighbour_directions(mode.neighbour_count))[k] == Some(neighbour_directions(mode.neighbour_count)[k]),
{
}

} // verus!
