//! Sharing of accumulation targets between views: views that render to the
//! same target with the same sample count share one texture per frame. The
//! slots are indexed by (target, sample count) in a map.
use vstd::prelude::*;
use bevy_platform::collections::HashMap;
use bevy_platform::hash::FixedHasher;

verus! {

/// What preparing a view's accumulation target needs to know of the view.
#[derive(Clone, Copy, Debug)]
pub struct ViewTextureRequest {
    /// The view has all the render phases of the main 3D passes.
    pub phases_ready: bool,
    /// The identity of the view's render target.
    pub target: u64,
    pub samples: u32,
    /// The target's physical size, once known.
    pub target_size: Option<(u32, u32)>,
}

/// One accumulation texture to allocate this frame.
#[derive(Clone, Copy, Debug, PartialEq, Eq, Structural)]
pub struct TextureSlot {
    pub target: u64,
    pub samples: u32,
    pub width: u32,
    pub height: u32,
    /// The first view that asked for this texture; its size is the texture's.
    pub first_view: usize,
}

/// The textures to allocate, and the texture of each view (`None` for a
/// view that gets none this frame).
pub struct TexturePlan {
    pub slots: Vec<TextureSlot>,
    pub assignment: Vec<Option<usize>>,
}

/// A view gets a texture when its phases are there and its size is known.
pub open spec fn gets_texture(v: ViewTextureRequest) -> bool {
    v.phases_ready && v.target_size.is_some()
}

pub open spec fn same_key(v: ViewTextureRequest, s: TextureSlot) -> bool {
    v.target == s.target && v.samples == s.samples
}

pub open spec fn view_keys_equal(a: ViewTextureRequest, b: ViewTextureRequest) -> bool {
    a.target == b.target && a.samples == b.samples
}

/// The plan for the first `n` views, as the whole-plan contract states it.
pub open spec fn plan_correct(
    views: Seq<ViewTextureRequest>,
    slots: Seq<TextureSlot>,
    assignment: Seq<Option<usize>>,
    n: int,
) -> bool {
    &&& assignment.len() == n
    &&& forall|i: int| 0 <= i < n ==> (#[trigger] assignment[i]).is_some() == gets_texture(views[i])
    &&& forall|i: int|
        0 <= i < n && (#[trigger] assignment[i]).is_some() ==> {
            let t = assignment[i].unwrap() as int;
            0 <= t < slots.len() && same_key(views[i], slots[t])
        }
    &&& forall|a: int, b: int|
        0 <= a < b < slots.len() ==> !(#[trigger] slots[a].target == #[trigger] slots[b].target
            && slots[a].samples == slots[b].samples)
    &&& forall|a: int, b: int|
        0 <= a < b < slots.len() ==> (#[trigger] slots[a]).first_view < (#[trigger] slots[b]).first_view
    &&& forall|t: int|
        0 <= t < slots.len() ==> {
            let f = (#[trigger] slots[t]).first_view as int;
            &&& 0 <= f < n
            &&& assignment[f] == Some(t as usize)
            &&& views[f].target_size == Some((slots[t].width, slots[t].height))
            &&& forall|j: int|
                0 <= j < f && gets_texture(#[trigger] views[j]) ==> !view_keys_equal(views[j], views[f])
        }
}

/// What the map from (target, sample count) to slot holds.
pub uninterp spec fn slot_index_map(m: HashMap<(u64, u32), usize, FixedHasher>) -> Map<(u64, u32), usize>;

/// Relies on bevy_platform's HashMap::new: a new map is empty.
#[verifier::external_body]
fn slot_map_new() -> (r: HashMap<(u64, u32), usize, FixedHasher>)
    ensures
        slot_index_map(r).dom() == Set::<(u64, u32)>::empty(),
{
    HashMap::new()
}

/// Relies on bevy_platform's HashMap::get: the value stored under `key`, if any.
#[verifier::external_body]
fn slot_map_get(m: &HashMap<(u64, u32), usize, FixedHasher>, key: (u64, u32)) -> (r: Option<usize>)
    ensures
        r.is_some() == slot_index_map(*m).contains_key(key),
        r.is_some() ==> r.unwrap() == slot_index_map(*m)[key],
{
    m.get(&key).copied()
}

/// Relies on bevy_platform's HashMap::insert: `key` is mapped to `v`, the
/// other keys keep their values.
#[verifier::external_body]
fn slot_map_insert(m: &mut HashMap<(u64, u32), usize, FixedHasher>, key: (u64, u32), v: usize)
    ensures
        slot_index_map(*final(m)) == slot_index_map(*old(m)).insert(key, v),
{
    m.insert(key, v);
}

pub open spec fn slot_key(s: TextureSlot) -> (u64, u32) {
    (s.target, s.samples)
}

/// The map indexes the slots by their keys.
pub open spec fn indexes_slots(index: Map<(u64, u32), usize>, slots: Seq<TextureSlot>) -> bool {
    &&& forall|key: (u64, u32)|
        #[trigger] index.contains_key(key) ==> index[key] < slots.len() && slot_key(slots[index[key] as int]) == key
    &&& forall|t: int| 0 <= t < slots.len() ==> index.contains_key(slot_key(#[trigger] slots[t]))
}

/// Plans this frame's accumulation targets: one texture per distinct
/// (target, sample count) among the views that get one, sized by the first
/// such view.
pub fn plan_attribute_textures(views: &Vec<ViewTextureRequest>) -> (r: TexturePlan)
    ensures
        plan_correct(views@, r.slots@, r.assignment@, views@.len() as int),
{
    let mut slots: Vec<TextureSlot> = Vec::new();
    let mut assignment: Vec<Option<usize>> = Vec::new();
    let mut index = slot_map_new();
    proof {
        assert(slot_index_map(index) =~= Map::<(u64, u32), usize>::empty());
    }
    let mut i: usize = 0;
    while i < views.len()
        invariant
            i <= views@.len(),
            slots@.len() <= i,
            indexes_slots(slot_index_map(index), slots@),
            plan_correct(views@, slots@, assignment@, i as int),
        decreases views@.len() - i,
    {
        let v = views[i];
        match v.target_size {
            Some((w, h)) if v.phases_ready => {
                let found_slot = slot_map_get(&index, (v.target, v.samples));
                proof {
                    if found_slot.is_none() {
                        assert forall|u: int| 0 <= u < slots@.len() implies !same_key(v, #[trigger] slots@[u]) by {
                            assert(slot_index_map(index).contains_key(slot_key(slots@[u])));
                        }
                    }
                }
                if let Some(t) = found_slot {
                    assignment.push(Some(t));
                    proof {
                        assert(assignment@[i as int] == Some(t));
                    }
                } else {
                    let ghost old_slots = slots@;
                    let ghost old_assignment = assignment@;
                    let new_index = slots.len();
                    slots.push(TextureSlot { target: v.target, samples: v.samples, width: w, height: h, first_view: i });
                    assignment.push(Some(new_index));
                    let ghost old_index = slot_index_map(index);
                    slot_map_insert(&mut index, (v.target, v.samples), new_index);
                    proof {
                        assert forall|key: (u64, u32)| #[trigger] slot_index_map(index).contains_key(key) implies
                            slot_index_map(index)[key] < slots@.len()
                            && slot_key(slots@[slot_index_map(index)[key] as int]) == key by {
                            if key != (v.target, v.samples) {
                                assert(old_index.contains_key(key));
                                assert(slots@[old_index[key] as int] == old_slots[old_index[key] as int]);
                            }
                        }
                        assert forall|t: int| 0 <= t < slots@.len() implies slot_index_map(index).contains_key(slot_key(#[trigger] slots@[t])) by {
                            if t < old_slots.len() {
                                assert(slots@[t] == old_slots[t]);
                                assert(old_index.contains_key(slot_key(old_slots[t])));
                            }
                        }
                        assert forall|j: int| 0 <= j < i && gets_texture(#[trigger] views@[j]) implies !view_keys_equal(views@[j], v) by {
                            let tj = old_assignment[j].unwrap() as int;
                            assert(same_key(views@[j], old_slots[tj]));
                        }
                        assert forall|tt: int| 0 <= tt < slots@.len() implies {
                            let f = (#[trigger] slots@[tt]).first_view as int;
                            &&& 0 <= f < i + 1
                            &&& assignment@[f] == Some(tt as usize)
                            &&& views@[f].target_size == Some((slots@[tt].width, slots@[tt].height))
                            &&& forall|j: int|
                                0 <= j < f && gets_texture(#[trigger] views@[j]) ==> !view_keys_equal(views@[j], views@[f])
                        } by {
                            if tt < old_slots.len() {
                                assert(slots@[tt] == old_slots[tt]);
                            }
                        }
                    }
                }
            },
            _ => {
                assignment.push(None);
            },
        }
        i = i + 1;
        proof {
            assert(plan_correct(views@, slots@, assignment@, i as int));
        }
    }
    TexturePlan { slots, assignment }
}

/// Views that render to the same target with the same sample count share
/// one texture: no key gets two textures in one frame.
pub proof fn lemma_same_key_same_texture(
    views: Seq<ViewTextureRequest>,
    slots: Seq<TextureSlot>,
    assignment: Seq<Option<usize>>,
    a: int,
    b: int,
)
    requires
        plan_correct(views, slots, assignment, views.len() as int),
        0 <= a < views.len(),
        0 <= b < views.len(),
        gets_texture(views[a]),
        gets_texture(views[b]),
        view_keys_equal(views[a], views[b]),
    ensures
        assignment[a] == assignment[b],
{
    assert(assignment[a].is_some());
    assert(assignment[b].is_some());
    let ta = assignment[a].unwrap() as int;
    let tb = assignment[b].unwrap() as int;
    if ta < tb {
        assert(!(slots[ta].target == slots[tb].target && slots[ta].samples == slots[tb].samples));
    } else if tb < ta {
        assert(!(slots[tb].target == slots[ta].target && slots[tb].samples == slots[ta].samples));
    }
}

} // verus!
