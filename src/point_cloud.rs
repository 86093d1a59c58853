//! Point records and their upload layout: each record is 32 bytes, one
//! vertex instance, and a cloud's buffer is its records side by side.
use vstd::prelude::*;
use crate::pipeline::POINT_RECORD_SIZE;

verus! {

/// One point as the GPU reads it: eight 32-bit words, each the bit pattern
/// of an `f32`. `position` is x, y, z; a negative `point_size` asks for the
/// material's size; `color` is straight RGBA.
#[derive(Clone, Copy, Debug, PartialEq, Eq)]
pub struct PointCloudData {
    pub position: [u32; 3],
    pub point_size: u32,
    pub color: [u32; 4],
}

/// The eight words of a record, in layout order.
pub open spec fn record_words(p: PointCloudData) -> Seq<u32> {
    seq![
        p.position@[0], p.position@[1], p.position@[2], p.point_size,
        p.color@[0], p.color@[1], p.color@[2], p.color@[3],
    ]
}

/// The words of a sequence of records, laid side by side.
pub open spec fn cloud_words(points: Seq<PointCloudData>) -> Seq<u32>
    decreases points.len(),
{
    if points.len() == 0 {
        Seq::empty()
    } else {
        cloud_words(points.drop_last()) + record_words(points.last())
    }
}

/// An ordered collection of point records.
pub struct PointCloud {
    pub points: Vec<PointCloudData>,
}

/// The render-side form of a point cloud: the bytes of its vertex buffer and
/// the number of instances to draw.
pub struct RenderPointCloud {
    pub contents: Vec<u8>,
    pub length: usize,
}

/// The four bytes of a word, least significant first.
pub open spec fn le_bytes(w: u32) -> Seq<u8> {
    seq![
        (w % 0x100) as u8,
        ((w / 0x100) % 0x100) as u8,
        ((w / 0x1_0000) % 0x100) as u8,
        (w / 0x100_0000) as u8,
    ]
}

/// The four bytes of a word, most significant first.
pub open spec fn be_bytes(w: u32) -> Seq<u8> {
    seq![
        (w / 0x100_0000) as u8,
        ((w / 0x1_0000) % 0x100) as u8,
        ((w / 0x100) % 0x100) as u8,
        (w % 0x100) as u8,
    ]
}

/// The bytes `4k .. 4k + 4` of `bytes`.
pub open spec fn word_group(bytes: Seq<u8>, k: int) -> Seq<u8> {
    bytes.subrange(4 * k, 4 * k + 4)
}

/// `bytes` holds `words` side by side, each in the machine's byte order:
/// all least significant byte first, or all most significant byte first.
pub open spec fn encodes_words(bytes: Seq<u8>, words: Seq<u32>) -> bool {
    &&& bytes.len() == 4 * words.len()
    &&& {
        ||| forall|k: int| 0 <= k < words.len() ==> word_group(bytes, k) == le_bytes(#[trigger] words[k])
        ||| forall|k: int| 0 <= k < words.len() ==> word_group(bytes, k) == be_bytes(#[trigger] words[k])
    }
}

/// Relies on bytemuck::cast_slice from `u32` to `u8`: the same memory seen
/// as bytes, each word's four bytes in the machine's byte order.
#[verifier::external_body]
fn words_as_bytes(words: &Vec<u32>) -> (r: Vec<u8>)
    ensures
        encodes_words(r@, words@),
{
    bytemuck::cast_slice::<u32, u8>(words.as_slice()).to_vec()
}

proof fn lemma_cloud_words_len(points: Seq<PointCloudData>)
    ensures
        cloud_words(points).len() == 8 * points.len(),
    decreases points.len(),
{
    if points.len() > 0 {
        lemma_cloud_words_len(points.drop_last());
    }
}

/// The words of all records of `points`, in order.
pub fn flatten_records(points: &Vec<PointCloudData>) -> (r: Vec<u32>)
    requires
        8 * points@.len() <= usize::MAX,
    ensures
        r@ == cloud_words(points@),
        r@.len() == 8 * points@.len(),
{
    let mut words: Vec<u32> = Vec::new();
    let mut i: usize = 0;
    while i < points.len()
        invariant
            i <= points@.len(),
            words@ == cloud_words(points@.subrange(0, i as int)),
        decreases points@.len() - i,
    {
        let p = points[i];
        proof {
            assert(points@.subrange(0, i as int + 1).drop_last() =~= points@.subrange(0, i as int));
        }
        words.push(p.position[0]);
        words.push(p.position[1]);
        words.push(p.position[2]);
        words.push(p.point_size);
        words.push(p.color[0]);
        words.push(p.color[1]);
        words.push(p.color[2]);
        words.push(p.color[3]);
        proof {
            assert(words@ =~= cloud_words(points@.subrange(0, i as int)) + record_words(p));
        }
        i = i + 1;
    }
    proof {
        assert(points@.subrange(0, points@.len() as int) =~= points@);
        lemma_cloud_words_len(points@);
    }
    words
}

impl RenderPointCloud {
    /// The size in bytes of the cloud's vertex buffer: 32 bytes per point,
    /// or `None` where that does not fit in `usize`.
    pub fn byte_len(source: &PointCloud) -> (r: Option<usize>)
        ensures
            r == (if source.points@.len() * POINT_RECORD_SIZE <= usize::MAX {
                Some((source.points@.len() * POINT_RECORD_SIZE) as usize)
            } else {
                None::<usize>
            }),
    {
        source.points.len().checked_mul(POINT_RECORD_SIZE as usize)
    }

    /// Lays out the cloud's records for vertex-rate instancing: the buffer
    /// holds `32 * len` bytes, the words of the records in order, and
    /// `length` is the number of points.
    pub fn prepare_asset(source: PointCloud) -> (r: RenderPointCloud)
        requires
            source.points@.len() * POINT_RECORD_SIZE <= usize::MAX,
        ensures
            r.contents@.len() == source.points@.len() * POINT_RECORD_SIZE,
            encodes_words(r.contents@, cloud_words(source.points@)),
            r.length == source.points@.len(),
    {
        let words = flatten_records(&source.points);
        let contents = words_as_bytes(&words);
        RenderPointCloud { contents, length: source.points.len() }
    }
}

/// Word `i` of record `k` is word `8k + i` of the cloud.
pub proof fn lemma_cloud_words_index(points: Seq<PointCloudData>, k: int, i: int)
    requires
        0 <= k < points.len(),
        0 <= i < 8,
    ensures
        cloud_words(points).len() == 8 * points.len(),
        cloud_words(points)[8 * k + i] == record_words(points[k])[i],
    decreases points.len(),
{
    lemma_cloud_words_len(points);
    let prefix = points.drop_last();
    lemma_cloud_words_len(prefix);
    if k < points.len() - 1 {
        lemma_cloud_words_index(prefix, k, i);
    }
}

/// In a cloud's buffer, bytes `32k + 4i .. 32k + 4i + 4` hold word `i` of
/// record `k` (position x, y, z, point size, colour r, g, b, a), in the
/// machine's byte order: record `k` fills bytes `32k .. 32k + 32`.
pub proof fn lemma_record_bytes(bytes: Seq<u8>, points: Seq<PointCloudData>, k: int, i: int)
    requires
        encodes_words(bytes, cloud_words(points)),
        0 <= k < points.len(),
        0 <= i < 8,
    ensures
        bytes.len() == POINT_RECORD_SIZE * points.len(),
        bytes.subrange(32 * k + 4 * i, 32 * k + 4 * i + 4) == le_bytes(record_words(points[k])[i])
            || bytes.subrange(32 * k + 4 * i, 32 * k + 4 * i + 4) == be_bytes(record_words(points[k])[i]),
{
    lemma_cloud_words_index(points, k, i);
    let words = cloud_words(points);
    let j = 8 * k + i;
    assert(4 * j == 32 * k + 4 * i);
    assert(0 <= j < words.len());
}

} // verus!
