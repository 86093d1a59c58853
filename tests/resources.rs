use point_cloud_splat::edl::{
    compute_neighbour_directions, extract_camera_render_mode, uniform_direction_slots,
    EdlExtraction, EdlMode, NeighbourDirection, NeighboursCache, UNIFORM_DIRECTION_SLOTS,
};
use point_cloud_splat::loader::{LasColor, LasLoader, LasLoaderSettings, MATERIAL_POINT_SIZE_BITS};
use point_cloud_splat::point_cloud::{flatten_records, PointCloud, PointCloudData, RenderPointCloud};
use point_cloud_splat::textures::{plan_attribute_textures, TextureSlot, ViewTextureRequest};

fn point(seed: u32) -> PointCloudData {
    PointCloudData {
        position: [1.0f32.to_bits() + seed, 2.0f32.to_bits(), 3.0f32.to_bits()],
        point_size: (-1.0f32).to_bits(),
        color: [0.2f32.to_bits(), 0.4f32.to_bits(), 0.6f32.to_bits(), 1.0f32.to_bits()],
    }
}

#[test]
fn buffer_holds_thirty_two_bytes_per_point() {
    let cloud = PointCloud { points: vec![point(0), point(1), point(2)] };
    assert_eq!(RenderPointCloud::byte_len(&cloud), Some(96));
    let prepared = RenderPointCloud::prepare_asset(cloud);
    assert_eq!(prepared.contents.len(), 96);
    assert_eq!(prepared.length, 3);
}

#[test]
fn empty_cloud_has_an_empty_buffer() {
    let cloud = PointCloud { points: vec![] };
    assert_eq!(RenderPointCloud::byte_len(&cloud), Some(0));
    let prepared = RenderPointCloud::prepare_asset(cloud);
    assert!(prepared.contents.is_empty());
    assert_eq!(prepared.length, 0);
}

#[test]
fn buffer_bytes_are_the_records_in_order() {
    let p = point(7);
    let cloud = PointCloud { points: vec![p, point(0)] };
    let prepared = RenderPointCloud::prepare_asset(cloud);
    let first_word = u32::from_ne_bytes([
        prepared.contents[0],
        prepared.contents[1],
        prepared.contents[2],
        prepared.contents[3],
    ]);
    assert_eq!(first_word, p.position[0]);
    let size_word = u32::from_ne_bytes([
        prepared.contents[12],
        prepared.contents[13],
        prepared.contents[14],
        prepared.contents[15],
    ]);
    assert_eq!(f32::from_bits(size_word), -1.0);
    let words = flatten_records(&vec![p]);
    assert_eq!(words.len(), 8);
    assert_eq!(words[3], MATERIAL_POINT_SIZE_BITS);
    assert_eq!(f32::from_bits(words[6]), 0.6);
}

#[test]
fn neighbour_directions_are_memoized_and_evenly_spread() {
    let mut cache = NeighboursCache::new();
    let first = cache.get_neighbours(4);
    let second = cache.get_neighbours(4);
    assert_eq!(first, second);
    assert_eq!(
        first,
        vec![
            NeighbourDirection { step: 0, count: 4 },
            NeighbourDirection { step: 1, count: 4 },
            NeighbourDirection { step: 2, count: 4 },
            NeighbourDirection { step: 3, count: 4 },
        ]
    );
    for (i, d) in cache.get_neighbours(8).iter().enumerate() {
        let angle = 2.0 * std::f32::consts::PI * d.step as f32 / d.count as f32;
        let expected = 2.0 * std::f32::consts::PI * i as f32 / 8.0;
        assert_eq!(angle.to_bits(), expected.to_bits());
    }
    assert_eq!(compute_neighbour_directions(16).len(), 16);
    assert!(cache.get_neighbours(0).is_empty());
}

#[test]
fn camera_extraction_waits_for_its_sizes() {
    let mut cache = NeighboursCache::new();
    let mode = EdlMode { enabled: true, neighbour_count: 4 };
    assert!(matches!(
        extract_camera_render_mode(&mut cache, false, Some((800, 600)), true, mode),
        EdlExtraction::SkipCamera
    ));
    assert!(matches!(
        extract_camera_render_mode(&mut cache, true, None, true, mode),
        EdlExtraction::SkipCamera
    ));
    assert!(matches!(
        extract_camera_render_mode(&mut cache, true, Some((800, 600)), false, mode),
        EdlExtraction::MissingRenderEntity
    ));
    let too_many = EdlMode { enabled: true, neighbour_count: 17 };
    assert!(matches!(
        extract_camera_render_mode(&mut cache, true, Some((800, 600)), true, too_many),
        EdlExtraction::UnsupportedNeighbourCount
    ));
    match extract_camera_render_mode(&mut cache, true, Some((800, 600)), true, mode) {
        EdlExtraction::Insert(plan) => {
            assert_eq!((plan.screen_width, plan.screen_height), (800, 600));
            assert_eq!(plan.neighbours.len(), 4);
        }
        _ => panic!("the uniform block is inserted"),
    }
}

fn view(phases_ready: bool, target: u64, samples: u32, size: Option<(u32, u32)>) -> ViewTextureRequest {
    ViewTextureRequest { phases_ready, target, samples, target_size: size }
}

#[test]
fn views_with_equal_targets_share_a_texture() {
    let views = vec![
        view(true, 7, 4, Some((1920, 1080))),
        view(true, 7, 4, Some((640, 480))),
        view(true, 7, 1, Some((1920, 1080))),
        view(false, 7, 4, Some((1920, 1080))),
        view(true, 9, 4, None),
        view(true, 9, 4, Some((320, 200))),
    ];
    let plan = plan_attribute_textures(&views);
    assert_eq!(plan.assignment, vec![Some(0), Some(0), Some(1), None, None, Some(2)]);
    assert_eq!(
        plan.slots,
        vec![
            TextureSlot { target: 7, samples: 4, width: 1920, height: 1080, first_view: 0 },
            TextureSlot { target: 7, samples: 1, width: 1920, height: 1080, first_view: 2 },
            TextureSlot { target: 9, samples: 4, width: 320, height: 200, first_view: 5 },
        ]
    );
}

#[test]
fn loader_keeps_coloured_points_in_order() {
    let c = LasColor { red: 65535, green: 0, blue: 1 };
    let loader = LasLoader::new();
    let kept = loader.colored_points(&vec![None, Some(c), Some(c), None, Some(c)]);
    assert_eq!(kept, vec![1, 2, 4]);
    assert!(loader.colored_points(&vec![None, None]).is_empty());
    assert_eq!(LasLoaderSettings::default(), LasLoaderSettings {});
}

#[test]
fn uniform_slots_hold_the_table_then_nothing() {
    let table = compute_neighbour_directions(4);
    let slots = uniform_direction_slots(&table);
    assert_eq!(slots.len(), UNIFORM_DIRECTION_SLOTS);
    assert_eq!(slots[0], Some(NeighbourDirection { step: 0, count: 4 }));
    assert_eq!(slots[3], Some(NeighbourDirection { step: 3, count: 4 }));
    assert_eq!(slots[4], None);
    assert_eq!(slots[15], None);
    let wide = uniform_direction_slots(&compute_neighbour_directions(16));
    assert_eq!(wide.len(), 16);
    assert_eq!(wide[15], Some(NeighbourDirection { step: 15, count: 16 }));
    assert!(wide.iter().all(|s| s.is_some()));
}
