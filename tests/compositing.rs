use point_cloud_splat::composite::{
    depth_prepass, accumulate, empty_accumulation, normalize, passes_depth_gate, resolve_pixel,
    Accumulation, NormalizedPixel, PixelColor, Rgba, SplatFragment, COLOR_ONE, FAR_DEPTH,
};

fn frag(r: u32, g: u32, b: u32, weight: u32, depth: u32) -> SplatFragment {
    SplatFragment { color: Rgba { r, g, b, a: COLOR_ONE }, weight, depth }
}

#[test]
fn two_coincident_points_average_their_colours() {
    let red = frag(COLOR_ONE, 0, 0, COLOR_ONE, 500);
    let green = frag(0, COLOR_ONE, 0, COLOR_ONE, 500);
    let pixel = resolve_pixel(&vec![red, green]);
    assert_eq!(pixel, NormalizedPixel::Covered(PixelColor { r: 5000, g: 5000, b: 0, a: 10000 }));
}

#[test]
fn isolated_point_keeps_its_colour_exactly() {
    let p = frag(2000, 4000, 6000, COLOR_ONE, 700);
    let pixel = resolve_pixel(&vec![p]);
    assert_eq!(pixel, NormalizedPixel::Covered(PixelColor { r: 2000, g: 4000, b: 6000, a: COLOR_ONE as u64 }));
}

#[test]
fn rendering_a_splat_twice_doubles_the_sums() {
    let p = frag(3000, 1000, 9000, 2500, 40);
    let once = accumulate(&vec![p], 40);
    let twice = accumulate(&vec![p, p], 40);
    assert_eq!(once, Accumulation { r: 7_500_000, g: 2_500_000, b: 22_500_000, weight: 2500 });
    assert_eq!(twice.r, 2 * once.r);
    assert_eq!(twice.g, 2 * once.g);
    assert_eq!(twice.b, 2 * once.b);
    assert_eq!(twice.weight, 2 * once.weight);
}

#[test]
fn normalize_divides_by_the_weight() {
    let acc = Accumulation { r: 9000, g: 3000, b: 0, weight: 3 };
    assert_eq!(normalize(&acc), NormalizedPixel::Covered(PixelColor { r: 3000, g: 1000, b: 0, a: 10000 }));
}

#[test]
fn normalize_of_an_uncovered_pixel_is_the_background() {
    let acc = empty_accumulation();
    assert_eq!(normalize(&acc), NormalizedPixel::Background);
    let stray = Accumulation { r: 123, g: 45, b: 6, weight: 0 };
    assert_eq!(normalize(&stray), NormalizedPixel::Background);
}

#[test]
fn farther_splat_does_not_contribute() {
    let near = frag(COLOR_ONE, 0, 0, COLOR_ONE, 900);
    let far = frag(0, 0, COLOR_ONE, COLOR_ONE, 100);
    let frags = vec![far, near, far];
    let nearest = depth_prepass(&frags);
    assert_eq!(nearest, 900);
    let acc = accumulate(&frags, nearest);
    assert_eq!(acc, Accumulation { r: 100_000_000, g: 0, b: 0, weight: 10000 });
    assert_eq!(resolve_pixel(&frags), NormalizedPixel::Covered(PixelColor { r: 10000, g: 0, b: 0, a: 10000 }));
}

#[test]
fn depth_gate_keeps_ties_and_nearer() {
    assert!(passes_depth_gate(10, 10));
    assert!(passes_depth_gate(11, 10));
    assert!(!passes_depth_gate(9, 10));
}

#[test]
fn depth_prepass_of_no_splat_is_the_far_plane() {
    assert_eq!(depth_prepass(&vec![]), FAR_DEPTH);
    assert_eq!(resolve_pixel(&vec![]), NormalizedPixel::Background);
}

#[test]
fn accumulation_adds_each_fragment() {
    let mut acc = empty_accumulation();
    acc.add_fragment(&frag(10, 20, 30, 2, 1));
    acc.add_fragment(&frag(1, 1, 1, 5, 1));
    assert_eq!(acc, Accumulation { r: 25, g: 45, b: 65, weight: 7 });
}

#[test]
fn weights_other_than_one_average_by_total_weight() {
    let heavy = frag(COLOR_ONE, 0, 0, 3 * COLOR_ONE / 4, 500);
    let light = frag(0, 0, COLOR_ONE, COLOR_ONE / 4, 500);
    let acc = accumulate(&vec![heavy, light], 500);
    assert_eq!(acc.weight, COLOR_ONE as u64);
    assert_eq!(
        normalize(&acc),
        NormalizedPixel::Covered(PixelColor { r: 7500, g: 0, b: 2500, a: 10000 })
    );
}
