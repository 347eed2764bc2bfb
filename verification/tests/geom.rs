use prayer::geom::nearest_hit_index;

#[test]
fn no_candidates_means_no_hit() {
    assert_eq!(nearest_hit_index(&Vec::new()), None);
    assert_eq!(nearest_hit_index(&vec![None, None, None]), None);
}

#[test]
fn the_single_candidate_wins() {
    assert_eq!(nearest_hit_index(&vec![None, Some(7), None]), Some(1));
}

#[test]
fn the_closest_candidate_wins() {
    assert_eq!(nearest_hit_index(&vec![Some(5), Some(3), Some(7)]), Some(1));
}

#[test]
fn equal_distances_keep_the_earlier_object() {
    assert_eq!(nearest_hit_index(&vec![None, Some(3), Some(3)]), Some(1));
}

#[test]
fn overlapping_spheres_yield_the_smaller_t() {
    // Two spheres overlapping along a ray: the ray meets the first at
    // t = 2.25 and the second at t = 1.5, so the second must be struck.
    // Positive finite floats compare exactly like their bit patterns.
    let ts = vec![Some(2.25f32.to_bits()), Some(1.5f32.to_bits())];
    assert_eq!(nearest_hit_index(&ts), Some(1));
}
