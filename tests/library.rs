use raytracer::hits::closest_hit;
use raytracer::image::scan_order;
use raytracer::ppm::{pixel_line, ppm_header, push_decimal};
use raytracer::scene::grid_cells;
use raytracer::trace::{step, traced, Interaction, Step};

#[test]
fn zero_depth_is_black_for_every_event() {
    for ev in [Interaction::Miss, Interaction::Absorbed, Interaction::Scattered] {
        assert_eq!(step(0, ev), Step::Black);
    }
}

#[test]
fn miss_ends_in_background() {
    assert_eq!(step(50, Interaction::Miss), Step::Background);
    assert_eq!(step(1, Interaction::Miss), Step::Background);
}

#[test]
fn absorption_ends_dark() {
    assert_eq!(step(50, Interaction::Absorbed), Step::Black);
}

#[test]
fn scattering_spends_one_bounce() {
    assert_eq!(step(50, Interaction::Scattered), Step::Bounce { depth: 49 });
    assert_eq!(step(2, Interaction::Scattered), Step::Bounce { depth: 1 });
    assert_eq!(step(0, Interaction::Scattered), Step::Black);
}

#[test]
fn scattering_on_last_bounce_ends_dark() {
    assert_eq!(step(1, Interaction::Scattered), Step::Black);
}

#[test]
fn only_rays_with_depth_left_are_traced() {
    assert!(!traced(0));
    assert!(traced(1));
    assert!(traced(50));
}

#[test]
fn path_never_exceeds_its_depth() {
    let mut depth: u32 = 3;
    let mut bounces = 0;
    loop {
        match step(depth, Interaction::Scattered) {
            Step::Bounce { depth: d } => {
                bounces += 1;
                depth = d;
            }
            Step::Black => break,
            Step::Background => panic!("no miss was reported"),
        }
    }
    assert_eq!(bounces, 2);
}

#[test]
fn closest_hit_of_no_members_is_none() {
    assert_eq!(closest_hit(&vec![], 100), None);
}

#[test]
fn closest_hit_of_only_misses_is_none() {
    assert_eq!(closest_hit(&vec![None, None], 100), None);
}

#[test]
fn closest_hit_picks_smallest_key() {
    let hits = vec![Some(30), None, Some(10), Some(20)];
    assert_eq!(closest_hit(&hits, 100), Some(2));
}

#[test]
fn closest_hit_is_no_farther_than_any_member() {
    let hits = vec![Some(7), Some(3), None, Some(9), Some(3), Some(5)];
    let i = closest_hit(&hits, 1000).unwrap();
    let best = hits[i].unwrap();
    for h in hits.iter().flatten() {
        assert!(best <= *h);
    }
}

#[test]
fn closest_hit_keeps_first_of_equal_keys() {
    let hits = vec![None, Some(4), Some(4)];
    assert_eq!(closest_hit(&hits, 10), Some(1));
}

#[test]
fn closest_hit_ignores_keys_past_limit() {
    assert_eq!(closest_hit(&vec![Some(11), Some(12)], 10), None);
    assert_eq!(closest_hit(&vec![Some(12), Some(9)], 10), Some(1));
}

#[test]
fn closest_hit_counts_key_at_limit() {
    assert_eq!(closest_hit(&vec![Some(5)], 5), Some(0));
    assert_eq!(closest_hit(&vec![Some(10), Some(12)], 10), Some(0));
}

#[test]
fn closest_hit_on_float_distances() {
    let ts: [f32; 3] = [2.5, 0.75, 1.0];
    let hits: Vec<Option<u32>> = ts.iter().map(|t| Some(t.to_bits())).collect();
    assert_eq!(closest_hit(&hits, 1_000_000.0f32.to_bits()), Some(1));
}

#[test]
fn scan_order_of_small_image() {
    let order = scan_order(3, 2);
    assert_eq!(order, vec![(0, 1), (1, 1), (2, 1), (0, 0), (1, 0), (2, 0)]);
}

#[test]
fn scan_order_of_empty_image() {
    assert!(scan_order(0, 5).is_empty());
    assert!(scan_order(5, 0).is_empty());
}

#[test]
fn scan_order_starts_with_top_row() {
    let order = scan_order(400, 225);
    assert_eq!(order.len(), 400 * 225);
    for (k, p) in order.iter().take(400).enumerate() {
        assert_eq!(*p, (k as u32, 224));
    }
    assert_eq!(order[400 * 112 + 200], (200, 112));
    assert_eq!(*order.last().unwrap(), (399, 0));
}

#[test]
fn grid_of_random_scene() {
    let cells = grid_cells(11);
    assert_eq!(cells.len(), 484);
    assert_eq!(cells[0], (-11, -11));
    assert_eq!(cells[1], (-11, -10));
    assert_eq!(cells[22], (-10, -11));
    assert_eq!(cells[483], (10, 10));
}

#[test]
fn grid_of_size_zero_is_empty() {
    assert!(grid_cells(0).is_empty());
}

#[test]
fn grid_of_smallest_size() {
    assert_eq!(grid_cells(1), vec![(-1, -1), (-1, 0), (0, -1), (0, 0)]);
}

#[test]
fn decimal_digits() {
    let mut out = b"x".to_vec();
    push_decimal(&mut out, 0);
    push_decimal(&mut out, 9);
    push_decimal(&mut out, 10);
    push_decimal(&mut out, 18446744073709551615);
    assert_eq!(out, b"x091018446744073709551615".to_vec());
}

#[test]
fn header_of_image() {
    assert_eq!(ppm_header(400, 225), b"P3\n400 225 255\n".to_vec());
    assert_eq!(ppm_header(1200, 800), b"P3\n1200 800 255\n".to_vec());
}

#[test]
fn pixel_lines() {
    assert_eq!(pixel_line(255, 128, 0), b"255 128 0\n".to_vec());
    assert_eq!(pixel_line(128, 179, 255), b"128 179 255\n".to_vec());
}
