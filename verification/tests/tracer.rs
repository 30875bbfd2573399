use rays::tracer::{cut_off, radiance, Encounter, Radiance};

#[test]
fn at_the_cutoff_the_radiance_is_black() {
    for max_depth in [0u8, 1, 5, 50, 255] {
        for encounter in [Encounter::Miss, Encounter::Absorbed, Encounter::Scattered] {
            assert_eq!(radiance(max_depth, max_depth, encounter), Radiance::Black);
        }
    }
}

#[test]
fn past_the_cutoff_the_radiance_is_black() {
    assert_eq!(radiance(51, 50, Encounter::Miss), Radiance::Black);
    assert_eq!(radiance(255, 0, Encounter::Scattered), Radiance::Black);
}

#[test]
fn a_miss_shows_the_background() {
    assert_eq!(radiance(0, 50, Encounter::Miss), Radiance::Background);
    assert_eq!(radiance(49, 50, Encounter::Miss), Radiance::Background);
}

#[test]
fn an_absorbed_ray_is_black() {
    assert_eq!(radiance(0, 50, Encounter::Absorbed), Radiance::Black);
}

#[test]
fn a_scattered_ray_is_followed_one_level_deeper() {
    assert_eq!(radiance(0, 50, Encounter::Scattered), Radiance::Bounce { depth: 1 });
    assert_eq!(radiance(49, 50, Encounter::Scattered), Radiance::Bounce { depth: 50 });
    assert_eq!(radiance(254, 255, Encounter::Scattered), Radiance::Bounce { depth: 255 });
}

#[test]
fn cut_off_from_max_depth_on() {
    assert!(!cut_off(0, 1));
    assert!(!cut_off(49, 50));
    assert!(cut_off(50, 50));
    assert!(cut_off(51, 50));
    assert!(cut_off(0, 0));
}

#[test]
fn a_path_of_scattered_rays_ends_at_max_depth() {
    let max_depth = 7u8;
    let mut depth = 0u8;
    let mut bounces = 0;
    loop {
        match radiance(depth, max_depth, Encounter::Scattered) {
            Radiance::Bounce { depth: next } => {
                assert_eq!(next, depth + 1);
                depth = next;
                bounces += 1;
            }
            other => {
                assert_eq!(other, Radiance::Black);
                break;
            }
        }
    }
    assert_eq!(bounces, 7);
}
