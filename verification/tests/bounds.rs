use geocache::db::{CacheFilter, LatLong};
use geocache::routes::view::{view_caches, CacheViewErrors, CacheViewParameters};

fn params(
    min_lat: Option<i64>,
    max_lat: Option<i64>,
    min_long: Option<i64>,
    max_long: Option<i64>,
) -> CacheViewParameters {
    CacheViewParameters { user_id: None, min_lat, max_lat, min_long, max_long }
}

fn corners(sw: (i64, i64), ne: (i64, i64)) -> Option<(LatLong, LatLong)> {
    Some((LatLong { lat: sw.0, lng: sw.1 }, LatLong { lat: ne.0, lng: ne.1 }))
}

#[test]
fn ordered_bounds_are_kept() {
    let p = params(Some(0), Some(15), Some(0), Some(25));
    assert_eq!(p.get_bound_points(), corners((0, 0), (15, 25)));
}

#[test]
fn latitudes_swap_alone() {
    let p = params(Some(10), Some(5), Some(1), Some(9));
    assert_eq!(p.get_bound_points(), corners((5, 1), (10, 9)));
}

#[test]
fn longitudes_swap_alone() {
    let p = params(Some(5), Some(10), Some(9), Some(1));
    assert_eq!(p.get_bound_points(), corners((5, 1), (10, 9)));
}

#[test]
fn both_axes_swap() {
    let p = params(Some(10), Some(5), Some(9), Some(1));
    assert_eq!(p.get_bound_points(), corners((5, 1), (10, 9)));
}

#[test]
fn equal_bounds_give_a_point() {
    let p = params(Some(7), Some(7), Some(-3), Some(-3));
    assert_eq!(p.get_bound_points(), corners((7, -3), (7, -3)));
}

#[test]
fn extreme_bounds_are_ordered() {
    let p = params(Some(i64::MAX), Some(i64::MIN), Some(i64::MIN), Some(i64::MAX));
    assert_eq!(p.get_bound_points(), corners((i64::MIN, i64::MIN), (i64::MAX, i64::MAX)));
}

#[test]
fn box_is_ordered_for_every_order_of_small_bounds() {
    let values: [i64; 3] = [-2, 0, 3];
    for a in values {
        for b in values {
            for c in values {
                for d in values {
                    let (sw, ne) = params(Some(a), Some(b), Some(c), Some(d))
                        .get_bound_points()
                        .unwrap();
                    assert!(sw.lat <= ne.lat && sw.lng <= ne.lng);
                    assert_eq!((sw.lat, ne.lat), (a.min(b), a.max(b)));
                    assert_eq!((sw.lng, ne.lng), (c.min(d), c.max(d)));
                }
            }
        }
    }
}

#[test]
fn no_bounds_are_no_box() {
    let p = params(None, None, None, None);
    assert!(!p.coordinates_provided());
    assert!(!p.coordinates_complete());
    assert_eq!(p.get_bound_points(), None);
    assert_eq!(view_caches(&p), Ok(CacheFilter { owner_id: None, bounds: None }));
}

#[test]
fn one_two_or_three_bounds_are_incomplete() {
    let given = [Some(1i64), None];
    for a in given {
        for b in given {
            for c in given {
                for d in given {
                    let p = params(a, b, c, d);
                    let count = [a, b, c, d].iter().filter(|x| x.is_some()).count();
                    assert_eq!(p.coordinates_provided(), count >= 1);
                    assert_eq!(p.coordinates_complete(), count == 4);
                    assert_eq!(p.get_bound_points().is_some(), count == 4);
                    if 1 <= count && count < 4 {
                        assert_eq!(
                            view_caches(&p),
                            Err(CacheViewErrors::IncompleteBoundSpecification)
                        );
                    } else {
                        assert!(view_caches(&p).is_ok());
                    }
                }
            }
        }
    }
}

#[test]
fn listing_filters_by_owner_and_box() {
    let p = CacheViewParameters {
        user_id: Some(7),
        min_lat: Some(15),
        max_lat: Some(0),
        min_long: Some(0),
        max_long: Some(25),
    };
    assert_eq!(
        view_caches(&p),
        Ok(CacheFilter { owner_id: Some(7), bounds: corners((0, 0), (15, 25)) })
    );
}

#[test]
fn listing_by_owner_alone_has_no_box() {
    let p = CacheViewParameters {
        user_id: Some(7),
        min_lat: None,
        max_lat: None,
        min_long: None,
        max_long: None,
    };
    assert_eq!(view_caches(&p), Ok(CacheFilter { owner_id: Some(7), bounds: None }));
}
