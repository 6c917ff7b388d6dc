use api_data_sync::{BoundingBox, Category, Coords, Error};
use api_data_sync::utils::Const;

#[test]
fn coords_validate_ranges() {
    assert!(Coords::new(126_916_080, 37_574_244).is_ok());
    assert_eq!(
        Coords::new(180_000_001, 0).unwrap_err(),
        Error::InvalidLongitudeRange
    );
    assert_eq!(
        Coords::new(-180_000_001, 0).unwrap_err(),
        Error::InvalidLongitudeRange
    );
    assert_eq!(
        Coords::new(0, 90_000_001).unwrap_err(),
        Error::InvalidLatitudeRange
    );
    assert_eq!(
        Coords::new(0, -90_000_001).unwrap_err(),
        Error::InvalidLatitudeRange
    );
    // The longitude is checked first when both are out of range.
    assert_eq!(
        Coords::new(200_000_000, 95_000_000).unwrap_err(),
        Error::InvalidLongitudeRange
    );
}

#[test]
fn coords_boundaries_are_valid() {
    assert!(Coords::new(180_000_000, 90_000_000).is_ok());
    assert!(Coords::new(-180_000_000, -90_000_000).is_ok());
}

#[test]
fn at_south_west_needs_both_axes() {
    let a = Coords::new(0, 0).unwrap();
    let b = Coords::new(5, 5).unwrap();
    let c = Coords::new(5, -5).unwrap();
    assert!(a.at_south_west_from(&b));
    assert!(!b.at_south_west_from(&a));
    assert!(!a.at_south_west_from(&c));
}

#[test]
fn bounding_box_normalizes_corners() {
    let a = Coords::new(10, -20).unwrap();
    let b = Coords::new(-10, 20).unwrap();
    let r = BoundingBox::new(a, b).unwrap();
    assert_eq!(r.sw, Coords::new(-10, -20).unwrap());
    assert_eq!(r.ne, Coords::new(10, 20).unwrap());
}

#[test]
fn degenerate_box_is_rejected() {
    let a = Coords::new(5, 1).unwrap();
    let b = Coords::new(5, 9).unwrap();
    assert_eq!(BoundingBox::new(a, b).unwrap_err(), Error::DegenerateRegion);
    assert_eq!(BoundingBox::new(a, a).unwrap_err(), Error::DegenerateRegion);
}

#[test]
fn split_bisects_longer_axis_at_midpoint() {
    let r = BoundingBox::new(
        Coords::new(-1_000_000, 0).unwrap(),
        Coords::new(2_000_000, 1_000_000).unwrap(),
    )
    .unwrap();
    let (h1, h2) = r.split();
    assert_eq!(h1.sw, r.sw);
    assert_eq!(h1.ne, Coords::new(500_000, 1_000_000).unwrap());
    assert_eq!(h2.sw, Coords::new(500_000, 0).unwrap());
    assert_eq!(h2.ne, r.ne);
}

#[test]
fn split_odd_span_loses_nothing() {
    let r = BoundingBox::new(Coords::new(0, 0).unwrap(), Coords::new(5, 2).unwrap()).unwrap();
    let (h1, h2) = r.split();
    assert_eq!(h1.ne.x, 2);
    assert_eq!(h2.sw.x, 2);
    assert_eq!(h1.sw.x, 0);
    assert_eq!(h2.ne.x, 5);
}

#[test]
fn category_codes_match_the_service() {
    assert_eq!(Category::Restaurant.code(), "FD6");
    assert_eq!(Category::Cafe.code(), "CE7");
    assert_eq!(Category::Supermarket.code(), "MT1");
    assert_eq!(Category::Pharmacy.code(), "PM9");
}

#[test]
fn config_keys_compose_under_prefix() {
    assert_eq!(
        Const::KakaoRestApiUrl.value("API_DATA_SYNC"),
        "API_DATA_SYNC_KAKAO_REST_API_URL"
    );
    assert_eq!(
        Const::KakaoRestApiKey.value("API_DATA_SYNC"),
        "API_DATA_SYNC_KAKAO_REST_API_KEY"
    );
    assert_eq!(Const::DbUrl.value("X"), "X_EGOMOGO_DATABASE_URL");
}
