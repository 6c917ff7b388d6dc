use api_data_sync::{get_categories_from, get_category_from, CategoryType};

#[test]
fn test_get_categories_from() {
    let result: Vec<String> = get_categories_from(
        "음식점 > 카페 > 커피전문점 > 커피사피엔스".to_string(),
        "some",
    )
    .into_iter()
    .map(|c| c.categories)
    .collect();
    assert_eq!(result, vec!["CAFE_DESSERT".to_string()]);

    let result: Vec<_> = get_categories_from("음식점 > 양식 > 피자 > 피자스쿨".to_string(), "some")
        .into_iter()
        .map(|c| c.categories)
        .collect();
    assert_eq!(result, vec!["WESTERN_FOOD".to_string(), "PIZZA".to_string()]);
}

#[test]
fn test_static_map() {
    let c = CategoryType::from("떡,한과");
    assert_eq!(c, CategoryType::RICE_CAKE);
}

#[test]
fn test_named_enum() {
    let name = CategoryType::ALCOHOL.name();
    assert_eq!(name, "ALCOHOL");
}

#[test]
fn unknown_segment_maps_to_undefined() {
    assert_eq!(CategoryType::from("없는카테고리"), CategoryType::UNDEFINED);
    assert_eq!(CategoryType::from(""), CategoryType::UNDEFINED);
}

#[test]
fn category_row_trims_segment() {
    let row = get_category_from("  피자\t", "rid-7");
    assert_eq!(row.restaurant_id, "rid-7");
    assert_eq!(row.categories, "PIZZA");
}

#[test]
fn category_row_trims_unicode_whitespace() {
    let row = get_category_from("\u{A0}피자\u{3000}", "r");
    assert_eq!(row.categories, "PIZZA");
}

#[test]
fn duplicate_segments_collapse() {
    let rows: Vec<String> = get_categories_from("카페 > 간식 > 카페".to_string(), "r")
        .into_iter()
        .map(|c| c.categories)
        .collect();
    assert_eq!(rows, vec!["CAFE_DESSERT".to_string()]);
}

#[test]
fn undefined_only_label_yields_no_rows() {
    let rows = get_categories_from("음식점".to_string(), "r");
    assert!(rows.is_empty());
}
