use stream_relay::catalog::{build_category_tree, categories_from_listing, CategoryData, CategoryError, RawCate1, RawCate2};

fn c1(id: i32, name: &str) -> RawCate1 {
    RawCate1 { id, name: name.to_string() }
}

fn c2(parent_id: i32, id: i32, name: &str) -> RawCate2 {
    RawCate2 {
        parent_id,
        id,
        name: name.to_string(),
        short_name: format!("s{}", id),
        icon: format!("https://icon.test/{}.png", id),
    }
}

#[test]
fn tree_groups_children_under_parents() {
    let firsts = vec![c1(1, "Games"), c1(2, "Music"), c1(3, "Empty")];
    let seconds = vec![c2(1, 10, "RPG"), c2(2, 20, "Live"), c2(1, 11, "FPS"), c2(9, 90, "Orphan")];
    let t = build_category_tree(&firsts, &seconds);
    assert_eq!(t.cate1_list.len(), 3);
    assert_eq!(t.cate1_list[0].id, "1");
    assert_eq!(t.cate1_list[0].name, "Games");
    let games: Vec<(&str, &str)> = t.cate1_list[0].cate2_list.iter().map(|c| (c.id.as_str(), c.name.as_str())).collect();
    assert_eq!(games, vec![("10", "RPG"), ("11", "FPS")]);
    assert_eq!(t.cate1_list[0].cate2_list[1].short_name, "s11");
    assert_eq!(t.cate1_list[0].cate2_list[1].icon, "https://icon.test/11.png");
    assert!(t.cate1_list[0].cate2_list[1].cate3_list.is_empty());
    assert_eq!(t.cate1_list[1].cate2_list.len(), 1);
    assert_eq!(t.cate1_list[1].cate2_list[0].id, "20");
    assert!(t.cate1_list[2].cate2_list.is_empty());
}

#[test]
fn negative_ids_are_written_with_sign() {
    let t = build_category_tree(&vec![c1(-5, "Neg")], &vec![c2(-5, -7, "Child")]);
    assert_eq!(t.cate1_list[0].id, "-5");
    assert_eq!(t.cate1_list[0].cate2_list[0].id, "-7");
}

#[test]
fn listing_errors() {
    assert!(matches!(categories_from_listing(3, None), Err(CategoryError::Api(3))));
    let data = CategoryData { cate1_info: Some(vec![c1(1, "A")]), cate2_info: None };
    assert!(matches!(categories_from_listing(-1, Some(data)), Err(CategoryError::Api(-1))));
    assert!(matches!(categories_from_listing(0, None), Err(CategoryError::MissingData(0))));
}

#[test]
fn listing_with_missing_lists() {
    let t = categories_from_listing(0, Some(CategoryData { cate1_info: None, cate2_info: Some(vec![c2(1, 2, "x")]) })).unwrap();
    assert!(t.cate1_list.is_empty());
    let t = categories_from_listing(0, Some(CategoryData { cate1_info: Some(vec![c1(1, "A")]), cate2_info: None })).unwrap();
    assert_eq!(t.cate1_list.len(), 1);
    assert!(t.cate1_list[0].cate2_list.is_empty());
}
