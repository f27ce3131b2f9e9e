use arch_bento::shop::{add_shop, contains_shop, remove_shop, shop_list_text, Shop};

fn shop(name: &str, url: &str) -> Shop {
    Shop::new(name.to_string(), url.to_string())
}

#[test]
fn add_shop_appends_new_shop() {
    let mut shops = vec![shop("A", "a.example")];
    add_shop(&mut shops, shop("B", "b.example"));
    assert_eq!(shops, vec![shop("A", "a.example"), shop("B", "b.example")]);
}

#[test]
fn add_shop_ignores_equal_shop() {
    let mut shops = vec![shop("A", "a.example"), shop("B", "b.example")];
    add_shop(&mut shops, shop("A", "a.example"));
    assert_eq!(shops.len(), 2);
    add_shop(&mut shops, shop("A", "a.example"));
    assert_eq!(shops, vec![shop("A", "a.example"), shop("B", "b.example")]);
}

#[test]
fn add_shop_same_name_other_link_is_a_new_shop() {
    let mut shops = vec![shop("A", "a.example")];
    add_shop(&mut shops, shop("A", "other.example"));
    assert_eq!(shops, vec![shop("A", "a.example"), shop("A", "other.example")]);
}

#[test]
fn contains_shop_compares_name_and_link() {
    let shops = vec![shop("A", "a.example")];
    assert!(contains_shop(&shops, &shop("A", "a.example")));
    assert!(!contains_shop(&shops, &shop("A", "b.example")));
    assert!(!contains_shop(&Vec::new(), &shop("A", "a.example")));
}

#[test]
fn remove_shop_removes_first_with_name() {
    let mut shops = vec![shop("A", "1"), shop("B", "2"), shop("A", "3")];
    remove_shop(&mut shops, &"A".to_string());
    assert_eq!(shops, vec![shop("B", "2"), shop("A", "3")]);
}

#[test]
fn remove_shop_absent_name_keeps_list() {
    let mut shops = vec![shop("A", "1"), shop("B", "2")];
    remove_shop(&mut shops, &"C".to_string());
    assert_eq!(shops, vec![shop("A", "1"), shop("B", "2")]);
    let mut empty: Vec<Shop> = Vec::new();
    remove_shop(&mut empty, &"A".to_string());
    assert!(empty.is_empty());
}

#[test]
fn remove_after_add_of_new_name_restores_list() {
    let original = vec![shop("A", "1"), shop("B", "2")];
    let mut shops = original.clone();
    add_shop(&mut shops, shop("C", "3"));
    remove_shop(&mut shops, &"C".to_string());
    assert_eq!(shops, original);
}

#[test]
fn add_twice_same_as_once() {
    let mut once = vec![shop("A", "1")];
    add_shop(&mut once, shop("B", "2"));
    let mut twice = vec![shop("A", "1")];
    add_shop(&mut twice, shop("B", "2"));
    add_shop(&mut twice, shop("B", "2"));
    assert_eq!(once, twice);
}

#[test]
fn listing_has_one_line_per_shop() {
    let shops = vec![shop("弁当屋", "1"), shop("Curry", "2")];
    assert_eq!(shop_list_text(&shops), "- 弁当屋\n- Curry\n");
    assert_eq!(shop_list_text(&Vec::new()), "");
}

#[test]
fn listing_after_add_ends_with_new_line() {
    let mut shops = vec![shop("A", "1")];
    let before = shop_list_text(&shops);
    add_shop(&mut shops, shop("B", "2"));
    assert_eq!(shop_list_text(&shops), format!("{}- B\n", before));
}

#[test]
fn duplicate_and_same_as() {
    let a = shop("A", "1");
    let b = a.duplicate();
    assert!(a.same_as(&b));
    assert!(!a.same_as(&shop("A", "2")));
    assert!(!a.same_as(&shop("B", "1")));
}
