use itemdoc::booleans::ItemBoolean;
use itemdoc::escape::{make_escaped_string, make_quoted_escaped_string, make_quoted_string};
use itemdoc::hashes::ItemHash;
use itemdoc::items::{equal_items, ContainerKey, ItemError, ItemType};
use itemdoc::lists::ItemList;
use itemdoc::numbers::ItemNumber;
use itemdoc::nulls::ItemNull;
use itemdoc::strings::ItemString;

#[test]
fn scalar_constructors_render() {
    assert_eq!(ItemNull::new().to_string(), "null");
    assert_eq!(ItemBoolean::new(Some(false)).to_string(), "false");
    assert_eq!(ItemBoolean::new(None).to_string(), "false");
    assert_eq!(ItemNumber::new(None).to_string(), "0");
    assert_eq!(ItemString::new(Some("raw text".to_string())).to_string(), "raw text");
    assert_eq!(ItemString::new(None).to_string(), "");
}

#[test]
fn kind_queries_dispatch() {
    let list = ItemList::new();
    assert!(list.is_list());
    assert!(list.is_container());
    assert!(!list.is_hash());
    let hash = ItemHash::new();
    assert!(hash.is_hash());
    assert!(hash.is_container());
    let n = ItemNumber::new(Some("7".to_string()));
    assert!(n.is_number());
    assert!(!n.is_container());
    assert!(ItemNull::new().is_null());
    assert!(ItemBoolean::new(Some(true)).is_booleam());
    assert!(ItemString::new(None).is_string());
}

#[test]
fn count_tracks_adds_and_removes() {
    let mut list = ItemList::new();
    assert_eq!(list.count(), 0);
    list.add_null(None).unwrap();
    list.add_boolean(Some(true), None).unwrap();
    list.add_number(Some("1".to_string()), None).unwrap();
    assert_eq!(list.count(), 3);
    let removed = list.remove_item(ContainerKey::Idx(1)).unwrap();
    assert!(matches!(removed, Some(ItemType::TBoolean(_))));
    assert_eq!(list.count(), 2);
    let missing = list.remove_item(ContainerKey::Idx(9)).unwrap();
    assert!(missing.is_none());
    assert_eq!(list.count(), 2);
    assert_eq!(list.to_string(), "[null,1]");
}

#[test]
fn hash_has_key_after_add_and_remove() {
    let mut hash = ItemHash::new();
    hash.add_number(Some("42".to_string()), Some("n".to_string())).unwrap();
    assert!(hash.has_key(&ContainerKey::Key("n".to_string())));
    let removed = hash.remove_item(ContainerKey::Key("n".to_string())).unwrap();
    assert!(matches!(removed, Some(ItemType::TNumber(_))));
    assert!(!hash.has_key(&ContainerKey::Key("n".to_string())));
    assert_eq!(hash.count(), 0);
    let missing = hash.remove_item(ContainerKey::Key("n".to_string())).unwrap();
    assert!(missing.is_none());
}

#[test]
fn hash_insert_overwrites_and_keeps_position() {
    let mut hash = ItemHash::new();
    hash.add_number(Some("1".to_string()), Some("a".to_string())).unwrap();
    hash.add_number(Some("2".to_string()), Some("b".to_string())).unwrap();
    hash.add_number(Some("9".to_string()), Some("a".to_string())).unwrap();
    assert_eq!(hash.count(), 2);
    assert_eq!(hash.to_string(), "{\"a\":9,\"b\":2}");
}

#[test]
fn remove_with_wrong_addressing_mode_fails_and_keeps_tree() {
    let mut list = ItemList::new();
    list.add_null(None).unwrap();
    let r = list.remove_item(ContainerKey::Key("x".to_string()));
    assert!(matches!(r, Err(ItemError::NotAnItemHash)));
    assert_eq!(list.to_string(), "[null]");

    let mut hash = ItemHash::new();
    hash.add_null(Some("k".to_string())).unwrap();
    let r = hash.remove_item(ContainerKey::Idx(0));
    assert!(matches!(r, Err(ItemError::NotAnItemList)));
    assert_eq!(hash.to_string(), "{\"k\":null}");
}

#[test]
fn scalars_reject_container_operations() {
    let mut null = ItemNull::new();
    assert!(matches!(null.add_null(None), Err(ItemError::NotAnItemContainer)));
    assert!(matches!(null.add_list(None), Err(ItemError::NotAnItemContainer)));
    assert!(matches!(
        null.remove_item(ContainerKey::Idx(0)),
        Err(ItemError::NotAnItemContainer)
    ));
    assert!(matches!(
        null.get_item(&ContainerKey::Idx(0)),
        Err(ItemError::NotAnItemContainer)
    ));
    assert_eq!(null.count(), 0);
    assert!(!null.has_key(&ContainerKey::Idx(0)));
}

#[test]
fn addressing_mode_mismatch_on_lookups() {
    let mut list = ItemList::new();
    list.add_null(None).unwrap();
    assert!(matches!(
        list.get_item(&ContainerKey::Key("x".to_string())),
        Err(ItemError::NotAnItemHash)
    ));
    let mut hash = ItemHash::new();
    hash.add_null(Some("k".to_string())).unwrap();
    assert!(matches!(
        hash.get_item(&ContainerKey::Idx(0)),
        Err(ItemError::NotAnItemList)
    ));
    assert!(matches!(hash.index_of_item(&ItemNull::new()), Err(ItemError::NotAnItemList)));
    assert!(matches!(list.key_of_item(&ItemNull::new()), Err(ItemError::NotAnItemHash)));
}

#[test]
fn structural_equality_of_lists_respects_order() {
    let mut a = ItemList::new();
    a.add_number(Some("1".to_string()), None).unwrap();
    a.add_number(Some("2".to_string()), None).unwrap();
    let mut b = ItemList::new();
    b.add_number(Some("1".to_string()), None).unwrap();
    b.add_number(Some("2".to_string()), None).unwrap();
    let mut c = ItemList::new();
    c.add_number(Some("2".to_string()), None).unwrap();
    c.add_number(Some("1".to_string()), None).unwrap();
    assert!(equal_items(&a, &b));
    assert!(equal_items(&a, &a));
    assert!(!equal_items(&a, &c));
}

#[test]
fn structural_equality_of_hashes_ignores_insertion_order() {
    let mut a = ItemHash::new();
    a.add_number(Some("1".to_string()), Some("x".to_string())).unwrap();
    a.add_number(Some("2".to_string()), Some("y".to_string())).unwrap();
    let mut b = ItemHash::new();
    b.add_number(Some("2".to_string()), Some("y".to_string())).unwrap();
    b.add_number(Some("1".to_string()), Some("x".to_string())).unwrap();
    assert!(equal_items(&a, &b));
    assert!(equal_items(&b, &a));
    let mut c = ItemHash::new();
    c.add_number(Some("1".to_string()), Some("x".to_string())).unwrap();
    assert!(!equal_items(&a, &c));
}

#[test]
fn equality_distinguishes_kinds_and_payloads() {
    assert!(!equal_items(&ItemNull::new(), &ItemBoolean::new(Some(false))));
    assert!(!equal_items(
        &ItemNumber::new(Some("1".to_string())),
        &ItemNumber::new(Some("2".to_string()))
    ));
    assert!(equal_items(
        &ItemString::new(Some("s".to_string())),
        &ItemString::new(Some("s".to_string()))
    ));
    assert!(!equal_items(&ItemList::new(), &ItemHash::new()));
}

#[test]
fn reverse_lookups_find_first_match() {
    let mut list = ItemList::new();
    list.add_number(Some("5".to_string()), None).unwrap();
    list.add_null(None).unwrap();
    list.add_number(Some("5".to_string()), None).unwrap();
    let five = ItemNumber::new(Some("5".to_string()));
    assert!(list.has_item(&five));
    assert_eq!(list.index_of_item(&five).unwrap(), Some(0));
    assert!(matches!(list.get_key(&five).unwrap(), Some(ContainerKey::Idx(0))));
    let seven = ItemNumber::new(Some("7".to_string()));
    assert!(!list.has_item(&seven));
    assert_eq!(list.index_of_item(&seven).unwrap(), None);

    let mut hash = ItemHash::new();
    hash.add_number(Some("5".to_string()), Some("k".to_string())).unwrap();
    assert!(hash.has_item(&five));
    assert_eq!(hash.key_of_item(&five).unwrap(), Some("k".to_string()));
    assert!(matches!(hash.get_key(&five).unwrap(), Some(ContainerKey::Key(_))));
    assert_eq!(hash.key_of_item(&seven).unwrap(), None);
}

#[test]
fn key_enumeration_in_order() {
    let mut list = ItemList::new();
    list.add_null(None).unwrap();
    list.add_null(None).unwrap();
    let keys = list.get_keys().unwrap();
    assert_eq!(keys.len(), 2);
    assert!(matches!(keys[0], ContainerKey::Idx(0)));
    assert!(matches!(keys[1], ContainerKey::Idx(1)));
    let indices = list.get_indices().unwrap();
    assert_eq!(indices, vec![0, 1]);
    assert!(list.has_index(1));
    assert!(!list.has_index(2));

    let mut hash = ItemHash::new();
    hash.add_null(Some("a".to_string())).unwrap();
    hash.add_null(Some("b".to_string())).unwrap();
    let keys = hash.get_keys().unwrap();
    assert_eq!(keys.len(), 2);
    assert!(matches!(&keys[0], ContainerKey::Key(k) if k == "a"));
    assert!(matches!(&keys[1], ContainerKey::Key(k) if k == "b"));
    assert!(hash.get_indices().is_none());
    assert!(!hash.has_index(0));
}

#[test]
fn item_lookup_by_index_and_key() {
    let mut list = ItemList::new();
    list.add_boolean(Some(true), None).unwrap();
    assert!(matches!(list.item_by_index(0).unwrap(), Some(ItemType::TBoolean(_))));
    assert!(list.item_by_index(5).unwrap().is_none());
    assert!(matches!(list.item_by_key("k"), Err(ItemError::NotAnItemHash)));

    let mut hash = ItemHash::new();
    hash.add_boolean(Some(true), Some("k".to_string())).unwrap();
    assert!(matches!(hash.item_by_key("k").unwrap(), Some(ItemType::TBoolean(_))));
    assert!(hash.item_by_key("missing").unwrap().is_none());
    assert!(matches!(hash.item_by_index(0), Err(ItemError::NotAnItemList)));
}

#[test]
fn escaping_covers_every_class() {
    let input = "plain \"q\" \\b\\ \n \r \t \u{8} \u{c} \u{1f} ü".to_string();
    let escaped = make_escaped_string(&input);
    assert_eq!(
        escaped,
        "plain \\\"q\\\" \\\\b\\\\ \\n \\r \\t \\b \\f \\u001f ü"
    );
    let quoted = make_quoted_string(&"ke\"y".to_string());
    assert_eq!(quoted, "\"ke\"y\"");
    let both = make_quoted_escaped_string(&"a\u{2}".to_string());
    assert_eq!(both, "\"a\\u0002\"");
}

#[test]
fn error_messages() {
    assert_eq!(ItemError::NotAnItemList.message(), "Not an item list!");
    assert_eq!(ItemError::NotAnItemHash.message(), "Not an item hash!");
    assert_eq!(ItemError::NotAnItemContainer.message(), "Not an item container!");
    assert_eq!(ItemError::ItemAdditionFailed.message(), "Item addition failure!");
    assert_eq!(ItemError::ItemNotFound.message(), "Item not found!");
}

#[test]
fn nested_tree_rendering() {
    let mut root = ItemHash::new();
    root.add_list(Some("xs".to_string())).unwrap();
    match root.get_item(&ContainerKey::Key("xs".to_string())) {
        Ok(Some(ItemType::TList(_))) => {},
        _ => panic!("expected a list under the key"),
    }
    let mut inner = ItemList::new();
    inner.add_number(Some("1".to_string()), None).unwrap();
    let mut outer = ItemList::new();
    match &mut outer {
        ItemType::TList(l) => {
            l.add_item(inner, None).unwrap();
        },
        _ => unreachable!(),
    }
    assert_eq!(outer.to_string(), "[[1]]");
}

#[test]
fn last_mut_hands_out_the_tail_element() {
    let mut list = ItemList::new();
    match &mut list {
        ItemType::TList(l) => {
            assert!(l.last_mut().is_none());
            l.add_boolean(Some(true), None).unwrap();
            l.add_null(None).unwrap();
            assert!(matches!(l.last_mut(), Some(ItemType::TNull(_))));
        },
        _ => unreachable!(),
    }
    assert_eq!(list.to_string(), "[true,null]");
}

#[test]
fn add_sums_small_numbers() {
    assert_eq!(itemdoc::add(2, 40), 42);
}

#[test]
fn hash_last_mut_hands_out_the_value_under_a_key() {
    let mut hash = ItemHash::new();
    match &mut hash {
        ItemType::THash(h) => {
            assert!(h.last_mut(&"xs".to_string()).is_none());
            h.add_list(Some("xs".to_string())).unwrap();
            match h.last_mut(&"xs".to_string()) {
                Some(ItemType::TList(inner)) => {
                    inner.add_number(Some("1".to_string()), None).unwrap();
                    inner.add_number(Some("2".to_string()), None).unwrap();
                },
                _ => panic!("expected a list handle under the key"),
            }
        },
        _ => unreachable!(),
    }
    assert_eq!(hash.to_string(), "{\"xs\":[1,2]}");
}

#[test]
fn add_list_returns_a_building_handle() {
    let mut root = ItemHash::new();
    {
        let inner = root.add_list(Some("xs".to_string())).unwrap();
        inner.add_number(Some("1".to_string()), None).unwrap();
        inner.add_number(Some("2".to_string()), None).unwrap();
    }
    assert_eq!(root.to_string(), "{\"xs\":[1,2]}");

    let mut list = ItemList::new();
    {
        let inner = list.add_hash(None).unwrap();
        inner.add_boolean(Some(true), Some("ok".to_string())).unwrap();
    }
    assert_eq!(list.to_string(), "[{\"ok\":true}]");

    let mut replaced = ItemHash::new();
    replaced.add_null(Some("xs".to_string())).unwrap();
    replaced.add_list(Some("xs".to_string())).unwrap();
    assert_eq!(replaced.to_string(), "{\"xs\":[]}");
}
