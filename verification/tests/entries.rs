use picleo::config::Config;
use picleo::requested_items::RequestedItems;
use picleo::selectable::entry_text;
use picleo::selectable::SelectableItem;
use picleo::selected_items::SelectedItems;

#[test]
fn existing_entry_holds_its_value() {
    let mut item = SelectableItem::new(7u32);
    assert!(item.is_existing());
    assert!(!item.is_requested());
    assert_eq!(item.value(), Some(&7));
    assert_eq!(item.requested_value(), None);
    assert!(!item.is_selected());
    if let Some(value) = item.value_mut() {
        *value = 9;
    }
    assert_eq!(item.value(), Some(&9));
    assert_eq!(item.text(), "9");
    assert_eq!(item.into_inner(), Some(9));
}

#[test]
fn requested_entry_holds_its_text() {
    let mut item: SelectableItem<u32> = SelectableItem::new_requested("foo/bar".to_string());
    assert!(item.is_requested());
    assert!(!item.is_existing());
    assert_eq!(item.value(), None);
    assert!(item.value_mut().is_none());
    assert_eq!(item.requested_value(), Some(&"foo/bar".to_string()));
    assert!(!item.is_selected());
    assert_eq!(item.text(), "foo/bar");
    assert_eq!(item.into_inner(), None);
}

#[test]
fn constructors_set_the_flag() {
    assert!(!SelectableItem::new("a").is_selected());
    assert!(SelectableItem::new_selected("a").is_selected());
    assert!(!SelectableItem::<u8>::new_requested("a".to_string()).is_selected());
    assert!(SelectableItem::<u8>::new_requested_selected("a".to_string()).is_selected());
}

#[test]
fn flag_is_set_and_flipped_through_a_shared_reference() {
    let item = SelectableItem::new("a");
    let shared = &item;
    shared.set_selected(true);
    assert!(item.is_selected());
    shared.set_selected(true);
    assert!(item.is_selected());
    shared.toggle_selected();
    assert!(!item.is_selected());
    shared.toggle_selected();
    assert!(item.is_selected());
    shared.set_selected(false);
    assert!(!item.is_selected());
    let requested: SelectableItem<u8> = SelectableItem::new_requested("r".to_string());
    requested.toggle_selected();
    assert!(requested.is_selected());
    requested.set_selected(false);
    assert!(!requested.is_selected());
}

#[test]
fn requested_items_keep_their_order() {
    let mut items: RequestedItems<u32> = RequestedItems::new();
    assert!(items.is_empty());
    assert_eq!(items.len(), 0);
    items.push(SelectableItem::new(1));
    items.push(SelectableItem::new_requested("two".to_string()));
    items.push(SelectableItem::new(3));
    assert!(!items.is_empty());
    assert_eq!(items.len(), 3);
    let texts: Vec<String> = items.iter().map(|item| item.text()).collect();
    assert_eq!(texts, vec!["1", "two", "3"]);
    assert_eq!(items.as_vec().len(), 3);
    assert_eq!(items.get(1).map(|item| item.text()), Some("two".to_string()));
    assert!(items.get(3).is_none());
    assert_eq!(items[0].text(), "1");
    assert_eq!(items[2].value(), Some(&3));
    items.extend(vec![SelectableItem::new(4), SelectableItem::new(5)]);
    assert_eq!(items.len(), 5);
    assert_eq!(items[4].value(), Some(&5));
    for item in items.iter_mut() {
        if let Some(value) = item.value_mut() {
            *value += 10;
        }
    }
    assert_eq!(items[4].value(), Some(&15));
    items.as_vec_mut().truncate(3);
    items.as_vec_mut().remove(0);
    assert_eq!(items.len(), 2);
    assert_eq!(items.get(0).map(|item| item.text()), Some("two".to_string()));
    items.clear();
    assert!(items.is_empty());
}

#[test]
fn requested_items_from_a_vector() {
    let items = RequestedItems::from_vec(vec![SelectableItem::new("a"), SelectableItem::new("b")]);
    assert_eq!(items.len(), 2);
    assert_eq!(items.get(0).and_then(|item| item.value()), Some(&"a"));
    let empty: RequestedItems<u8> = RequestedItems::default();
    assert!(empty.is_empty());
}

#[test]
fn selected_items_split_by_kind() {
    let a = SelectableItem::new("a".to_string());
    let r = SelectableItem::new_requested("r".to_string());
    let b = SelectableItem::new("b".to_string());
    let s = SelectableItem::new_requested("s".to_string());
    let selected = SelectedItems::from_refs(vec![&a, &r, &b, &s]);
    assert_eq!(selected.len(), 4);
    assert_eq!(selected.existing_values(), vec![&"a".to_string(), &"b".to_string()]);
    assert_eq!(selected.requested_values(), vec!["r", "s"]);
    let none: SelectedItems<String> = SelectedItems::from_refs(Vec::new());
    assert!(none.is_empty());
    assert!(none.existing_values().is_empty());
    assert!(none.requested_values().is_empty());
}

#[test]
fn selection_is_the_flagged_entries_or_the_highlighted_one() {
    let a = SelectableItem::new("a");
    let b = SelectableItem::new("b");
    let c = SelectableItem::new("c");
    let chosen = SelectedItems::choose_from(vec![&a, &b, &c], &vec![true, false, true], 1);
    assert_eq!(chosen.existing_values(), vec![&"a", &"c"]);
    let chosen = SelectedItems::choose_from(vec![&a, &b, &c], &vec![false, false, false], 1);
    assert_eq!(chosen.existing_values(), vec![&"b"]);
    let chosen = SelectedItems::choose_from(vec![&a, &b, &c], &vec![false, false, false], 3);
    assert!(chosen.is_empty());
    let chosen: SelectedItems<&str> = SelectedItems::choose_from(Vec::new(), &Vec::new(), 0);
    assert!(chosen.is_empty());
    let chosen = SelectedItems::choose_from(vec![&a], &vec![true], 5);
    assert_eq!(chosen.existing_values(), vec![&"a"]);
}

#[test]
fn default_configuration() {
    let config = Config::default();
    assert_eq!(config.height(), None);
    assert!(config.mouse_enabled());
    assert!(config.wrap_around());
    assert!(!config.invert_scroll());
    assert_eq!(config.case_matching.as_deref(), Some("smart"));
    assert_eq!(config.normalization.as_deref(), Some("smart"));
}

#[test]
fn configuration_falls_back_where_nothing_is_set() {
    let config = Config {
        height: Some(12),
        mouse_enabled: None,
        case_matching: None,
        normalization: None,
        wrap_around: None,
        invert_scroll: None,
    };
    assert_eq!(config.height(), Some(12));
    assert!(config.mouse_enabled());
    assert!(config.wrap_around());
    assert!(!config.invert_scroll());
    let config = Config {
        height: None,
        mouse_enabled: Some(false),
        case_matching: None,
        normalization: None,
        wrap_around: Some(false),
        invert_scroll: Some(true),
    };
    assert!(!config.mouse_enabled());
    assert!(!config.wrap_around());
    assert!(config.invert_scroll());
}

#[test]
fn text_of_what_the_pool_returned() {
    let existing = SelectableItem::new(42u8);
    let requested: SelectableItem<u8> = SelectableItem::new_requested("foo/bar".to_string());
    assert_eq!(entry_text(Some(&existing)), "42");
    assert_eq!(entry_text(Some(&requested)), "foo/bar");
    assert_eq!(entry_text::<u8>(None), "");
}
