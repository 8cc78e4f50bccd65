use menu_core::ListBoxState;
use menu_core::ListItem;
use menu_core::NavKey;

fn three_names() -> Vec<String> {
    vec![
        String::from("alpha"),
        String::from("beta"),
        String::from("gamma"),
    ]
}

#[test]
fn new_assigns_ids_and_texts_in_order() {
    let st = ListBoxState::new(three_names(), true);
    assert_eq!(st.items.len(), 3);
    for (i, item) in st.items.iter().enumerate() {
        assert_eq!(item.id, i);
    }
    assert_eq!(st.items[0].text, "alpha");
    assert_eq!(st.items[1].text, "beta");
    assert_eq!(st.items[2].text, "gamma");
    assert_eq!(st.selected, 0);
    assert!(st.wrap);
}

#[test]
fn list_item_new_keeps_fields() {
    let item = ListItem::new(7, String::from("label"));
    assert_eq!(item.id, 7);
    assert_eq!(item.text, "label");
}

#[test]
fn default_state_is_empty_with_wraparound() {
    let st = ListBoxState::default();
    assert!(st.items.is_empty());
    assert_eq!(st.selected, 0);
    assert!(st.wrap);
}

#[test]
fn n_downs_return_to_start_with_wraparound() {
    let mut st = ListBoxState::new(three_names(), true);
    assert_eq!(st.on_key(NavKey::Down), None);
    assert_eq!(st.selected, 1);
    assert_eq!(st.on_key(NavKey::Down), None);
    assert_eq!(st.selected, 2);
    assert_eq!(st.on_key(NavKey::Down), None);
    assert_eq!(st.selected, 0);
}

#[test]
fn n_ups_return_to_start_with_wraparound() {
    let mut st = ListBoxState::new(three_names(), true);
    assert_eq!(st.on_key(NavKey::Up), None);
    assert_eq!(st.selected, 2);
    assert_eq!(st.on_key(NavKey::Up), None);
    assert_eq!(st.selected, 1);
    assert_eq!(st.on_key(NavKey::Up), None);
    assert_eq!(st.selected, 0);
}

#[test]
fn down_on_last_wraps_to_first() {
    let mut st = ListBoxState::new(three_names(), true);
    st.on_key(NavKey::Down);
    st.on_key(NavKey::Down);
    assert_eq!(st.selected, 2);
    assert_eq!(st.on_key(NavKey::Down), None);
    assert_eq!(st.selected, 0);
}

#[test]
fn without_wraparound_the_cursor_clamps() {
    let mut st = ListBoxState::new(three_names(), false);
    assert_eq!(st.on_key(NavKey::Up), None);
    assert_eq!(st.selected, 0);
    st.on_key(NavKey::Down);
    st.on_key(NavKey::Down);
    assert_eq!(st.selected, 2);
    assert_eq!(st.on_key(NavKey::Down), None);
    assert_eq!(st.selected, 2);
}

#[test]
fn empty_list_ignores_every_key() {
    let mut st = ListBoxState::new(Vec::new(), true);
    assert_eq!(st.on_key(NavKey::Down), None);
    assert_eq!(st.on_key(NavKey::Up), None);
    assert_eq!(st.on_key(NavKey::Confirm), None);
    assert_eq!(st.on_key(NavKey::Other), None);
    assert_eq!(st.selected, 0);
    assert!(st.items.is_empty());
    assert!(st.wrap);
}

#[test]
fn confirm_returns_the_selected_text_and_keeps_state() {
    let mut st = ListBoxState::new(three_names(), true);
    st.on_key(NavKey::Down);
    let payload = st.on_key(NavKey::Confirm);
    assert_eq!(payload, Some(String::from("beta")));
    assert_eq!(st.selected, 1);
    assert_eq!(st.items.len(), 3);
}

#[test]
fn other_keys_are_ignored() {
    let mut st = ListBoxState::new(three_names(), true);
    st.on_key(NavKey::Down);
    assert_eq!(st.on_key(NavKey::Other), None);
    assert_eq!(st.selected, 1);
}
