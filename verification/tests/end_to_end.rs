use menu_core::dispatch;
use menu_core::test_function_1;
use menu_core::test_function_2;
use menu_core::DemoAction;
use menu_core::Handler;
use menu_core::ListBoxState;
use menu_core::NavKey;
use menu_core::Registry;

#[test]
fn test_functions_return_their_greetings() {
    assert_eq!(test_function_1(), "Hello folks!");
    assert_eq!(test_function_2(), "Hello folks from test 2!");
}

#[test]
fn demo_actions_invoke_the_test_functions() {
    assert_eq!(DemoAction::First.invoke(), "Hello folks!");
    assert_eq!(DemoAction::Second.invoke(), "Hello folks from test 2!");
}

#[test]
fn select_first_menu_entry_and_dispatch() {
    let mut reg: Registry<DemoAction> = Registry::new();
    reg.insert_into_registry(String::from("Test Function 1"), DemoAction::First);
    reg.insert_into_registry(String::from("Test Function 2"), DemoAction::Second);

    let names = reg.names();
    assert_eq!(names.len(), 2);
    let mut st = ListBoxState::new(names.clone(), true);
    assert_eq!(st.items.len(), 2);

    let payload = st.on_key(NavKey::Confirm).expect("a non-empty list answers confirm");
    assert_eq!(payload, names[0]);
    assert_eq!(payload, "Test Function 1");

    let result = dispatch(&reg, payload.as_str()).expect("the selected name is registered");
    assert_eq!(result, "Hello folks!");
}

#[test]
fn empty_registry_gives_an_inert_menu() {
    let reg: Registry<DemoAction> = Registry::new();
    let names = reg.names();
    assert!(names.is_empty());
    let mut st = ListBoxState::new(names, true);
    assert!(st.items.is_empty());
    assert_eq!(st.on_key(NavKey::Down), None);
    assert_eq!(st.on_key(NavKey::Up), None);
    assert_eq!(st.on_key(NavKey::Confirm), None);
    assert_eq!(st.on_key(NavKey::Other), None);
}
