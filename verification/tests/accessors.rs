//! Behaviour of the accessor layer: defaults while the table is absent,
//! first-wins publication, and exact pass-through once a table is present.

use arctic::gateway::Gateway;
use arctic::host::CallbackToken;
use arctic::host::ModuleHandle;
use arctic::host::ProcessHandle;
use arctic::model_host::ModelHost;

#[test]
fn uninitialized_queries_answer_defaults() {
    let gateway: Gateway<ModelHost> = Gateway::new();
    assert_eq!(gateway.get_thread_key("any".to_owned()), false);
    assert_eq!(gateway.get_i32_slider_value("x".to_owned()), 0);
    assert_eq!(gateway.get_f32_slider_value("y".to_owned()), 0);
    assert_eq!(f32::from_bits(gateway.get_f32_slider_value("y".to_owned())), 0.0);
    assert_eq!(gateway.dynamic_get_delta_time(), 0);
    assert_eq!(f32::from_bits(gateway.dynamic_get_delta_time()), 0.0);
    assert_eq!(gateway.memory_read_string(0x1000), String::new());
    assert_eq!(
        gateway.sellix_is_paying_for_product("prod".to_owned(), "token".to_owned()),
        false
    );
    assert_eq!(gateway.config_has_serial("serial".to_owned()), false);
    assert!(gateway.table().is_none());
}

#[test]
fn uninitialized_acting_calls_do_nothing() {
    let mut gateway: Gateway<ModelHost> = Gateway::new();
    gateway.dynamic_log("dropped");
    gateway.pxscript_execute("code".to_owned(), true, false);
    gateway.rune_vm_execute("rune".to_owned());
    gateway.ui_add_window("w".to_owned());
    gateway.ui_focus_window("w".to_owned());
    gateway.ui_add_label("l".to_owned(), "text".to_owned(), 0);
    gateway.ui_add_button("b".to_owned(), "text".to_owned(), "src".to_owned(), None);
    gateway.ui_add_separator("s".to_owned());
    gateway.ui_add_spacing("sp".to_owned(), 1.0f32.to_bits(), 2.0f32.to_bits());
    gateway.create_thread_key("k".to_owned());
    gateway.set_thread_key_value("k".to_owned(), true);
    gateway.ui_set_next_item_same_line("l".to_owned());
    gateway.ui_add_custom_font_label("c".to_owned(), "text".to_owned(), "font.ttf".to_owned());
    gateway.ui_remove_widget("l".to_owned());
    gateway.ui_remove_all_widgets();
    gateway.ui_add_i32_slider("i".to_owned(), "t".to_owned(), 0, 10, None);
    gateway.ui_add_f32_slider(
        "f".to_owned(),
        "t".to_owned(),
        0.0f32.to_bits(),
        1.0f32.to_bits(),
        None,
    );
    gateway.dynamic_eject_payload(ProcessHandle(1), ModuleHandle(2));

    // Even the key that was "set" above left no trace: there was no host.
    assert_eq!(gateway.get_thread_key("k".to_owned()), false);

    // A table published afterwards has seen none of those calls.
    gateway.initialize(ModelHost::new());
    let host = gateway.table().unwrap();
    assert_eq!(host.call_count(), 0);
    assert_eq!(host.ejection_count(), 0);
}

#[test]
fn initialize_is_first_wins() {
    let mut first = ModelHost::new();
    first.set_i32_slider("speed".to_owned(), 3);
    let mut second = ModelHost::new();
    second.set_i32_slider("speed".to_owned(), 99);

    let mut gateway: Gateway<ModelHost> = Gateway::new();
    gateway.initialize(first);
    gateway.initialize(second);

    assert_eq!(gateway.get_i32_slider_value("speed".to_owned()), 3);
}

#[test]
fn slider_value_defaults_then_forwards() {
    let gateway: Gateway<ModelHost> = Gateway::new();
    assert_eq!(gateway.get_i32_slider_value("x".to_owned()), 0);

    let mut host = ModelHost::new();
    host.set_i32_slider("x".to_owned(), 42);
    let mut gateway: Gateway<ModelHost> = Gateway::new();
    gateway.initialize(host);
    assert_eq!(gateway.get_i32_slider_value("x".to_owned()), 42);
}

#[test]
fn acting_calls_reach_the_host_once_each() {
    let mut gateway: Gateway<ModelHost> = Gateway::new();
    gateway.initialize(ModelHost::new());

    gateway.dynamic_log("hello");
    assert_eq!(gateway.table().unwrap().call_count(), 1);
    gateway.pxscript_execute("code".to_owned(), false, true);
    gateway.rune_vm_execute("rune".to_owned());
    gateway.ui_add_window("w".to_owned());
    gateway.ui_focus_window("w".to_owned());
    gateway.ui_add_label("l".to_owned(), "text".to_owned(), 1);
    gateway.ui_add_button(
        "b".to_owned(),
        "text".to_owned(),
        "src".to_owned(),
        Some(CallbackToken(5)),
    );
    gateway.ui_add_separator("s".to_owned());
    gateway.ui_add_spacing("sp".to_owned(), 4.0f32.to_bits(), 8.0f32.to_bits());
    gateway.ui_set_next_item_same_line("l".to_owned());
    gateway.ui_add_custom_font_label("c".to_owned(), "text".to_owned(), "font.ttf".to_owned());
    gateway.ui_remove_widget("l".to_owned());
    gateway.ui_remove_all_widgets();
    gateway.ui_add_i32_slider("i".to_owned(), "t".to_owned(), -5, 5, Some("on_change".to_owned()));
    gateway.ui_add_f32_slider(
        "f".to_owned(),
        "t".to_owned(),
        0.5f32.to_bits(),
        2.5f32.to_bits(),
        None,
    );
    assert_eq!(gateway.table().unwrap().call_count(), 15);

    // Queries add nothing to the call log.
    let _ = gateway.get_thread_key("k".to_owned());
    let _ = gateway.get_i32_slider_value("i".to_owned());
    let _ = gateway.dynamic_get_delta_time();
    assert_eq!(gateway.table().unwrap().call_count(), 15);
}

#[test]
fn thread_keys_read_back_what_was_set() {
    let mut gateway: Gateway<ModelHost> = Gateway::new();
    gateway.initialize(ModelHost::new());

    assert_eq!(gateway.get_thread_key("quit".to_owned()), false);
    gateway.create_thread_key("quit".to_owned());
    assert_eq!(gateway.get_thread_key("quit".to_owned()), false);
    gateway.set_thread_key_value("quit".to_owned(), true);
    assert_eq!(gateway.get_thread_key("quit".to_owned()), true);
    gateway.set_thread_key_value("quit".to_owned(), false);
    assert_eq!(gateway.get_thread_key("quit".to_owned()), false);
    // Another key is untouched.
    assert_eq!(gateway.get_thread_key("other".to_owned()), false);
}

#[test]
fn queries_forward_preloaded_host_answers() {
    let mut host = ModelHost::new();
    host.set_delta_time_bits(0.016f32.to_bits());
    host.set_f32_slider_bits("zoom".to_owned(), 1.5f32.to_bits());
    host.set_memory_text(0x2000, "player".to_owned());
    host.add_entitlement("prod".to_owned(), "token".to_owned());
    host.add_serial("AAA-BBB".to_owned());

    let mut gateway: Gateway<ModelHost> = Gateway::new();
    gateway.initialize(host);

    assert_eq!(f32::from_bits(gateway.dynamic_get_delta_time()), 0.016);
    assert_eq!(f32::from_bits(gateway.get_f32_slider_value("zoom".to_owned())), 1.5);
    assert_eq!(gateway.get_f32_slider_value("other".to_owned()), 0);
    assert_eq!(gateway.memory_read_string(0x2000), "player".to_owned());
    assert_eq!(gateway.memory_read_string(0x3000), String::new());
    assert!(gateway.sellix_is_paying_for_product("prod".to_owned(), "token".to_owned()));
    assert!(!gateway.sellix_is_paying_for_product("prod".to_owned(), "wrong".to_owned()));
    assert!(!gateway.sellix_is_paying_for_product("other".to_owned(), "token".to_owned()));
    assert!(gateway.config_has_serial("AAA-BBB".to_owned()));
    assert!(!gateway.config_has_serial("AAA-CCC".to_owned()));
}

#[test]
fn only_the_eject_capability_ejects() {
    let mut gateway: Gateway<ModelHost> = Gateway::new();
    gateway.initialize(ModelHost::new());

    gateway.dynamic_log("line");
    gateway.ui_add_window("w".to_owned());
    gateway.create_thread_key("k".to_owned());
    gateway.set_thread_key_value("k".to_owned(), true);
    let _ = gateway.get_thread_key("k".to_owned());
    assert_eq!(gateway.table().unwrap().ejection_count(), 0);

    gateway.dynamic_eject_payload(ProcessHandle(7), ModuleHandle(8));
    let host = gateway.table().unwrap();
    assert_eq!(host.ejection_count(), 1);
    assert_eq!(host.ejection_at(0), (ProcessHandle(7), ModuleHandle(8)));
}
