//! Behaviour of the self-ejection protocol and of the entry point.

use arctic::arctic_gateway;
use arctic::eject::EjectWatcher;
use arctic::gateway::Gateway;
use arctic::host::ModuleHandle;
use arctic::host::ProcessHandle;
use arctic::model_host::ModelHost;

#[test]
fn auto_eject_fires_only_after_the_flag() {
    let mut gateway: Gateway<ModelHost> = Gateway::new();
    gateway.initialize(ModelHost::new());

    let process = ProcessHandle(11);
    let payload = ModuleHandle(22);
    let mut watcher =
        EjectWatcher::setup_auto_eject(&mut gateway, "done".to_owned(), process, payload);
    assert_eq!(gateway.get_thread_key("done".to_owned()), false);

    // While the flag stays false, polling does nothing and nothing ejects.
    for _ in 0..5 {
        assert!(!watcher.poll_step(&gateway));
    }
    assert_eq!(gateway.table().unwrap().ejection_count(), 0);

    // The flag fires; cleanup runs exactly once; then exactly one ejection
    // is requested, with the handles given at setup.
    gateway.set_thread_key_value("done".to_owned(), true);
    assert!(watcher.poll_step(&gateway));
    let mut cleanup_runs = 0;
    watcher.request_ejection(&mut gateway, || cleanup_runs += 1);
    assert_eq!(cleanup_runs, 1);
    let host = gateway.table().unwrap();
    assert_eq!(host.ejection_count(), 1);
    assert_eq!(host.ejection_at(0), (process, payload));
}

#[test]
fn watcher_on_uninitialized_gateway_waits_forever() {
    let mut gateway: Gateway<ModelHost> = Gateway::new();
    let mut watcher = EjectWatcher::setup_auto_eject(
        &mut gateway,
        "done".to_owned(),
        ProcessHandle(1),
        ModuleHandle(2),
    );
    for _ in 0..5 {
        assert!(!watcher.poll_step(&gateway));
    }
    assert!(gateway.table().is_none());
}

#[test]
fn setup_leaves_the_flag_false_even_if_it_was_true() {
    let mut gateway: Gateway<ModelHost> = Gateway::new();
    gateway.initialize(ModelHost::new());
    gateway.create_thread_key("done".to_owned());
    gateway.set_thread_key_value("done".to_owned(), true);

    let mut watcher = EjectWatcher::setup_auto_eject(
        &mut gateway,
        "done".to_owned(),
        ProcessHandle(1),
        ModuleHandle(2),
    );
    assert_eq!(gateway.get_thread_key("done".to_owned()), false);
    assert!(!watcher.poll_step(&gateway));
}

#[test]
fn entry_point_logs_then_ejects_with_the_given_handles() {
    let mut gateway: Gateway<ModelHost> = Gateway::new();
    let process = ProcessHandle(100);
    let payload = ModuleHandle(200);
    arctic_gateway(&mut gateway, process, payload, ModelHost::new());

    let host = gateway.table().unwrap();
    // One banner line logged, one ejection requested: two acting calls.
    assert_eq!(host.call_count(), 2);
    assert_eq!(host.ejection_count(), 1);
    assert_eq!(host.ejection_at(0), (process, payload));
}

#[test]
fn entry_point_keeps_the_first_table() {
    let mut first = ModelHost::new();
    first.set_i32_slider("x".to_owned(), 1);
    let mut second = ModelHost::new();
    second.set_i32_slider("x".to_owned(), 2);

    let mut gateway: Gateway<ModelHost> = Gateway::new();
    arctic_gateway(&mut gateway, ProcessHandle(1), ModuleHandle(2), first);
    arctic_gateway(&mut gateway, ProcessHandle(3), ModuleHandle(4), second);

    // The first table still answers, and it has now seen two banner lines
    // and two ejection requests.
    assert_eq!(gateway.get_i32_slider_value("x".to_owned()), 1);
    let host = gateway.table().unwrap();
    assert_eq!(host.call_count(), 4);
    assert_eq!(host.ejection_count(), 2);
    assert_eq!(host.ejection_at(0), (ProcessHandle(1), ModuleHandle(2)));
    assert_eq!(host.ejection_at(1), (ProcessHandle(3), ModuleHandle(4)));
}
