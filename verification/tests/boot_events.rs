use nativephp_tauri::boot::{boot_request, BootNotifier, BootStep};

#[test]
fn boot_request_targets_php_server() {
    let req = boot_request(8100);
    assert_eq!(req.method, "POST");
    assert_eq!(req.url, "http://127.0.0.1:8100/_native/api/booted");
    assert_eq!(req.header_name, "X-NativePHP-Secret");
    assert_eq!(req.header_value, "NativePHPTauriSecret");
    assert_eq!(req.event, "Native\\Laravel\\Events\\App\\ApplicationBooted");
}

#[test]
fn boot_gives_up_after_ten_failures() {
    let mut n = BootNotifier::new();
    for attempt in 1..=10u32 {
        assert_eq!(n.next_step(), BootStep::Send { attempt, delay_secs: 1 });
        n.record(false);
    }
    assert_eq!(n.next_step(), BootStep::Finished);
    n.record(true);
    assert_eq!(n.next_step(), BootStep::Finished);
}

#[test]
fn boot_stops_after_delivery() {
    let mut n = BootNotifier::new();
    n.record(false);
    n.record(false);
    assert_eq!(n.next_step(), BootStep::Send { attempt: 3, delay_secs: 1 });
    n.record(true);
    assert_eq!(n.next_step(), BootStep::Finished);
    n.record(false);
    assert_eq!(n.next_step(), BootStep::Finished);
}
