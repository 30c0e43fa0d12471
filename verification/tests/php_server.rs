use nativephp_tauri::api::api_routes;
use nativephp_tauri::boot::boot_request;
use nativephp_tauri::php::{bridge_secret, PhpServer, SidecarError};

#[test]
fn test_php_server_initialization() {
    let server: PhpServer<u32> = PhpServer::new();
    assert_eq!(server.port, 8100);
}

fn strings(v: &[&str]) -> Vec<String> {
    v.iter().map(|s| s.to_string()).collect()
}

#[test]
fn launch_uses_app_path_setting_and_offered_port() {
    let mut server: PhpServer<u32> = PhpServer::new();
    let launch = server.prepare_launch(
        4123,
        Some(9001),
        Some("/srv/app".to_string()),
        "/opt/shell".to_string(),
    );
    assert_eq!(server.port, 9001);
    assert_eq!(launch.program, "php");
    assert_eq!(
        launch.args,
        strings(&["-S", "127.0.0.1:9001", "-t", "/srv/app/public", "/opt/shell/router.php"])
    );
    let expected: Vec<(String, String)> = vec![
        ("NATIVEPHP_RUNNING".into(), "true".into()),
        ("NATIVEPHP_API_URL".into(), "http://127.0.0.1:4123/_native/api/".into()),
        ("APP_PATH".into(), "/srv/app".into()),
        ("NATIVEPHP_STORAGE_PATH".into(), "/srv/app/storage".into()),
        ("NATIVEPHP_DATABASE_PATH".into(), "/srv/app/database/database.sqlite".into()),
        ("NATIVEPHP_SECRET".into(), "NativePHPTauriSecret".into()),
    ];
    assert_eq!(launch.envs, expected);
}

#[test]
fn launch_falls_back_to_cwd_and_default_port() {
    let mut server: PhpServer<u32> = PhpServer::new();
    let launch = server.prepare_launch(4000, None, None, "/home/me/app".to_string());
    assert_eq!(server.port, 8100);
    assert_eq!(launch.args[1], "127.0.0.1:8100");
    assert_eq!(launch.args[3], "/home/me/app/public");
    assert_eq!(launch.args[4], "/home/me/app/router.php");
    assert_eq!(launch.envs[2].1, "/home/me/app");
}

#[test]
fn start_asks_for_a_port_and_keeps_no_process() {
    let mut server: PhpServer<u32> = PhpServer::new();
    let launch = server.start(4000, None, "/tmp/app".to_string());
    assert_eq!(launch.args[1], format!("127.0.0.1:{}", server.port));
    assert_eq!(server.stop(), None);
}

#[test]
fn finish_start_records_child_and_stop_returns_it_once() {
    let mut server: PhpServer<u32> = PhpServer::new();
    assert_eq!(server.finish_start(Ok(42)), Ok(()));
    assert_eq!(server.stop(), Some(42));
    assert_eq!(server.stop(), None);
}

#[test]
fn finish_start_reports_failures() {
    let mut server: PhpServer<u32> = PhpServer::new();
    assert_eq!(
        server.finish_start(Err(SidecarError::CommandCreation("no binary".into()))),
        Err("Failed to create sidecar command: no binary".to_string())
    );
    assert_eq!(
        server.finish_start(Err(SidecarError::Spawn("denied".into()))),
        Err("Failed to spawn PHP sidecar: denied".to_string())
    );
    assert_eq!(server.stop(), None);
}

#[test]
fn failed_start_keeps_earlier_process() {
    let mut server: PhpServer<u32> = PhpServer::new();
    assert_eq!(server.finish_start(Ok(7)), Ok(()));
    assert!(server.finish_start(Err(SidecarError::Spawn("x".into()))).is_err());
    assert_eq!(server.stop(), Some(7));
}

#[test]
fn secret_is_fixed() {
    assert_eq!(bridge_secret(), "NativePHPTauriSecret");
}

#[test]
fn boot_event_goes_where_sidecar_listens_with_shared_secret() {
    let mut server: PhpServer<u32> = PhpServer::new();
    let launch = server.prepare_launch(4555, Some(8222), None, "/app".to_string());
    let req = boot_request(server.port);
    assert_eq!(req.url, format!("http://{}/_native/api/booted", launch.args[1]));
    let secret = launch.envs.iter().find(|(k, _)| k == "NATIVEPHP_SECRET").unwrap();
    assert_eq!(secret.1, req.header_value);
    let api_url = &launch.envs[1].1;
    for route in api_routes() {
        let rest = route.path.strip_prefix("/_native/api/").unwrap();
        assert_eq!(format!("{}{}", api_url, rest), format!("http://127.0.0.1:4555{}", route.path));
    }
    let mut names: Vec<&String> = launch.envs.iter().map(|(k, _)| k).collect();
    names.sort();
    names.dedup();
    assert_eq!(names.len(), 6);
}
