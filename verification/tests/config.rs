use dshare::config::{Config, Role};
use dshare::peer::{hostname, local_hello};
use dshare::PROTOCOL_VERSION;
use uuid::Uuid;

#[test]
fn default_config() {
    let c = Config::default();
    assert_eq!(c.role, Role::Server);
    assert_eq!(c.bind_addr, "0.0.0.0:24800");
    assert!(c.server_addr.is_none());
    assert!(c.clipboard_sync);
    assert!(c.tls.is_none());
    assert_eq!(c.layout.server_screen.width, 1920);
    assert_eq!(c.layout.server_screen.height, 1080);
    assert!(c.layout.peers.is_empty());
}

#[test]
fn default_path_prefers_home_off_windows() {
    let parts = Config::default_path(false, Some("/home/u".into()), Some("C:\\AppData".into()));
    assert_eq!(parts, vec!["/home/u", ".config", "dshare", "config.toml"]);
}

#[test]
fn default_path_prefers_appdata_on_windows() {
    let parts = Config::default_path(true, Some("/home/u".into()), Some("C:\\AppData".into()));
    assert_eq!(parts, vec!["C:\\AppData", "dshare", "config.toml"]);
    let parts = Config::default_path(true, Some("/home/u".into()), None);
    assert_eq!(parts, vec!["/home/u", ".config", "dshare", "config.toml"]);
}

#[test]
fn default_path_falls_back_to_appdata_then_cwd() {
    let parts = Config::default_path(false, None, Some("C:\\AppData".into()));
    assert_eq!(parts, vec!["C:\\AppData", "dshare", "config.toml"]);
    let parts = Config::default_path(false, None, None);
    assert_eq!(parts, vec![".", "config.toml"]);
    let parts = Config::default_path(true, None, None);
    assert_eq!(parts, vec![".", "config.toml"]);
}

#[test]
fn server_addr_text() {
    let mut c = Config::default();
    c.set_server_addr_text("10.0.0.2:24800".into());
    assert_eq!(c.server_addr.as_deref(), Some("10.0.0.2:24800"));
    c.set_server_addr_text(String::new());
    assert!(c.server_addr.is_none());
}

#[test]
fn hostname_priority() {
    assert_eq!(hostname(Some("WIN".into()), Some("linux".into())), "WIN");
    assert_eq!(hostname(None, Some("linux".into())), "linux");
    assert_eq!(hostname(None, None), "unknown");
}

#[test]
fn hello_announces_server_screen() {
    let mut c = Config::default();
    c.layout.server_screen.width = 2560;
    c.layout.server_screen.height = 1440;
    let h = local_hello(&c, Uuid::nil(), "test".into());
    assert_eq!(h.protocol_version, PROTOCOL_VERSION);
    assert_eq!(h.peer_id, Uuid::nil());
    assert_eq!(h.hostname, "test");
    assert_eq!(h.screen.width, 2560);
    assert_eq!(h.screen.height, 1440);
}
