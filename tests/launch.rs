use mokt_native::{open_url_command, Platform};

#[test]
fn windows_uses_cmd_start() {
    let c = open_url_command(Platform::Windows, "https://example.com/?a=1&b=2");
    assert_eq!(c.program, "cmd");
    assert_eq!(c.args, vec!["/C", "start", "https://example.com/?a=1&b=2"]);
}

#[test]
fn macos_uses_open() {
    let c = open_url_command(Platform::MacOs, "https://example.com");
    assert_eq!(c.program, "open");
    assert_eq!(c.args, vec!["https://example.com"]);
}

#[test]
fn unix_uses_xdg_open() {
    let c = open_url_command(Platform::Unix, "file:///tmp/x y");
    assert_eq!(c.program, "xdg-open");
    assert_eq!(c.args, vec!["file:///tmp/x y"]);
}
