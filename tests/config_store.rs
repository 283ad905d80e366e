use sing_sword::config::{default_external_controller, IClashAPI, ILog, ISingBox, ISword};
use sing_sword::store::Sword;

fn sample_config() -> ISword {
    ISword {
        web_port: 8080,
        web_allow_lan: true,
        web_secret: Some("s3cret".to_string()),
        web_ui: Some("http://example.org/ui".to_string()),
        clash_ui: None,
        core_name: Some("sing-box".to_string()),
    }
}

fn same_config(a: &ISword, b: &ISword) -> bool {
    a.web_port == b.web_port
        && a.web_allow_lan == b.web_allow_lan
        && a.web_secret == b.web_secret
        && a.web_ui == b.web_ui
        && a.clash_ui == b.clash_ui
        && a.core_name == b.core_name
}

#[test]
fn app_config_defaults() {
    let c = ISword::default();
    assert_eq!(c.web_port, 33211);
    assert!(!c.web_allow_lan);
    assert_eq!(c.web_secret, None);
    assert_eq!(c.web_ui, None);
    assert_eq!(c.clash_ui.as_deref(), Some("https://yacd.haishan.me/"));
    assert_eq!(c.core_name, None);
}

#[test]
fn passthrough_defaults() {
    let sb = ISingBox::default();
    let log = sb.log.expect("log section present");
    assert_eq!(log.level.as_deref(), Some("info"));
    assert_eq!(log.output.as_deref(), Some("box.log"));
    assert_eq!(log.timestamp, Some(true));
    assert_eq!(log.disabled, Some(false));
    assert!(sb.dns.is_none());
    assert!(sb.route.is_none());
    assert!(sb.inbounds.is_none());
    assert!(sb.outbounds.is_none());
    let exp = sb.experimental.expect("experimental section present");
    assert!(exp.v2ray_api.is_none());
    let clash = exp.clash_api.expect("controller present");
    assert_eq!(clash.external_controller, "127.0.0.1:9090");
    assert_eq!(clash.secret, None);
    assert_eq!(clash.external_ui, None);
}

#[test]
fn section_defaults() {
    let log = ILog::default();
    assert_eq!(log.level.as_deref(), Some("info"));
    let clash = IClashAPI::default();
    assert_eq!(clash.external_controller, "127.0.0.1:9090");
    assert_eq!(clash.cache_file, None);
    assert_eq!(default_external_controller(), "127.0.0.1:9090");
}

#[test]
fn first_run_keeps_defaults_and_asks_to_write() {
    let mut s = Sword::new();
    assert!(s.init_config(None));
    assert!(same_config(s.config(), &ISword::default()));
    assert!(s.init_sing_box(None));
    assert_eq!(s.config().web_port, 33211);
    assert_eq!(s.config().core_name, None);
    let sb = s.sing_box();
    assert_eq!(
        sb.experimental.as_ref().unwrap().clash_api.as_ref().unwrap().external_controller,
        "127.0.0.1:9090"
    );
}

#[test]
fn load_takes_document_from_disk() {
    let mut s = Sword::new();
    assert!(!s.init_config(Some(sample_config())));
    assert!(same_config(s.config(), &sample_config()));
    let mut sb = ISingBox::default();
    sb.log = None;
    assert!(!s.init_sing_box(Some(sb)));
    assert!(s.sing_box().log.is_none());
    assert!(same_config(s.config(), &sample_config()));
}

#[test]
fn replace_then_read_round_trip() {
    let mut s = Sword::new();
    s.set_config(sample_config());
    assert!(same_config(s.config(), &sample_config()));
    let mut sb = ISingBox::default();
    sb.experimental = None;
    s.set_sing_box(sb);
    assert!(s.sing_box().experimental.is_none());
    assert!(s.sing_box().log.is_some());
    assert!(same_config(s.config(), &sample_config()));
}

#[test]
fn web_info_reports_settings() {
    let mut s = Sword::new();
    s.set_config(sample_config());
    let (port, lan, secret, ui) = s.web_info();
    assert_eq!(port, 8080);
    assert!(lan);
    assert_eq!(secret.as_deref(), Some("s3cret"));
    assert_eq!(ui.as_deref(), Some("http://example.org/ui"));
}

#[test]
fn core_name_prefers_configured_then_first_listed() {
    let mut s = Sword::new();
    let listed = vec!["alpha".to_string(), "beta".to_string()];
    assert_eq!(s.core_name(&listed).as_deref(), Some("alpha"));
    assert_eq!(s.core_name(&vec![]), None);
    s.set_config(sample_config());
    assert_eq!(s.core_name(&listed).as_deref(), Some("sing-box"));
    assert_eq!(s.core_name(&vec![]).as_deref(), Some("sing-box"));
}
