use sing_sword::config::{ISword, ISingBox};
use sing_sword::dirs::{config_dir, core_dir, core_path, join, log_dir, path_to_str, resources_dir, sing_box_dir, sing_box_path, sword_config_path};
use sing_sword::store::Sword;
use sing_sword::tray::{clash_controller, clash_url, dashboard_url, to_decimal, MenuCommand, Tray};
use sing_sword::web::{put_status, dispatch, route, route_request, server_launch, with_auth, Endpoint, Method, Routed, Web};

fn store_with_secret(secret: Option<&str>) -> Sword {
    let mut s = Sword::new();
    let mut c = ISword::default();
    c.web_secret = secret.map(|x| x.to_string());
    s.set_config(c);
    s
}

#[test]
fn auth_requires_exact_bearer_token() {
    let secret = Some("s3cret".to_string());
    assert!(!with_auth(&secret, &None));
    assert!(with_auth(&secret, &Some("Bearer s3cret".to_string())));
    assert!(!with_auth(&secret, &Some("s3cret".to_string())));
    assert!(!with_auth(&secret, &Some("Bearer s3cret ".to_string())));
    assert!(with_auth(&None, &None));
    assert!(with_auth(&None, &Some("anything".to_string())));
}

#[test]
fn get_config_with_secret_needs_token() {
    let s = store_with_secret(Some("s3cret"));
    let r = route_request(&s, Method::Get, "/api/config", &None);
    assert_eq!(r, Routed::Unauthorized);
    assert_eq!(dispatch(r), Err(401));
    let r = route_request(&s, Method::Get, "/api/config", &Some("Bearer s3cret".to_string()));
    assert_eq!(r, Routed::Handle(Endpoint::GetConfig));
    assert_eq!(dispatch(r), Ok(Endpoint::GetConfig));
}

#[test]
fn routes_of_the_api() {
    assert_eq!(route(Method::Get, "/api/version", false), Routed::Handle(Endpoint::GetVersion));
    assert_eq!(route(Method::Put, "/api/version", true), Routed::MethodNotAllowed);
    assert_eq!(route(Method::Put, "/api/config", true), Routed::Handle(Endpoint::PutConfig));
    assert_eq!(route(Method::Get, "/api/sing_box", true), Routed::Handle(Endpoint::GetSingBox));
    assert_eq!(route(Method::Put, "/api/sing_box", true), Routed::Handle(Endpoint::PutSingBox));
    assert_eq!(route(Method::Put, "/api/sing_box", false), Routed::Unauthorized);
    assert_eq!(route(Method::Other, "/api/config", true), Routed::MethodNotAllowed);
    assert_eq!(route(Method::Get, "/api/other", true), Routed::NotFound);
    assert_eq!(dispatch(Routed::NotFound), Err(404));
    assert_eq!(dispatch(Routed::MethodNotAllowed), Err(405));
}

#[test]
fn version_needs_no_token() {
    let s = store_with_secret(Some("s3cret"));
    assert_eq!(route_request(&s, Method::Get, "/api/version", &None), Routed::Handle(Endpoint::GetVersion));
}

#[test]
fn put_status_codes() {
    assert_eq!(put_status(true), 204);
    assert_eq!(put_status(false), 500);
}

#[test]
fn bind_address_follows_lan_setting() {
    let mut s = Sword::new();
    assert_eq!(server_launch(&s).ip, [127, 0, 0, 1]);
    let mut c = ISword::default();
    c.web_allow_lan = true;
    c.web_port = 9000;
    s.set_config(c);
    let l = server_launch(&s);
    assert_eq!(l.ip, [0, 0, 0, 0]);
    assert_eq!(l.port, 9000);
    let mut w = Web::new();
    assert_eq!(w.run_web(&s).0, None);
    w.web_started(4);
    let (aborted, l) = w.run_web(&s);
    assert_eq!(aborted, Some(4));
    assert_eq!(l.port, 9000);
    assert_eq!(w.web_handler, None);
}

#[test]
fn menu_commands() {
    assert!(matches!((Tray {}).on_event("dashboard"), MenuCommand::Dashboard));
    assert!(matches!((Tray {}).on_event("clash_dashboard"), MenuCommand::ClashDashboard));
    assert!(matches!((Tray {}).on_event("run_core"), MenuCommand::RunCore));
    assert!(matches!((Tray {}).on_event("run_server"), MenuCommand::RunServer));
    assert!(matches!((Tray {}).on_event("open_logs_dir"), MenuCommand::OpenLogsDir));
    assert!(matches!((Tray {}).on_event("quit"), MenuCommand::Quit));
    match (Tray {}).on_event("service_core_sing-box") {
        MenuCommand::ChangeCore(name) => assert_eq!(name, "sing-box"),
        _ => panic!("expected a core switch"),
    }
    assert!(matches!((Tray {}).on_event("unknown"), MenuCommand::Ignore));
    assert!(matches!((Tray {}).on_event("service_cor"), MenuCommand::Ignore));
}

#[test]
fn decimal_rendering() {
    assert_eq!(to_decimal(0), "0");
    assert_eq!(to_decimal(7), "7");
    assert_eq!(to_decimal(33211), "33211");
    assert_eq!(to_decimal(65535), "65535");
    assert_eq!(to_decimal(100), "100");
}

#[test]
fn dashboard_links() {
    assert_eq!(
        dashboard_url(33211, &None, &None),
        "http://localhost:33211?server=127.0.0.1&port=33211"
    );
    assert_eq!(
        dashboard_url(8080, &Some("tok".to_string()), &Some("https://ui.example".to_string())),
        "https://ui.example?server=127.0.0.1&port=8080&token=tok"
    );
}

#[test]
fn clash_links() {
    assert_eq!(clash_url("127.0.0.1", 9090, &None), "https://yacd.haishan.me/?host=127.0.0.1&port=9090");
    assert_eq!(
        clash_url("10.0.0.2", 80, &Some("x".to_string())),
        "https://yacd.haishan.me/?host=10.0.0.2&port=80&secret=x"
    );
    let sb = ISingBox::default();
    assert_eq!(clash_controller(&sb).unwrap().external_controller, "127.0.0.1:9090");
    let mut none = ISingBox::default();
    none.experimental = None;
    assert!(clash_controller(&none).is_none());
}

#[test]
fn core_menu_marks_selected() {
    let cores = vec!["a".to_string(), "b".to_string()];
    let menu = Tray::tray_menu(&cores, &Some("b".to_string()));
    assert_eq!(menu.len(), 2);
    assert_eq!(menu[0].id, "service_core_a");
    assert_eq!(menu[0].title, "a");
    assert!(!menu[0].selected);
    assert!(menu[1].selected);
    assert!(Tray::tray_menu(&vec![], &None).is_empty());
}

#[test]
fn paths() {
    assert_eq!(join("/a", "b"), "/a/b");
    assert_eq!(join("/a/", "b"), "/a/b");
    assert_eq!(join("", "b"), "b");
    let app = "/home/u/.config/sing-sword";
    assert_eq!(config_dir(app), app);
    assert_eq!(sword_config_path(app), "/home/u/.config/sing-sword/sword.json");
    assert_eq!(sing_box_dir(app), "/home/u/.config/sing-sword/sing");
    assert_eq!(sing_box_path(app), "/home/u/.config/sing-sword/sing/config.json");
    assert_eq!(log_dir(app), "/home/u/.config/sing-sword/logs");
    assert_eq!(core_dir("/opt/app"), "/opt/app/core");
    assert_eq!(core_path("/opt/app/core", "sing-box"), "/opt/app/core/sing-box");
    assert_eq!(resources_dir("/opt/app"), "/opt/app/resources");
    assert_eq!(path_to_str(&"/x/y".to_string()), "/x/y");
}

#[test]
fn core_file_names() {
    assert_eq!(sing_sword::dirs::core_file_name("sing-box", true), "sing-box.exe");
    assert_eq!(sing_sword::dirs::core_file_name("sing-box", false), "sing-box");
}

#[test]
fn menu_entries_select_their_core() {
    let cores = vec!["sing-box".to_string(), "dashboard".to_string()];
    for (item, core) in Tray::tray_menu(&cores, &None).iter().zip(cores.iter()) {
        match (Tray {}).on_event(&item.id) {
            MenuCommand::ChangeCore(name) => assert_eq!(&name, core),
            _ => panic!("expected a core switch"),
        }
    }
}
