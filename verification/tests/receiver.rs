use rust_cast::args::{IpAddress, SocketAddress, Target, TargetArgs};
use rust_cast::mdns;
use rust_cast::message::{EndpointId, Namespace};
use rust_cast::payload::receiver::{
    applications_with_namespace, find_app_by_id, find_app_with_namespace, AppId, AppNamespace,
    AppSessionId, Application,
};
use rust_cast::types::{AppSession, MediaSession};
use rust_cast::payload::media::MediaSessionId;

const MEDIA_NS: &str = "urn:x-cast:com.google.cast.media";

fn app(id: &str, session: &str, namespaces: &[&str]) -> Application {
    Application {
        app_id: AppId(id.to_string()),
        app_session_id: AppSessionId(session.to_string()),
        transport_id: EndpointId(format!("transport-{session}")),
        namespaces: namespaces
            .iter()
            .map(|n| AppNamespace { name: Namespace(n.to_string()) })
            .collect(),
        display_name: format!("app {id}"),
        status_text: String::new(),
        app_type: "WEB".to_string(),
        icon_url: String::new(),
        is_idle_screen: false,
        launched_from_cloud: false,
        universal_app_id: id.to_string(),
    }
}

#[test]
fn apps_with_the_media_namespace() {
    let apps = vec![
        app("E8C28D3C", "1", &["urn:x-cast:com.google.cast.debugoverlay"]),
        app("CC1AD845", "2", &["urn:x-cast:com.google.cast.debugoverlay", MEDIA_NS]),
        app("233637DE", "3", &[MEDIA_NS]),
    ];
    let ns = Namespace(MEDIA_NS.to_string());
    assert!(!apps[0].has_namespace(&ns));
    assert!(apps[1].has_namespace(&ns));
    let found: Vec<&str> = applications_with_namespace(&apps, &ns)
        .into_iter()
        .map(|a| a.app_session_id.0.as_str())
        .collect();
    assert_eq!(found, vec!["2", "3"]);
    assert_eq!(find_app_with_namespace(&apps, &ns).unwrap().app_session_id.0, "2");
    let none = Namespace("urn:nothing".to_string());
    assert!(find_app_with_namespace(&apps, &none).is_none());
    assert!(applications_with_namespace(&apps, &none).is_empty());
}

#[test]
fn app_by_id() {
    let apps = vec![app("E8C28D3C", "1", &[]), app("CC1AD845", "2", &[]), app("CC1AD845", "9", &[])];
    let default = AppId::from_const(AppId::DEFAULT_MEDIA_RECEIVER);
    assert_eq!(find_app_by_id(&apps, &default).unwrap().app_session_id.0, "2");
    assert!(find_app_by_id(&apps, &AppId::from_const(AppId::YOUTUBE)).is_none());
    assert_eq!(default.as_str(), "CC1AD845");
    assert_eq!(String::from(default.clone()), "CC1AD845");
    assert_eq!(AppId::from("x".to_string()).to_string(), "x");
}

#[test]
fn app_session_of_an_app() {
    let a = app("CC1AD845", "sess-1", &[MEDIA_NS]);
    let s: AppSession = a.to_app_session(EndpointId("receiver-0".to_string())).unwrap();
    assert_eq!(s.receiver_destination_id.as_str(), "receiver-0");
    assert_eq!(s.app_destination_id.as_str(), "transport-sess-1");
    assert_eq!(s.app_session_id, AppSessionId("sess-1".to_string()));
    let ms = MediaSession { app_session: s, media_session_id: MediaSessionId(4) };
    assert_eq!(ms.app_destination_id().as_str(), "transport-sess-1");
    assert_eq!(ms.receiver_destination_id().as_str(), "receiver-0");
    assert_eq!(ms.app_session_id().0, "sess-1");
    assert_eq!(ms.media_session_id.to_i32(), 4);
}

fn no_args() -> TargetArgs {
    TargetArgs { mdns_first: false, mdns_display_name: None, mdns_id: None, ip: None, addr: None }
}

#[test]
fn target_precedence() {
    let addr = SocketAddress::V4 { ip: [10, 0, 0, 2], port: 9000 };
    let all = TargetArgs {
        mdns_first: true,
        mdns_display_name: Some("Den".to_string()),
        mdns_id: Some("abc".to_string()),
        ip: Some(IpAddress::V4([10, 0, 0, 3])),
        addr: Some(addr),
    };
    match all.to_target().unwrap() {
        Target::SocketAddr(a) => assert_eq!(a, addr),
        other => panic!("unexpected {other:?}"),
    }
    let ip_only = TargetArgs { ip: Some(IpAddress::V6([0, 0, 0, 0, 0, 0, 0, 1])), ..no_args() };
    match ip_only.to_target().unwrap() {
        Target::SocketAddr(a) => {
            assert_eq!(a, SocketAddress::V6 { ip: [0, 0, 0, 0, 0, 0, 0, 1], port: 8009, flowinfo: 0, scope_id: 0 });
        },
        other => panic!("unexpected {other:?}"),
    }
    let name = TargetArgs { mdns_display_name: Some("Den".to_string()), mdns_id: Some("x".to_string()), ..no_args() };
    match name.to_target().unwrap() {
        Target::Mdns(mdns::Target::DisplayName(n)) => assert_eq!(n, "Den"),
        other => panic!("unexpected {other:?}"),
    }
    let id = TargetArgs { mdns_id: Some("x".to_string()), ..no_args() };
    assert!(matches!(id.to_target().unwrap(), Target::Mdns(mdns::Target::Id(_))));
    let first = TargetArgs { mdns_first: true, ..no_args() };
    assert!(matches!(first.to_target().unwrap(), Target::Mdns(mdns::Target::First)));
}

#[test]
fn no_target_is_an_error() {
    assert!(no_args().to_target().is_err());
}

#[test]
fn no_target_error_shows_the_arguments() {
    let err = no_args().to_target().unwrap_err();
    assert_eq!(err.to_string(), format!("TargetArgs::to_target: no target specified\nself = {:#?}", no_args()));
}

#[test]
fn ipv6_scope_and_flow_are_kept() {
    let addr = SocketAddress::V6 { ip: [0xfe80, 0, 0, 0, 0, 0, 0, 1], port: 8009, flowinfo: 7, scope_id: 3 };
    let args = TargetArgs { addr: Some(addr), ..no_args() };
    match args.to_target().unwrap() {
        Target::SocketAddr(a) => assert_eq!(a, addr),
        other => panic!("unexpected {other:?}"),
    }
    assert_eq!(
        SocketAddress::from_ip(IpAddress::V4([1, 2, 3, 4]), 80),
        SocketAddress::V4 { ip: [1, 2, 3, 4], port: 80 }
    );
}
