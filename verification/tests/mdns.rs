use rust_cast::mdns::{
    clients_from_mdns_response, find_target, Client, Record, RecordKind, Response, Target,
    SERVICE_NAME,
};

fn chromecast_response(id_uuid: &str, friendly: Option<&str>) -> (Response, String) {
    let id = id_uuid.replace('-', "");
    let srv_name = format!("Chromecast-{id}.{SERVICE_NAME}");
    let a_name = format!("{id_uuid}.local");
    let mut txt: Vec<String> = vec![
        format!("id={id}"),
        "cd=0123456789ABCDEF0123456789ABCDEF".to_string(),
        "rm=1123456789ABCDEF".to_string(),
        "ve=05".to_string(),
        "md=Chromecast".to_string(),
        "ic=/setup/icon.png".to_string(),
    ];
    if let Some(f) = friendly {
        txt.push(format!("fn={f}"));
    }
    txt.push("rs=YouTube".to_string());
    let resp = Response {
        answers: vec![Record {
            name: SERVICE_NAME.to_string(),
            kind: RecordKind::PTR(srv_name.clone()),
        }],
        nameservers: vec![],
        additional: vec![
            Record { name: srv_name.clone(), kind: RecordKind::TXT(txt) },
            Record {
                name: srv_name.clone(),
                kind: RecordKind::SRV { priority: 0, weight: 0, port: 8009, target: a_name.clone() },
            },
            Record { name: a_name, kind: RecordKind::A([192, 168, 17, 42]) },
        ],
    };
    (resp, srv_name)
}

#[test]
fn extract_from_mdns_response() {
    let id_uuid = "3123456789-abcd-0123-4567-89abcdef0123";
    let id = id_uuid.replace('-', "");
    let srv_name = format!("Chromecast-{id}.{SERVICE_NAME}");
    let a_name = format!("{id_uuid}.local");

    let ip = [192, 168, 17, 42];
    let port = 8009;

    let friendly_name = "My Chromecast".to_string();
    let app_name = "YouTube".to_string();

    let resp = Response {
        answers: vec![Record {
            name: SERVICE_NAME.to_string(),
            kind: RecordKind::PTR(srv_name.clone()),
        }],
        nameservers: vec![],
        additional: vec![
            Record {
                name: srv_name.clone(),
                kind: RecordKind::TXT(
                    [
                        &format!("id={id}"),
                        "cd=0123456789ABCDEF0123456789ABCDEF",
                        "rm=1123456789ABCDEF",
                        "ve=05",
                        "md=Chromecast",
                        "ic=/setup/icon.png",
                        &format!("fn={friendly_name}"),
                        "ca=201221",
                        "st=1",
                        "bs=2123456789AB",
                        "nf=1",
                        &format!("rs={app_name}"),
                    ]
                    .into_iter()
                    .map(|s| s.to_string())
                    .collect(),
                ),
            },
            Record {
                name: srv_name.clone(),
                kind: RecordKind::SRV { priority: 0, weight: 0, port, target: a_name.clone() },
            },
            Record { name: a_name.clone(), kind: RecordKind::A(ip) },
        ],
    };
    println!("response = {resp:#?}");

    let clients = clients_from_mdns_response(&resp).unwrap();
    println!("clients = {clients:#?}");

    assert_eq!(clients.len(), 1);

    let client = &clients[0];

    assert_eq!(client.service_host, srv_name);
    assert_eq!((client.ip, client.port), (ip, port));
    assert_eq!(client.display_name, friendly_name);
    assert_eq!(client.app_name, Some(app_name));
    assert_eq!(client.uuid, Some(id));
}

#[test]
fn display_name_falls_back_to_the_address() {
    let (resp, _) = chromecast_response("1-2", None);
    let clients = clients_from_mdns_response(&resp).unwrap();
    assert_eq!(clients.len(), 1);
    assert_eq!(clients[0].display_name, "192.168.17.42:8009");
}

#[test]
fn service_host_without_address_record_is_no_device() {
    let (mut resp, _) = chromecast_response("1-2", Some("Den"));
    resp.additional.pop();
    let clients = clients_from_mdns_response(&resp).unwrap();
    assert!(clients.is_empty());
}

#[test]
fn later_txt_entries_override_earlier_ones() {
    let (mut resp, _) = chromecast_response("1-2", Some("Den"));
    if let RecordKind::TXT(entries) = &mut resp.additional[0].kind {
        entries.push("fn=Kitchen".to_string());
        entries.push("no equals sign".to_string());
    }
    let clients = clients_from_mdns_response(&resp).unwrap();
    assert_eq!(clients[0].display_name, "Kitchen");
}

#[test]
fn other_records_are_ignored() {
    let (mut resp, _) = chromecast_response("1-2", Some("Den"));
    resp.answers.insert(0, Record { name: SERVICE_NAME.to_string(), kind: RecordKind::Other });
    let clients = clients_from_mdns_response(&resp).unwrap();
    assert_eq!(clients.len(), 1);
}

fn client(name: &str, uuid: Option<&str>) -> Client {
    Client {
        ip: [10, 0, 0, 1],
        port: 8009,
        service_host: format!("{name}.local"),
        display_name: name.to_string(),
        app_name: None,
        uuid: uuid.map(|u| u.to_string()),
    }
}

#[test]
fn find_target_picks_the_first_match() {
    let clients = vec![client("Den", Some("a")), client("Kitchen", Some("b")), client("Den", None)];
    let first = find_target(clients.clone(), &Target::First).unwrap();
    assert_eq!(first.service_host, "Den.local");
    let kitchen = find_target(clients.clone(), &Target::DisplayName("Kitchen".to_string())).unwrap();
    assert_eq!(kitchen.uuid, Some("b".to_string()));
    let by_id = find_target(clients.clone(), &Target::Id("a".to_string())).unwrap();
    assert_eq!(by_id.display_name, "Den");
    assert!(find_target(clients, &Target::Id("zzz".to_string())).is_none());
    assert!(find_target(vec![], &Target::First).is_none());
}
