use herald::federation::discovery::{
    browse_peers, hold_registration, register_service, BrowseAction, BrowseEvent, Discovery,
    PeerBrowser, RegistrationEvent, RegistrationStep, Removal, SERVICE_TYPE,
};
use herald::federation::{PeerHealth, PeerSource, PeerState};

fn browser(own: &str) -> PeerBrowser {
    PeerBrowser { own_instance: own.to_string(), global_secret: "s3cret".to_string() }
}

fn resolved(fullname: &str, address: Option<&str>) -> BrowseEvent {
    BrowseEvent::Resolved {
        fullname: fullname.to_string(),
        port: 8081,
        address: address.map(|a| a.to_string()),
    }
}

fn peer(name: &str, source: PeerSource) -> PeerState<u8> {
    PeerState {
        name: name.to_string(),
        url: String::new(),
        shared_secret: String::new(),
        agents: vec![],
        health: PeerHealth::Unknown,
        source,
    }
}

fn discovery() -> Discovery {
    match browse_peers(&browser("box"), resolved("attic._herald._tcp.local.", Some("10.0.0.7"))) {
        BrowseAction::Discover { discovery, .. } => discovery,
        _ => panic!("not discovered"),
    }
}

fn is_ignored(action: BrowseAction) -> bool {
    matches!(action, BrowseAction::Ignore)
}

#[test]
fn announcement_carries_name_and_port() {
    let registration = register_service("box", 8081).ok().unwrap();
    assert_eq!(registration.info.get_type(), SERVICE_TYPE);
    assert_eq!(registration.info.get_fullname(), "box._herald._tcp.local.");
    assert_eq!(registration.info.get_hostname(), "box.local.");
    assert_eq!(registration.info.get_port(), 8081);
    assert!(registration.info.get_addresses().is_empty());
    assert_eq!(registration.log, "[federation] mDNS: registered as 'box' on port 8081");
}

#[test]
fn announcement_escapes_the_name() {
    let info = register_service("my.box\\2", 1).ok().unwrap().info;
    assert_eq!(info.get_fullname(), "my\\.box\\\\2._herald._tcp.local.");
    let info = register_service("box.local", 1).ok().unwrap().info;
    assert_eq!(info.get_hostname(), "box.local.");
}

#[test]
fn announcement_is_held_until_cancelled() {
    match hold_registration(RegistrationEvent::Elapsed) {
        RegistrationStep::Wait { secs } => assert_eq!(secs, 3600),
        _ => panic!("given up"),
    }
    match hold_registration(RegistrationEvent::Cancelled) {
        RegistrationStep::Shutdown { log } => {
            assert_eq!(log, "[federation] mDNS: unregistering service")
        }
        _ => panic!("held"),
    }
}

#[test]
fn resolved_peer_is_asked_for_its_agents() {
    let event = resolved("attic._herald._tcp.local.", Some("10.0.0.7"));
    match browse_peers(&browser("box"), event) {
        BrowseAction::Discover { discovery, log } => {
            assert_eq!(discovery.fullname, "attic._herald._tcp.local.");
            assert_eq!(discovery.short_name, "attic");
            assert_eq!(discovery.url, "http://10.0.0.7:8081");
            assert_eq!(discovery.secret, "s3cret");
            assert_eq!(
                log,
                "[federation] mDNS: discovered peer 'attic' at http://10.0.0.7:8081"
            );
        }
        _ => panic!("not discovered"),
    }
}

#[test]
fn name_without_a_dot_is_taken_whole() {
    match browse_peers(&browser("box"), resolved("attic", Some("10.0.0.7"))) {
        BrowseAction::Discover { discovery, .. } => assert_eq!(discovery.short_name, "attic"),
        _ => panic!("not discovered"),
    }
}

fn found_name(own: &str, fullname: &str) -> Option<String> {
    match browse_peers(&browser(own), resolved(fullname, Some("10.0.0.5"))) {
        BrowseAction::Discover { discovery, .. } => Some(discovery.short_name),
        BrowseAction::Ignore => None,
        _ => panic!("neither found nor skipped"),
    }
}

/// Names as they come over the network: dots and backslashes stand as they are.
const NAMES: [&str; 13] = [
    "attic", "", "herald", "a.b", "a\\b", "a\\\\b", "a\\.b", "a\\\\.b", "a\\", ".", "\\", "\\\\",
    "zürich.1",
];

fn received(name: &str) -> String {
    format!("{name}._herald._tcp.local.")
}

fn removed_name(fullname: &str) -> String {
    let event = BrowseEvent::Removed { fullname: fullname.to_string() };
    match browse_peers(&browser("box"), event) {
        BrowseAction::Review { removal } => removal.short_name,
        _ => panic!("not reviewed"),
    }
}

#[test]
fn own_announcement_is_skipped() {
    for own in NAMES {
        assert_eq!(found_name(own, &received(own)), None);
    }
}

#[test]
fn only_the_own_announcement_is_skipped() {
    let found = |own: &str, name: &str| {
        found_name(own, &received(name)).as_deref() == Some(name)
    };
    assert!(found("herald", "bob"));
    assert!(found("box", "mybox2"));
    assert!(found("box", "Box"));
    assert!(found("", "attic"));
    assert!(found("tcp", "attic"));
    assert!(found("b", "a.b"));
    for own in NAMES {
        for name in NAMES {
            assert_eq!(found(own, name), own != name);
        }
    }
    assert_eq!(found_name("box", "box.example."), Some("box".to_string()));
}

#[test]
fn found_instance_is_entered() {
    let event = BrowseEvent::Resolved {
        fullname: "bob._herald._tcp.local.".to_string(),
        port: 9000,
        address: Some("10.0.0.5".to_string()),
    };
    match browse_peers(&browser("herald"), event) {
        BrowseAction::Discover { discovery, .. } => {
            let peer = discovery.finish::<u8>(Ok(vec![])).peer;
            assert_eq!(peer.name, "bob");
            assert_eq!(peer.url, "http://10.0.0.5:9000");
            assert_eq!(peer.health, PeerHealth::Healthy);
            assert_eq!(peer.source, PeerSource::Mdns);
        }
        _ => panic!("not discovered"),
    }
}

#[test]
fn peer_is_known_under_its_own_name() {
    for name in NAMES {
        assert_eq!(found_name("box", &received(name)).as_deref(), Some(name));
        assert_eq!(removed_name(&received(name)), name);
    }
}

#[test]
fn plain_name_is_registered_as_received() {
    let info = register_service("attic-2 ü", 8081).ok().unwrap().info;
    assert_eq!(info.get_fullname(), received("attic-2 ü"));
}

#[test]
fn full_name_of_another_form_ends_at_its_first_dot() {
    assert_eq!(found_name("box", "attic.example.").as_deref(), Some("attic"));
    assert_eq!(removed_name("attic.example."), "attic");
    assert_eq!(removed_name("attic"), "attic");
}

#[test]
fn removal_undoes_the_discovery() {
    for name in NAMES {
        let event = resolved(&received(name), Some("10.0.0.5"));
        let discovery = match browse_peers(&browser("box"), event) {
            BrowseAction::Discover { discovery, .. } => discovery,
            _ => panic!("not discovered"),
        };
        let others: Vec<&str> = NAMES.into_iter().filter(|other| *other != name).collect();
        let mut peers: Vec<PeerState<u8>> =
            others.iter().map(|other| peer(other, PeerSource::Mdns)).collect();
        peers.push(discovery.finish(Err("timeout".to_string())).peer);

        let removal = Removal { short_name: removed_name(&received(name)) };
        let eviction = removal.decide(&peers).unwrap();
        peers.retain(|peer| peer.name != eviction.name);
        let left: Vec<&str> = peers.iter().map(|peer| peer.name.as_str()).collect();
        assert_eq!(left, others);
    }
}

#[test]
fn peer_without_an_address_is_ignored() {
    assert!(is_ignored(browse_peers(&browser("box"), resolved("attic.x.", None))));
}

#[test]
fn answering_peer_is_healthy() {
    let update = discovery().finish(Ok(vec![1u8, 2]));
    assert_eq!(update.peer.name, "attic");
    assert_eq!(update.peer.url, "http://10.0.0.7:8081");
    assert_eq!(update.peer.shared_secret, "s3cret");
    assert_eq!(update.peer.agents, vec![1, 2]);
    assert_eq!(update.peer.health, PeerHealth::Healthy);
    assert_eq!(update.peer.source, PeerSource::Mdns);
    assert_eq!(update.log, None);
}

#[test]
fn silent_peer_is_entered_all_the_same() {
    let update = discovery().finish::<u8>(Err("timeout".to_string()));
    assert_eq!(update.peer.name, "attic");
    assert_eq!(update.peer.url, "http://10.0.0.7:8081");
    assert!(update.peer.agents.is_empty());
    assert_eq!(update.peer.health, PeerHealth::Unknown);
    assert_eq!(update.peer.source, PeerSource::Mdns);
    assert_eq!(
        update.log.unwrap(),
        "[federation] mDNS: failed to discover agents from 'attic._herald._tcp.local.': timeout"
    );
}

#[test]
fn withdrawn_announcement_is_reviewed() {
    let event = BrowseEvent::Removed { fullname: "attic._herald._tcp.local.".to_string() };
    match browse_peers(&browser("box"), event) {
        BrowseAction::Review { removal } => assert_eq!(removal.short_name, "attic"),
        _ => panic!("not reviewed"),
    }
}

#[test]
fn found_peer_is_removed() {
    let peers = vec![peer("cellar", PeerSource::Static), peer("attic", PeerSource::Mdns)];
    let eviction = Removal { short_name: "attic".to_string() }.decide(&peers).unwrap();
    assert_eq!(eviction.name, "attic");
    assert_eq!(eviction.log, "[federation] mDNS: peer 'attic' removed");
}

#[test]
fn configured_peer_is_not_removed() {
    let peers = vec![peer("attic", PeerSource::Static), peer("attic", PeerSource::Mdns)];
    assert!(Removal { short_name: "attic".to_string() }.decide(&peers).is_none());
    assert!(Removal { short_name: "cellar".to_string() }.decide(&peers).is_none());
    assert!(Removal { short_name: "attic".to_string() }.decide::<u8>(&vec![]).is_none());
}

#[test]
fn other_events() {
    assert!(is_ignored(browse_peers(&browser("box"), BrowseEvent::Other)));
    match browse_peers(&browser("box"), BrowseEvent::Cancelled) {
        BrowseAction::Stop { log } => {
            assert_eq!(log, "[federation] mDNS: browse task shutting down")
        }
        _ => panic!("not stopped"),
    }
    match browse_peers(&browser("box"), BrowseEvent::Failed { reason: "closed".to_string() }) {
        BrowseAction::Pause { secs, log } => {
            assert_eq!(secs, 5);
            assert_eq!(log, "[federation] mDNS browse error: closed");
        }
        _ => panic!("no pause"),
    }
}
