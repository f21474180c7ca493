use chaos_magnet::control::{collector_url, harvester_from_name, Harvester, HarvesterStates, P2PConfig, Uplink};
use chaos_magnet::peer::{accept_peer_payload, find_header_end, http_body};

#[test]
fn harvester_names_ignore_case() {
    assert_eq!(harvester_from_name("trng"), Some(Harvester::Trng));
    assert_eq!(harvester_from_name("Hardware/TRNG"), Some(Harvester::Trng));
    assert_eq!(harvester_from_name("audio (mic)"), Some(Harvester::Audio));
    assert_eq!(harvester_from_name("System/CPU"), Some(Harvester::System));
    assert_eq!(harvester_from_name("sys"), Some(Harvester::System));
    assert_eq!(harvester_from_name("hid (mouse)"), Some(Harvester::Mouse));
    assert_eq!(harvester_from_name("Video (Cam)"), Some(Harvester::Video));
    assert_eq!(harvester_from_name("keyboard"), None);
}

#[test]
fn toggling_sets_one_flag() {
    let mut s = HarvesterStates::all_off();
    assert_eq!(s.toggle_by_name("video", true), Some(Harvester::Video));
    assert!(s.is_enabled(Harvester::Video));
    assert!(!s.is_enabled(Harvester::Trng));
    assert_eq!(s.toggle_by_name("nothing", true), None);
    assert!(!s.audio && !s.system && !s.mouse && !s.trng);
    s.set(Harvester::Video, false);
    assert!(!s.video);
}

#[test]
fn peers_are_kept_distinct() {
    let mut p = P2PConfig::new();
    assert_eq!(p.listen_port(), 9000);
    assert!(!p.is_active());
    assert!(p.add_peer("10.0.0.2:9000".to_string()));
    assert!(!p.add_peer("10.0.0.2:9000".to_string()));
    assert!(p.add_peer("10.0.0.3:9000".to_string()));
    assert_eq!(p.peer_count(), 2);
    assert!(p.fan_out_peers().is_empty());
    p.set_active(true);
    assert_eq!(p.fan_out_peers(), vec!["10.0.0.2:9000".to_string(), "10.0.0.3:9000".to_string()]);
    p.set_port(9100);
    assert_eq!(p.listen_port(), 9100);
    p.record_received();
    assert_eq!(p.received_count(), 1);
}

#[test]
fn uplink_sends_at_most_once_per_second() {
    let mut u = Uplink::to_host("192.168.1.19");
    assert_eq!(u.url, "http://192.168.1.19:8000/ingest");
    assert!(u.should_send(100));
    assert!(!u.should_send(100));
    assert!(u.should_send(101));
    u.enabled = false;
    assert!(!u.should_send(200));
    u.set_target("10.1.1.1");
    assert_eq!(u.url, "http://10.1.1.1:8000/ingest");
    assert_eq!(collector_url("h"), "http://h:8000/ingest");
}

#[test]
fn request_body_follows_first_blank_line() {
    let req = b"POST /ingest HTTP/1.1\r\nHost: x\r\n\r\n{\"a\":1}\r\n\r\nz";
    assert_eq!(find_header_end(req), Some(30));
    assert_eq!(http_body(req).unwrap(), b"{\"a\":1}\r\n\r\nz".to_vec());
    assert_eq!(http_body(b"no header end\r\n"), None);
    assert_eq!(http_body(b"\r\n\r\n").unwrap(), Vec::<u8>::new());
}

#[test]
fn peer_payload_must_decode_and_be_healthy() {
    let good: Vec<u8> = (0..64u8).collect();
    let hex_good = hex::encode(&good);
    assert_eq!(accept_peer_payload(&hex_good), Some(good.clone()));
    assert_eq!(accept_peer_payload(&hex_good.to_uppercase()), Some(good));
    assert_eq!(accept_peer_payload(&hex::encode([0u8; 64])), None);
    assert_eq!(accept_peer_payload("abc"), None);
    assert_eq!(accept_peer_payload("zz00112233445566778899"), None);
    assert_eq!(accept_peer_payload(""), None);
}
