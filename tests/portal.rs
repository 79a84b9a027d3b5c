use std::sync::atomic::Ordering;

use tiny_portal::control::PortalControl;
use tiny_portal::datagram::{UdpPortForwarder, DEFAULT_UDP_TIMEOUT_MS, UDP_CHECK_INTERVAL_MS};
use tiny_portal::endpoint::{format_status, Protocol};
use tiny_portal::portal::{Engine, Portal};
use tiny_portal::session_table::{idle_at, ClientAddr, SessionTable};
use tiny_portal::stream::TcpPortForwarder;
use tiny_portal::MAX_UDP_PACKET_SIZE;

fn client(port: u16) -> ClientAddr {
    ClientAddr { is_v6: false, ip: 0x7f00_0001, port }
}

#[test]
fn tcp_status_line() {
    let p = TcpPortForwarder::new("127.0.0.1:8080", "10.0.0.2:80");
    assert_eq!(p.status(), "127.0.0.1:8080 -> 10.0.0.2:80 (TCP)");
    assert_eq!(p.src, "127.0.0.1:8080");
    assert_eq!(p.dst, "10.0.0.2:80");
}

#[test]
fn udp_status_line() {
    let p = UdpPortForwarder::new("[::]:5353", "8.8.8.8:53");
    assert_eq!(p.status(), "[::]:5353 -> 8.8.8.8:53 (UDP)");
}

#[test]
fn format_status_with_empty_addresses() {
    assert_eq!(format_status("", "", Protocol::Tcp), " ->  (TCP)");
    assert_eq!(Protocol::Udp.label(), "UDP");
}

#[test]
fn engine_selects_transport_by_tag() {
    let t = Engine::new(Protocol::Tcp, "a:1", "b:2");
    let u = Engine::new(Protocol::Udp, "a:1", "b:2");
    assert_eq!(t.protocol(), Protocol::Tcp);
    assert_eq!(u.protocol(), Protocol::Udp);
    assert_eq!(t.status(), "a:1 -> b:2 (TCP)");
    assert_eq!(u.status(), "a:1 -> b:2 (UDP)");
    assert!(matches!(t, Engine::Stream(_)));
    assert!(matches!(u, Engine::Datagram(_)));
}

#[test]
fn counter_starts_at_zero_and_is_shared() {
    let p = TcpPortForwarder::new("a:1", "b:2");
    let c1 = p.get_conn_cnt();
    let c2 = p.get_conn_cnt();
    assert_eq!(c1.load(Ordering::Relaxed), 0);
    c1.fetch_add(3, Ordering::Relaxed);
    assert_eq!(c2.load(Ordering::Relaxed), 3);
    let e = Engine::new(Protocol::Udp, "a:1", "b:2");
    e.get_conn_cnt().store(7, Ordering::Relaxed);
    assert_eq!(e.get_conn_cnt().load(Ordering::Relaxed), 7);
}

#[test]
fn datagram_defaults() {
    assert_eq!(MAX_UDP_PACKET_SIZE, 65536);
    assert_eq!(UDP_CHECK_INTERVAL_MS, 5000);
    let p = UdpPortForwarder::new("a:1", "b:2");
    assert_eq!(p.idle_timeout_ms(), DEFAULT_UDP_TIMEOUT_MS);
    let p = p.with_idle_timeout(30000);
    assert_eq!(p.idle_timeout_ms(), 30000);
    assert_eq!(p.status(), "a:1 -> b:2 (UDP)");
}

#[test]
fn idle_threshold_is_strict() {
    assert!(!idle_at(1000, 1100, 100));
    assert!(idle_at(1000, 1101, 100));
    assert!(!idle_at(1000, 500, 0));
    assert!(!idle_at(1000, 1000, 0));
    assert!(idle_at(0, u64::MAX, u64::MAX - 1));
}

#[test]
fn insert_find_and_duplicate() {
    let mut t: SessionTable<&str> = SessionTable::new();
    assert_eq!(t.len(), 0);
    assert_eq!(t.find(client(1)), None);
    assert_eq!(t.insert(client(1), 10, "one"), Ok(0));
    assert_eq!(t.insert(client(2), 20, "two"), Ok(1));
    assert_eq!(t.insert(client(1), 30, "again"), Err("again"));
    assert_eq!(t.len(), 2);
    assert_eq!(t.find(client(2)), Some(1));
    let s = t.session(0);
    assert_eq!(s.handle, "one");
    assert_eq!(s.last_activity, 10);
}

#[test]
fn same_port_other_family_is_another_client() {
    let mut t: SessionTable<u32> = SessionTable::new();
    let v4 = ClientAddr { is_v6: false, ip: 1, port: 9 };
    let v6 = ClientAddr { is_v6: true, ip: 1, port: 9 };
    assert_eq!(t.insert(v4, 0, 4), Ok(0));
    assert_eq!(t.insert(v6, 0, 6), Ok(1));
    assert_eq!(t.len(), 2);
}

#[test]
fn interleaved_datagrams_keep_one_session_per_client() {
    let mut t: SessionTable<u32> = SessionTable::new();
    let arrivals = [1u16, 2, 1, 1, 3, 2, 1, 3];
    let mut created = 0u32;
    for (k, port) in arrivals.iter().enumerate() {
        let now = k as u64 * 10;
        if t.route(client(*port), now).is_none() {
            created += 1;
            assert!(t.insert(client(*port), now, created).is_ok());
        }
    }
    assert_eq!(created, 3);
    assert_eq!(t.len(), 3);
    let i = t.find(client(1)).unwrap();
    assert_eq!(t.session(i).last_activity, 60);
    assert_eq!(t.session(i).handle, 1);
}

#[test]
fn touch_updates_only_that_client() {
    let mut t: SessionTable<u32> = SessionTable::new();
    t.insert(client(1), 5, 1).unwrap();
    t.insert(client(2), 5, 2).unwrap();
    assert!(t.touch(client(2), 99));
    assert!(!t.touch(client(3), 99));
    assert_eq!(t.session(0).last_activity, 5);
    assert_eq!(t.session(1).last_activity, 99);
    assert_eq!(t.len(), 2);
}

#[test]
fn eviction_removes_only_idle_sessions() {
    let mut t: SessionTable<u32> = SessionTable::new();
    t.insert(client(1), 0, 1).unwrap();
    t.insert(client(2), 50, 2).unwrap();
    t.insert(client(3), 10, 3).unwrap();
    t.insert(client(4), 200, 4).unwrap();
    let removed = t.evict_idle(110, 60);
    let gone: Vec<u32> = removed.iter().map(|s| s.handle).collect();
    assert_eq!(gone, vec![1, 3]);
    assert_eq!(t.len(), 2);
    assert_eq!(t.session(0).handle, 2);
    assert_eq!(t.session(1).handle, 4);
    assert_eq!(t.find(client(1)), None);
    assert!(t.evict_idle(110, 60).is_empty());
}

#[test]
fn eviction_on_empty_table() {
    let mut t: SessionTable<u32> = SessionTable::new();
    assert!(t.evict_idle(1_000_000, 0).is_empty());
    assert_eq!(t.len(), 0);
}

#[test]
fn activity_within_timeout_prevents_eviction() {
    let mut t: SessionTable<u32> = SessionTable::new();
    t.insert(client(1), 0, 1).unwrap();
    t.touch(client(1), 100);
    assert!(t.evict_idle(160, 60).is_empty());
    assert_eq!(t.evict_idle(161, 60).len(), 1);
}

#[test]
fn register_and_reap_publish_session_count() {
    let p = UdpPortForwarder::new("a:1", "b:2").with_idle_timeout(1000);
    let cnt = p.get_conn_cnt();
    let mut t: SessionTable<u32> = SessionTable::new();
    let (r, n) = p.register_session(&mut t, client(1), 0, 1);
    assert_eq!((r, n), (Ok(0), 1));
    let (r, n) = p.register_session(&mut t, client(2), 500, 2);
    assert_eq!((r, n), (Ok(1), 2));
    assert_eq!(cnt.load(Ordering::Relaxed), 2);
    let (r, n) = p.register_session(&mut t, client(1), 600, 9);
    assert_eq!((r, n), (Err(9), 2));
    let (removed, n) = p.reap(&mut t, 1200);
    assert_eq!(removed.len(), 1);
    assert_eq!(removed[0].handle, 1);
    assert_eq!(n, 1);
    assert_eq!(cnt.load(Ordering::Relaxed), 1);
    assert_eq!(p.publish_count(&t), 1);
}

#[test]
fn control_start_stop_and_repeat_stop() {
    let mut c: PortalControl<u8> = PortalControl::new();
    assert!(!c.is_running());
    assert_eq!(c.stop(), None);
    assert_eq!(c.launch(1), Ok(()));
    assert!(c.is_running());
    assert_eq!(c.launch(2), Err(2));
    assert_eq!(c.stop(), Some(1));
    assert!(!c.is_running());
    assert_eq!(c.stop(), None);
    assert!(!c.is_running());
}

#[test]
fn control_notices_finished_run() {
    let mut c: PortalControl<u8> = PortalControl::new();
    c.launch(5).unwrap();
    assert!(c.refresh(false));
    assert!(!c.refresh(true));
    assert_eq!(c.stop(), None);
    assert_eq!(c.launch(6), Ok(()));
}
