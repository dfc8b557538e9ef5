use gadu::conn::{Conn, IoOutcome, NetAddr, StreamKind};
use gadu::events::{child_poll_timeout_ms, ConnEventHandler, ConnMsg, EventPlan, ExchangeStep, Interest};
use gadu::net_events::NetEvents;
use gadu::network_server::{apply_opened, round_ids, RoundRobin};
use gadu::tables::{ConnTable, TagTable};

fn conn() -> Conn {
    Conn::new(StreamKind::UnsecuredTcpStream, NetAddr::NetSocketAddress("x".to_string()))
}

struct Echo;

impl NetEvents<Conn> for Echo {
    fn event_opened(&self, _id: usize, _conn: &mut Conn) -> (Vec<u8>, bool) {
        (b"hello".to_vec(), false)
    }
    fn event_closed(&self, _id: usize, _conn: &mut Conn) -> Result<bool, String> {
        Ok(false)
    }
    fn event_data(
        &self,
        _id: usize,
        tags: &mut TagTable,
        input: &mut Vec<u8>,
        output: &mut Vec<u8>,
    ) -> bool {
        tags.set("seen", "yes");
        output.extend_from_slice(input);
        let quit = input.as_slice() == b"quit";
        input.clear();
        quit
    }
}

#[test]
fn register_interest() {
    let h = ConnEventHandler::new(3);
    let mut c = conn();
    assert_eq!(h.register(1, &c), Some(Interest::ReadOnly));
    c.output = vec![1];
    assert_eq!(h.register(1, &c), Some(Interest::ReadWrite));
    c.output.clear();
    c.close = true;
    assert_eq!(h.register(1, &c), None);
}

#[test]
fn add_connection_waits_for_first_event() {
    let mut h = ConnEventHandler::new(0);
    assert_eq!(h.add_connection(5, conn(), Err("no poll".to_string())), Err("no poll".to_string()));
    assert_eq!(h.conns.len(), 0);
    assert_eq!(h.add_connection(5, conn(), Ok(())), Ok(()));
    assert!(h.conns.contains_key(5));

    let mut streams = ConnTable::new();
    let (found, plan) = ConnEventHandler::start_event(&mut streams, 5, false, false);
    assert!(found.is_none());
    assert_eq!(plan, EventPlan::Skip);
    assert!(h.finish_event(&mut streams, 5, found, false));
    assert!(streams.contains_key(5));
    assert!(!h.conns.contains_key(5));
}

#[test]
fn check_error_event_flags() {
    let a = NetAddr::NetSocketAddress("a".to_string());
    assert!(!ConnEventHandler::check_error_event(&a, false, false));
    assert!(ConnEventHandler::check_error_event(&a, true, false));
    assert!(ConnEventHandler::check_error_event(&a, false, true));
}

#[test]
fn start_event_plans() {
    let mut h = ConnEventHandler::new(0);
    let mut streams = ConnTable::new();
    h.add_connection(1, conn(), Ok(())).unwrap();
    h.finish_event(&mut streams, 1, None, false);
    let (c, plan) = ConnEventHandler::start_event(&mut streams, 1, false, false);
    assert_eq!(plan, EventPlan::Exchange);
    assert!(!streams.contains_key(1));
    assert!(!h.finish_event(&mut streams, 1, c, false));
    assert!(streams.contains_key(1));

    let (c, plan) = ConnEventHandler::start_event(&mut streams, 1, true, false);
    assert_eq!(plan, EventPlan::Skip);
    let mut c = c.unwrap();
    assert!(c.close);
    let reopened = false;
    assert!(h.close_connection2(1, &mut c, reopened));
    h.finish_event(&mut streams, 1, Some(c), true);
    assert!(!streams.contains_key(1));
}

#[test]
fn a_closed_flag_is_cleared_by_the_next_event() {
    let mut streams = ConnTable::new();
    let mut h = ConnEventHandler::new(0);
    let mut c = conn();
    c.close = true;
    h.add_connection(2, c, Ok(())).unwrap();
    h.finish_event(&mut streams, 2, None, false);
    let (c, plan) = ConnEventHandler::start_event(&mut streams, 2, true, true);
    assert!(!c.unwrap().close);
    assert_eq!(plan, EventPlan::Exchange);
}

#[test]
fn pending_handshake_is_planned() {
    let mut streams = ConnTable::new();
    let mut h = ConnEventHandler::new(0);
    let c = Conn::new(StreamKind::SslMidHandshakeStream, NetAddr::NetSocketAddress("t".to_string()));
    h.add_connection(4, c, Ok(())).unwrap();
    h.finish_event(&mut streams, 4, None, false);
    let (_, plan) = ConnEventHandler::start_event(&mut streams, 4, false, false);
    assert_eq!(plan, EventPlan::Handshake);
}

#[test]
fn exchange_reads_then_writes() {
    let mut c = conn();
    assert_eq!(ConnEventHandler::exchange_step(&c), ExchangeStep::Read);
    let packet = *b"ping";
    let (close, answer) = ConnEventHandler::exchange_read::<Conn, Echo>(9, &mut c, &packet, IoOutcome::Done(4), &Echo);
    assert!(!close);
    assert!(!answer);
    assert_eq!(c.output, b"ping".to_vec());
    assert!(c.input.is_empty());
    assert_eq!(c.tags.get("seen"), Some("yes".to_string()));
    assert!(ConnEventHandler::exchange_continues(&c));
    assert_eq!(ConnEventHandler::exchange_step(&c), ExchangeStep::Write);
    assert!(!c.write(IoOutcome::Done(4)));
    assert!(!ConnEventHandler::exchange_continues(&c));

    let quit = *b"quit";
    let (close, answer) = ConnEventHandler::exchange_read::<Conn, Echo>(9, &mut c, &quit, IoOutcome::Done(4), &Echo);
    assert!(!close);
    assert!(answer);
    assert!(c.close);
    assert!(!ConnEventHandler::exchange_continues(&c));
    c.output.clear();
    assert_eq!(ConnEventHandler::exchange_step(&c), ExchangeStep::Stop);
}

#[test]
fn exchange_read_reports_peer_close() {
    let mut c = conn();
    let (close, _) = ConnEventHandler::exchange_read::<Conn, Echo>(1, &mut c, &[0u8; 8], IoOutcome::Done(0), &Echo);
    assert!(close);
}

#[test]
fn settle_interest_tracks_output() {
    let mut c = conn();
    c.output = vec![1];
    assert_eq!(ConnEventHandler::settle_interest(&mut c, false), (Some(Interest::ReadWrite), false));
    assert!(c.reg_write);
    assert_eq!(ConnEventHandler::settle_interest(&mut c, false), (None, false));
    c.output.clear();
    c.close = true;
    assert_eq!(ConnEventHandler::settle_interest(&mut c, false), (Some(Interest::ReadOnly), true));
    assert!(!c.reg_write);
    assert_eq!(ConnEventHandler::settle_interest(&mut c, false), (None, true));
}

#[test]
fn close_connection_kept_when_reopened() {
    let mut h = ConnEventHandler::new(0);
    h.add_connection(6, conn(), Ok(())).unwrap();
    let mut c = conn();
    c.reg_write = true;
    assert!(!h.close_connection2(6, &mut c, true));
    assert!(!c.reg_write);
    assert!(h.conns.contains_key(6));
    assert!(h.close_connection2(6, &mut c, false));
    assert!(!h.conns.contains_key(6));
}

#[test]
fn messages_reach_known_connections_in_order() {
    let mut h = ConnEventHandler::new(0);
    let mut streams = ConnTable::new();
    h.add_connection(1, conn(), Ok(())).unwrap();
    h.add_connection(2, conn(), Ok(())).unwrap();
    h.finish_event(&mut streams, 1, None, false);
    h.finish_event(&mut streams, 2, None, false);
    let msgs = vec![
        ConnMsg { id: 1, output: vec![1, 2] },
        ConnMsg { id: 3, output: vec![9] },
        ConnMsg { id: 1, output: vec![3] },
    ];
    ConnEventHandler::deliver_messages(&mut streams, &msgs);
    let (c1, _) = ConnEventHandler::start_event(&mut streams, 1, false, false);
    let c1 = c1.unwrap();
    assert_eq!(c1.output, vec![1, 2, 3]);
    assert!(c1.reg_write);
    let (c2, _) = ConnEventHandler::start_event(&mut streams, 2, false, false);
    let c2 = c2.unwrap();
    assert!(c2.output.is_empty());
    assert!(!c2.reg_write);
    assert!(!streams.contains_key(3));
}

#[test]
fn round_robin_order() {
    let mut rr = RoundRobin::new();
    let picks: Vec<usize> = (0..8).map(|_| rr.next_index(3)).collect();
    assert_eq!(picks, vec![0, 1, 2, 0, 0, 1, 2, 0]);
    let mut one = RoundRobin::new();
    assert_eq!(one.next_index(1), 0);
    assert_eq!(one.next_index(1), 0);
}

#[test]
fn opened_answer_is_applied() {
    let mut c = conn();
    apply_opened(&mut c, b"hi".to_vec(), false);
    assert_eq!(c.output, b"hi".to_vec());
    assert!(c.reg_write);
    let mut d = conn();
    apply_opened(&mut d, b"bye".to_vec(), true);
    assert!(d.close);
    assert!(d.output.is_empty());
    let mut e = conn();
    apply_opened(&mut e, vec![], false);
    assert!(!e.reg_write && !e.close);
    let (out, close) = Echo.event_opened(1, &mut e);
    apply_opened(&mut e, out, close);
    assert_eq!(e.output, b"hello".to_vec());
}

#[test]
fn poll_timeouts() {
    assert_eq!(child_poll_timeout_ms(true), 100);
    assert_eq!(child_poll_timeout_ms(false), 250);
}

#[test]
fn accept_rounds_are_numbered() {
    assert_eq!(round_ids(10, 0), (vec![], 11));
    assert_eq!(round_ids(10, 1), (vec![11], 11));
    assert_eq!(round_ids(10, 3), (vec![11, 12, 13], 13));
}

#[test]
fn end_event_closes_for_good_or_keeps() {
    let mut h = ConnEventHandler::new(0);
    let mut streams = ConnTable::new();
    h.add_connection(1, conn(), Ok(())).unwrap();
    h.add_connection(2, conn(), Ok(())).unwrap();
    assert_eq!(h.end_event(&mut streams, 1, None, false, false), (false, true));
    assert_eq!(h.end_event(&mut streams, 2, None, false, false), (false, true));
    let (c, _) = ConnEventHandler::start_event(&mut streams, 1, true, false);
    let mut c = c.unwrap();
    c.reg_write = true;
    assert_eq!(h.end_event(&mut streams, 1, Some(c), true, true), (false, false));
    let (c, _) = ConnEventHandler::start_event(&mut streams, 1, false, false);
    let c = c.unwrap();
    assert!(!c.reg_write);
    assert_eq!(h.end_event(&mut streams, 1, Some(c), true, false), (true, false));
    assert!(!streams.contains_key(1));
    assert!(streams.contains_key(2));
}

#[test]
fn tag_table_remove_and_list() {
    let mut c = conn();
    c.add_tag("a", "1");
    c.add_tag("b", "2");
    assert!(c.tags.contains_key("a"));
    let mut names = c.tags.names();
    names.sort();
    assert_eq!(names, vec!["a".to_string(), "b".to_string()]);
    assert_eq!(c.tags.remove("a"), Some("1".to_string()));
    assert_eq!(c.tags.remove("a"), None);
    assert!(!c.tags.contains_key("a"));
    c.tags.clear();
    assert_eq!(c.tags.len(), 0);
}
