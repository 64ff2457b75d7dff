use std::sync::mpsc::channel;

use wallblend::sync::thread_event::{EventType, ThreadEvent};
use wallblend::sync::thread_info_connection::{count_progress, ThreadInfoReceiver, TypedLog};
use wallblend::sync::thread_info_sender::{closing_events, ThreadInfoSender};

fn ev(lvl: EventType, data: &str) -> ThreadEvent {
    ThreadEvent { lvl, data: data.to_string() }
}

#[test]
fn event_constructors() {
    let p = ThreadEvent::progress();
    assert_eq!(p.lvl, EventType::PROGRESS);
    assert_eq!(p.data, "");
    let c = ThreadEvent::closed();
    assert_eq!(c.lvl, EventType::CLOSED);
    assert_eq!(c.data, "");
    let i = ThreadEvent::info("hello".to_string());
    assert_eq!(i.lvl, EventType::INFO);
    assert_eq!(i.data, "hello");
}

#[test]
fn typed_log_kinds_and_text() {
    let a = TypedLog::Info("a".to_string());
    let b = TypedLog::Error("b".to_string());
    assert!(a.is_info() && !a.is_error());
    assert!(b.is_error() && !b.is_info());
    assert_eq!(a.data(), "a");
    assert_eq!(b.data(), "b");
}

#[test]
fn receiver_takes_events_in_order() {
    let (tx, rx) = channel();
    let mut r = ThreadInfoReceiver::new("Parse_1".to_string(), rx);
    assert!(!r.closed && r.progress == 0 && r.log_events.is_empty());
    tx.send(ev(EventType::INFO, "one")).unwrap();
    tx.send(ev(EventType::PROGRESS, "")).unwrap();
    tx.send(ev(EventType::ERROR, "bad")).unwrap();
    tx.send(ev(EventType::PROGRESS, "")).unwrap();
    r.pull();
    assert_eq!(r.progress, 2);
    assert!(!r.closed);
    assert_eq!(r.log_events.len(), 2);
    assert_eq!(r.log_events[0].clone().data(), "one");
    assert!(r.log_events[1].is_error());
    assert!(r.has_errors());
    tx.send(ev(EventType::CLOSED, "")).unwrap();
    r.pull();
    assert!(r.closed);
    assert_eq!(r.title, "Parse_1");
    r.pull();
    assert!(r.closed);
    assert_eq!(r.progress, 2);
}

#[test]
fn receiver_without_errors() {
    let (_tx, rx) = channel();
    let mut r = ThreadInfoReceiver::new("t".to_string(), rx);
    r.pull_events(vec![ev(EventType::INFO, "x"), ev(EventType::INFO, "y")]);
    assert!(!r.has_errors());
    assert_eq!(r.log_events.len(), 2);
}

#[test]
fn batches_compose() {
    let events = vec![
        ev(EventType::INFO, "a"),
        ev(EventType::PROGRESS, ""),
        ev(EventType::ERROR, "b"),
        ev(EventType::CLOSED, ""),
        ev(EventType::PROGRESS, ""),
    ];
    let (_t1, rx1) = channel();
    let mut one = ThreadInfoReceiver::new("t".to_string(), rx1);
    one.pull_events(events.clone());
    let (_t2, rx2) = channel();
    let mut two = ThreadInfoReceiver::new("t".to_string(), rx2);
    two.pull_events(events[..2].to_vec());
    two.pull_events(events[2..].to_vec());
    assert_eq!(one.progress, two.progress);
    assert_eq!(one.closed, two.closed);
    let a: Vec<String> = one.log_events.iter().map(|l| l.clone().data()).collect();
    let b: Vec<String> = two.log_events.iter().map(|l| l.clone().data()).collect();
    assert_eq!(a, b);
    assert_eq!(one.progress, 2);
    assert!(one.closed);
}

#[test]
fn progress_is_counted() {
    let events = vec![ev(EventType::PROGRESS, ""), ev(EventType::INFO, "x"), ev(EventType::PROGRESS, "")];
    assert_eq!(count_progress(&events), Some(2));
    assert_eq!(count_progress(&vec![]), Some(0));
}

#[test]
fn sender_reports_events() {
    let (tx, rx) = channel();
    let mut s = ThreadInfoSender::new(tx);
    assert!(s.info("hello".to_string()).is_ok());
    assert!(s.error("oops".to_string()).is_ok());
    assert!(s.progress().is_ok());
    assert!(s.closed().is_ok());
    let got: Vec<ThreadEvent> = rx.try_iter().collect();
    let kinds: Vec<EventType> = got.iter().map(|e| e.lvl).collect();
    assert_eq!(
        kinds,
        vec![EventType::INFO, EventType::ERROR, EventType::PROGRESS, EventType::INFO, EventType::CLOSED]
    );
    assert_eq!(got[0].data, "hello");
    assert_eq!(got[1].data, "oops");
    assert_eq!(got[3].data, "Closed.");
}

#[test]
fn closing_report_logs_then_closes() {
    let events = closing_events();
    assert_eq!(events.len(), 2);
    assert_eq!(events[0].lvl, EventType::INFO);
    assert_eq!(events[0].data, "Closed.");
    assert_eq!(events[1].lvl, EventType::CLOSED);
    assert_eq!(events[1].data, "");
}

#[test]
fn sender_hands_back_what_it_could_not_send() {
    let (tx, rx) = channel();
    drop(rx);
    let mut s = ThreadInfoSender::new(tx);
    let back = s.info("lost".to_string()).unwrap_err();
    assert_eq!(back.lvl, EventType::INFO);
    assert_eq!(back.data, "lost");
    let back = s.closed().unwrap_err();
    assert_eq!(back.lvl, EventType::INFO);
    assert_eq!(back.data, "Closed.");
    let back = s.error("e".to_string()).unwrap_err();
    assert_eq!(back.lvl, EventType::ERROR);
    let back = s.progress().unwrap_err();
    assert_eq!(back.lvl, EventType::PROGRESS);
}

#[test]
fn sender_clones_share_the_channel() {
    let (tx, rx) = channel();
    let s = ThreadInfoSender::new(tx);
    let mut s2 = s.clone();
    s2.progress().unwrap();
    assert_eq!(rx.try_iter().count(), 1);
}
