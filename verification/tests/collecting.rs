use wallblend::job::accumulate::RgbPicture;
use wallblend::job::summarize::{Collected, ResultCollector};
use wallblend::job::thread_broadcaster::{EndCounter, Forward, ThreadBroadcaster, Tick, TickError};
use wallblend::job::{JobEffect, Received};

fn pic(raw: Vec<u8>) -> RgbPicture {
    RgbPicture::from_raw(1, 1, &raw).unwrap()
}

fn text(e: &JobEffect) -> String {
    match e {
        JobEffect::Info(t) | JobEffect::Print(t) | JobEffect::Error(t) => t.clone(),
        _ => panic!("no text"),
    }
}

fn waiting(c: Collected) -> ResultCollector {
    match c {
        Collected::Waiting(c) => c,
        Collected::Done(_) => panic!("done too early"),
    }
}

#[test]
fn summarizing_collector_averages_all_results() {
    let c = ResultCollector::new(3, 3);
    let (c, eff) = c.receive(Received::End);
    assert!(matches!(eff[0], JobEffect::Progress));
    assert_eq!(text(&eff[1]), "None 1 / 3");
    let c = waiting(c);
    let (c, eff) = c.receive(Received::Disconnected);
    assert!(eff.is_empty());
    let c = waiting(c);
    let (c, eff) = c.receive(Received::Picture(pic(vec![0, 0, 200])));
    assert_eq!(text(&eff[1]), "Received first image");
    let c = waiting(c);
    assert_eq!(c.results_received, 2);
    let (c, eff) = c.receive(Received::Picture(pic(vec![100, 50, 0])));
    assert_eq!(eff.len(), 3);
    assert_eq!(text(&eff[0]), "Some 3 / 3");
    assert!(matches!(eff[1], JobEffect::Progress));
    assert!(matches!(&eff[2], JobEffect::Save { path } if path == "./result.jpeg"));
    match c {
        Collected::Done(p) => assert_eq!(p.pixel(0), [50, 100, 200]),
        _ => panic!("expected the result"),
    }
}

#[test]
fn summarizing_collector_with_one_page() {
    let (c, eff) = ResultCollector::new(1, 4).receive(Received::Picture(pic(vec![1, 2, 3])));
    assert_eq!(eff.len(), 3);
    assert!(matches!(eff[2], JobEffect::Closed));
    match c {
        Collected::Done(p) => assert_eq!(p.pixel(0), [1, 2, 3]),
        _ => panic!("expected the result"),
    }
}

#[test]
fn printing_collector() {
    let c = ResultCollector::new(2, 2);
    let (c, eff) = c.receive_printing(Received::Picture(pic(vec![10, 20, 30])));
    assert_eq!(eff.len(), 1);
    assert_eq!(text(&eff[0]), "none 1 / 2");
    let c = waiting(c);
    let (c, eff) = c.receive_printing(Received::End);
    assert_eq!(text(&eff[0]), "some 2 / 2");
    assert!(matches!(&eff[1], JobEffect::Save { path } if path == "./result.jpeg"));
    match c {
        Collected::Done(p) => assert_eq!(p.pixel(0), [10, 20, 30]),
        _ => panic!("expected the result"),
    }
    let (c, _) = ResultCollector::new(1, 2).receive_printing(Received::Picture(pic(vec![4, 5, 6])));
    assert!(matches!(c, Collected::Done(_)));
}

#[test]
fn end_counter_floods_after_the_last_producer() {
    let mut c = EndCounter::<u8>::new(2);
    assert!(matches!(c.on_message(Some(7)), Forward::Pass(7)));
    assert!(matches!(c.on_message(None), Forward::Hold));
    assert_eq!(c.finished_threads, 1);
    assert!(matches!(c.on_message(Some(9)), Forward::Pass(9)));
    assert!(matches!(c.on_message(None), Forward::FloodEnd));
    assert!(matches!(c.on_message(None), Forward::FloodEnd));
    assert_eq!(c.finished_threads, 3);
    let mut none = EndCounter::<u8>::new(0);
    assert!(matches!(none.on_message(None), Forward::FloodEnd));
}

#[test]
fn broadcaster_passes_values_in_order_then_floods() {
    let (tx, mut b, rx) = ThreadBroadcaster::<u8>::all_in_one(2);
    tx.send(Some(1)).unwrap();
    tx.send(None).unwrap();
    tx.send(Some(2)).unwrap();
    tx.send(None).unwrap();
    drop(tx);
    assert!(matches!(b.tick_once(), Ok(Tick::Handled)));
    assert!(matches!(b.tick_once(), Ok(Tick::Handled)));
    assert!(matches!(b.tick_once(), Ok(Tick::Handled)));
    assert_eq!(rx.recv().unwrap(), Some(1));
    assert_eq!(rx.recv().unwrap(), Some(2));
    assert!(matches!(b.tick_once(), Ok(Tick::Flood)));
    assert!(b.send_end());
    assert!(b.send_end());
    assert_eq!(rx.recv().unwrap(), None);
    assert_eq!(rx.recv().unwrap(), None);
    drop(rx);
    assert!(!b.send_end());
    assert!(matches!(b.tick_once(), Ok(Tick::Closed)));
}

#[test]
fn broadcaster_gives_back_what_it_cannot_pass_on() {
    let (tx, mut b, rx) = ThreadBroadcaster::<u8>::all_in_one(1);
    drop(rx);
    tx.send(Some(5)).unwrap();
    assert!(matches!(b.tick_once(), Err(TickError::SendFailed(Some(5)))));
}
