use std::sync::mpsc::channel;

use wallblend::gui::app::{App, LogEvent, LogLvl, ThreadConnection};
use wallblend::gui::block::image::{fit_to_area, needs_scaling, placement, placement_fits, ImageAlignment};
use wallblend::gui::block::multicolored_barchart::{bar_chart_layout, max_value, BarPlan};

fn entries(values: &[u64]) -> Vec<(String, u64)> {
    values.iter().enumerate().map(|(i, v)| (format!("e{}", i), *v)).collect()
}

fn levels(bar: &BarPlan) -> Vec<u64> {
    bar.rows.iter().map(|r| r.level).collect()
}

fn lines(bar: &BarPlan) -> Vec<u16> {
    bar.rows.iter().map(|r| r.y).collect()
}
use wallblend::gui::sync::thread_connection::ThreadConnection as EventConnection;
use wallblend::gui::sync::thread_event::{EventType, ThreadEvent};
use wallblend::gui::thread_menu::{log_lines, menu_title, thread_status, LineShade, ThreadStatus};
use wallblend::gui::util::StatefulList;
use wallblend::gui::{handle_key_event, key_fits, Event, Key};
use wallblend::sync::thread_info_connection::{ThreadInfoReceiver, TypedLog};

fn connection(title: &str) -> (std::sync::mpsc::Sender<LogEvent>, ThreadConnection) {
    let (tx, rx) = channel();
    (tx, ThreadConnection::new(title.to_string(), rx))
}

#[test]
fn log_event_info() {
    let e = LogEvent::info("x".to_string());
    assert_eq!(e.lvl, LogLvl::INFO);
    assert_eq!(e.data, "x");
}

#[test]
fn connection_pulls_log_lines() {
    let (tx, mut c) = connection("A");
    tx.send(LogEvent::info("1".to_string())).unwrap();
    tx.send(LogEvent { lvl: LogLvl::ERROR, data: "2".to_string() }).unwrap();
    c.pull();
    assert_eq!(c.log_events.len(), 2);
    assert_eq!(c.log_events[1].data, "2");
    c.pull_events(vec![LogEvent::info("3".to_string())]);
    assert_eq!(c.log_events.len(), 3);
}

#[test]
fn selection_wraps_around() {
    let (_a, a) = connection("A");
    let (_b, b) = connection("B");
    let (_c, c) = connection("C");
    let mut list = StatefulList::with_items(vec![a, b, c]);
    assert_eq!(list.selected, None);
    list.next();
    assert_eq!(list.selected, Some(0));
    list.previous();
    assert_eq!(list.selected, Some(2));
    list.next();
    assert_eq!(list.selected, Some(0));
    list.next();
    list.next();
    assert_eq!(list.selected, Some(2));
    list.previous();
    assert_eq!(list.selected, Some(1));
    list.unselect();
    assert_eq!(list.selected, None);
    list.previous();
    assert_eq!(list.selected, Some(0));
}

#[test]
fn next_then_previous_comes_back() {
    let items: Vec<ThreadConnection> = (0..4).map(|i| connection(&i.to_string()).1).collect();
    let mut list = StatefulList::with_items(items);
    for start in 0..4 {
        list.selected = Some(start);
        list.next();
        list.previous();
        assert_eq!(list.selected, Some(start));
        list.previous();
        list.next();
        assert_eq!(list.selected, Some(start));
    }
}

#[test]
fn selected_logs() {
    let (tx, a) = connection("A");
    tx.send(LogEvent::info("hello".to_string())).unwrap();
    let mut app = App::new(vec![a]);
    assert!(app.items.get_selected_logs().is_empty());
    app.tick();
    app.items.next();
    let logs = app.items.get_selected_logs();
    assert_eq!(logs.len(), 1);
    assert_eq!(logs[0].data, "hello");
}

#[test]
fn keys() {
    let (tx, a) = connection("A");
    let (_t2, b) = connection("B");
    let mut app = App::new(vec![a, b]);
    assert!(handle_key_event(Event::Input(Key::Char('q')), &mut app));
    assert!(handle_key_event(Event::Input(Key::Char('`')), &mut app));
    assert!(!handle_key_event(Event::Input(Key::Char('x')), &mut app));
    assert!(!handle_key_event(Event::Input(Key::Down), &mut app));
    assert_eq!(app.items.selected, Some(0));
    assert!(!handle_key_event(Event::Input(Key::Up), &mut app));
    assert_eq!(app.items.selected, Some(1));
    assert!(!handle_key_event(Event::Input(Key::Left), &mut app));
    assert_eq!(app.items.selected, None);
    tx.send(LogEvent::info("tick".to_string())).unwrap();
    assert!(!handle_key_event(Event::Tick, &mut app));
    assert_eq!(app.items.items[0].log_events.len(), 1);
    assert!(!handle_key_event(Event::Input(Key::Right), &mut app));
    assert_eq!(app.items.selected, None);
}

#[test]
fn keys_move_the_focus_between_menu_and_log() {
    let (tx, a) = connection("A");
    let (_t2, b) = connection("B");
    let mut app = App::new(vec![a, b]);
    assert!(app.menu_in_focus);
    tx.send(LogEvent::info("one".to_string())).unwrap();
    tx.send(LogEvent::info("two".to_string())).unwrap();
    handle_key_event(Event::Tick, &mut app);
    handle_key_event(Event::Input(Key::Down), &mut app);
    assert_eq!((app.items.selected, app.log_selected), (Some(0), None));
    handle_key_event(Event::Input(Key::Right), &mut app);
    assert!(!app.menu_in_focus);
    assert_eq!(app.log_selected, Some(0));
    handle_key_event(Event::Input(Key::Up), &mut app);
    assert_eq!(app.log_selected, Some(1));
    handle_key_event(Event::Input(Key::Up), &mut app);
    assert_eq!(app.log_selected, Some(0));
    handle_key_event(Event::Input(Key::Down), &mut app);
    assert_eq!(app.log_selected, Some(1));
    assert_eq!(app.items.selected, Some(0));
    handle_key_event(Event::Input(Key::Right), &mut app);
    assert_eq!(app.log_selected, Some(1));
    handle_key_event(Event::Input(Key::Left), &mut app);
    assert!(app.menu_in_focus);
    assert_eq!((app.items.selected, app.log_selected), (Some(0), None));
    handle_key_event(Event::Input(Key::Left), &mut app);
    assert_eq!(app.items.selected, None);
    handle_key_event(Event::Input(Key::Right), &mut app);
    assert!(!key_fits(Event::Input(Key::Down), &app));
    assert!(key_fits(Event::Input(Key::Up), &app) == false);
    assert!(key_fits(Event::Input(Key::Left), &app));
}

#[test]
fn event_connection() {
    let p = ThreadEvent::progress();
    assert_eq!(p.lvl, EventType::PROGRESS);
    assert_eq!(ThreadEvent::close().lvl, EventType::CLOSE);
    assert_eq!(ThreadEvent::info("i".to_string()).data, "i");
    let (tx, rx) = channel();
    let mut c = EventConnection::new("E".to_string(), rx);
    tx.send(ThreadEvent::info("a".to_string())).unwrap();
    tx.send(ThreadEvent { lvl: EventType::ERROR, data: "dropped".to_string() }).unwrap();
    tx.send(ThreadEvent::progress()).unwrap();
    tx.send(ThreadEvent::progress()).unwrap();
    c.pull();
    assert_eq!(c.log_events, vec!["a".to_string()]);
    assert_eq!(c.progress, 2);
    assert!(!c.closed);
    c.pull_events(vec![ThreadEvent::close()]);
    assert!(c.closed);
}

#[test]
fn bar_chart_layout_example() {
    let bars = bar_chart_layout(0, 0, 20, 5, 7, 1, Some(24), &entries(&[12, 24, 0]));
    assert_eq!(bars.len(), 2);
    assert_eq!(bars[0].x, 0);
    assert_eq!(levels(&bars[0]), vec![8, 8, 0, 0]);
    assert_eq!(lines(&bars[0]), vec![3, 2, 1, 0]);
    assert_eq!(bars[0].name_label.text, "e0");
    assert_eq!((bars[0].name_label.x, bars[0].name_label.y, bars[0].name_label.max_width), (0, 4, 7));
    let l = bars[0].value_label.as_ref().unwrap();
    assert_eq!(l.text, "12");
    assert_eq!((l.x, l.y), (2, 3));
    assert_eq!(bars[1].x, 8);
    assert_eq!(levels(&bars[1]), vec![8, 8, 8, 8]);
    assert_eq!(bars[1].name_label.text, "e1");
    assert_eq!(bars[1].value_label.as_ref().unwrap().x, 10);
}

#[test]
fn bar_chart_partial_cells_and_zero_values() {
    let bars = bar_chart_layout(3, 1, 30, 3, 2, 1, None, &entries(&[3, 0, 1]));
    assert_eq!(bars.len(), 3);
    assert_eq!(levels(&bars[0]), vec![8, 8]);
    assert_eq!(lines(&bars[0]), vec![2, 1]);
    assert_eq!(levels(&bars[1]), vec![0, 0]);
    assert!(bars[1].value_label.is_none());
    assert_eq!(levels(&bars[2]), vec![5, 0]);
    assert_eq!(bars[2].name_label.y, 3);
    assert_eq!(bars[2].x, 9);
    assert_eq!(bars[2].value_label.as_ref().unwrap().x, 9);
    assert!(bar_chart_layout(0, 0, 30, 1, 2, 1, None, &entries(&[3])).is_empty());
    let narrow = bar_chart_layout(0, 0, 30, 3, 2, 0, Some(100), &entries(&[55]));
    assert!(narrow[0].value_label.is_none());
    assert_eq!(max_value(&vec![3, 9, 2]), 9);
    assert_eq!(max_value(&vec![]), 0);
}

#[test]
fn image_placement() {
    let p = placement(10, 5, 4, 6, ImageAlignment::Center);
    assert_eq!((p.ox, p.oy, p.x_end, p.y_end), (3, 1, 7, 4));
    let p = placement(10, 5, 4, 6, ImageAlignment::Right);
    assert_eq!((p.ox, p.x_end), (6, 9));
    let p = placement(10, 5, 4, 6, ImageAlignment::Left);
    assert_eq!((p.ox, p.x_end), (0, 4));
    let p = placement(10, 5, 20, 10, ImageAlignment::Center);
    assert_eq!((p.ox, p.oy, p.x_end, p.y_end), (0, 0, 9, 4));
    assert!(needs_scaling(20, 4, 10, 5));
    assert!(needs_scaling(10, 12, 10, 5));
    assert!(!needs_scaling(10, 11, 10, 5));
}

#[test]
fn pictures_are_scaled_to_the_area_only_when_too_big() {
    let raw: Vec<u8> = (0..8u8).flat_map(|k| vec![k * 10, k * 10, k * 10, 255]).collect();
    let (w, h, scaled) = fit_to_area(raw.clone(), 4, 2, 2, 1);
    assert_eq!((w, h), (2, 2));
    assert_eq!(scaled.len(), 16);
    for px in scaled.chunks(4) {
        assert!(raw.chunks(4).any(|q| q == px));
    }
    let (w, h, same) = fit_to_area(raw.clone(), 4, 2, 4, 1);
    assert_eq!((w, h), (4, 2));
    assert_eq!(same, raw);
}

#[test]
fn image_placement_fits() {
    assert!(placement_fits(10, 5, 4, 6, ImageAlignment::Center));
    assert!(placement_fits(10, 5, 20, 10, ImageAlignment::Center));
    assert!(!placement_fits(0, 5, 4, 6, ImageAlignment::Left));
    assert!(!placement_fits(10, 0, 4, 6, ImageAlignment::Left));
    assert!(!placement_fits(10, 5, 4, 12, ImageAlignment::Left));
    assert!(placement_fits(10, 5, 4, 10, ImageAlignment::Left));
    assert!(placement_fits(10, 5, 65535, 2, ImageAlignment::Right));
    assert!(placement_fits(10, 5, 65535, 2, ImageAlignment::Left));
}

#[test]
fn bar_chart_at_the_right_edge() {
    let bars = bar_chart_layout(65530, 65533, 6, 3, 2, 1, None, &entries(&[1, 2]));
    assert_eq!(bars.len(), 2);
    assert_eq!(bars[0].x, 65530);
    assert_eq!(bars[1].x, 65533);
    assert_eq!(bars[1].value_label.as_ref().unwrap().x, 65533);
    assert_eq!(lines(&bars[0]), vec![65534, 65533]);
    assert_eq!(bars[0].value_label.as_ref().unwrap().y, 65533);
    assert_eq!(bars[0].name_label.y, 65534);
}

#[test]
fn bar_chart_small_area() {
    let data = vec![("a".to_string(), 12)];
    let bars = bar_chart_layout(0, 0, 3, 3, 1, 1, Some(16), &data);
    assert_eq!(bars.len(), 1);
    assert_eq!(levels(&bars[0]), vec![8, 4]);
    assert_eq!(lines(&bars[0]), vec![1, 0]);
    assert!(bars[0].value_label.is_none());
    let name = &bars[0].name_label;
    assert_eq!((name.x, name.y, name.text.as_str(), name.max_width), (0, 2, "a", 1));
}

#[test]
fn menu_entries() {
    let (_tx, rx) = channel();
    let mut r = ThreadInfoReceiver::new("Get_1".to_string(), rx);
    assert_eq!(thread_status(&r), ThreadStatus::Running);
    assert_eq!(menu_title(&r), "Get_1");
    r.closed = true;
    assert_eq!(thread_status(&r), ThreadStatus::Closed);
    assert_eq!(menu_title(&r), "Get_1 [closed]");
    r.log_events.push(TypedLog::Error("x".to_string()));
    assert_eq!(thread_status(&r), ThreadStatus::Failed);
    assert_eq!(menu_title(&r), "Get_1 [failed]");
}

#[test]
fn log_view_lines() {
    let items = vec![
        TypedLog::Info("first".to_string()),
        TypedLog::Error("second".to_string()),
        TypedLog::Info("third".to_string()),
    ];
    let lines = log_lines(&items);
    assert_eq!(lines.len(), 3);
    assert_eq!(lines[0].number, "[3]");
    assert_eq!(lines[0].text, "third");
    assert_eq!(lines[0].shade, LineShade::Dark);
    assert_eq!(lines[1].number, "[2]");
    assert_eq!(lines[1].shade, LineShade::Error);
    assert_eq!(lines[2].text, "first");
    assert_eq!(lines[2].shade, LineShade::Dark);
}

#[test]
fn bars_show_their_height_and_do_not_overlap() {
    let values = vec![5, 13, 40, 100];
    let bars = bar_chart_layout(2, 0, 40, 6, 3, 2, Some(20), &entries(&values));
    assert_eq!(bars.len(), 4);
    for (i, bar) in bars.iter().enumerate() {
        let d = values[i] * 5 * 8 / 20;
        let shown: u64 = levels(bar).iter().sum();
        assert_eq!(shown, d.min(8 * 5));
        if i + 1 < bars.len() {
            assert!(bar.x + 3 + 2 <= bars[i + 1].x);
        }
        assert!(bar.x + 3 <= 2 + 40);
    }
}
