use oebb_monitor::app::{App, ConnectionState, ContentType};
use oebb_monitor::lang::Lang;
use oebb_monitor::live::{page_urls, update_params, Backoff, Session};
use oebb_monitor::model::{Destination, Remark, TrainData, TrainItem, UpdateParams, WsMessage};
use oebb_monitor::time::ClockTime;

fn train(id: &str, scheduled: &str) -> TrainItem {
    TrainItem { id: id.to_string(), scheduled: scheduled.to_string(), ..Default::default() }
}

fn data(dep: Vec<TrainItem>, arr: Vec<TrainItem>, notices: Option<Vec<&str>>) -> TrainData {
    TrainData {
        departures: Some(dep),
        arrivals: Some(arr),
        special_notices: notices.map(|n| {
            n.into_iter().map(|t| Remark { text: Destination { default: t.to_string() } }).collect()
        }),
    }
}

const NOW: ClockTime = ClockTime { hour: 10, minute: 4, second: 5 };

fn ids(app: &App) -> Vec<String> {
    app.items.iter().map(|t| t.id.clone()).collect()
}

#[test]
fn updates_merge_sort_and_deduplicate() {
    let mut app = App::new(Lang::De, "{}");
    let mut s = Session::new();
    s.on_update(&mut app, data(vec![train("b", "10:05"), train("a", "10:01")], vec![], None), NOW);
    assert_eq!(ids(&app), vec!["a", "b"]);
    s.on_update(
        &mut app,
        data(vec![train("c", "10:03"), train("a", "10:01"), train("c", "10:09")], vec![train("x", "09:00")], Some(vec!["Notice"])),
        NOW,
    );
    assert_eq!(ids(&app), vec!["a", "c", "b"]);
    assert_eq!(app.special_notices.len(), 1);
    assert_eq!(app.special_notices[0].text.default, "Notice");
    assert_eq!(app.last_update, Some(NOW));
    assert_eq!(app.connection, ConnectionState::Connected);
    assert_eq!(s.update_count, 2);
    // An update without notices keeps the old ones.
    s.on_update(&mut app, data(vec![], vec![], None), NOW);
    assert_eq!(app.special_notices.len(), 1);
}

#[test]
fn equal_times_keep_arrival_order() {
    let mut app = App::new(Lang::De, "{}");
    let mut s = Session::new();
    s.on_update(&mut app, data(vec![train("z", "10:00"), train("y", "10:00"), train("w", "09:59")], vec![], None), NOW);
    assert_eq!(ids(&app), vec!["w", "z", "y"]);
}

#[test]
fn arrivals_board_takes_arrivals() {
    let mut app = App::new(Lang::De, "{}");
    app.content_type = ContentType::Arrival;
    let mut s = Session::new();
    s.on_update(&mut app, data(vec![train("d", "1")], vec![train("a", "1")], None), NOW);
    assert_eq!(ids(&app), vec!["a"]);
}

#[test]
fn selection_follows_train_id() {
    let mut app = App::new(Lang::De, "{}");
    let mut s = Session::new();
    s.on_update(&mut app, data(vec![train("b", "10:05"), train("c", "10:07")], vec![], None), NOW);
    app.selected_train_index = Some(0);
    app.selected_train_id = Some("b".to_string());
    s.on_update(&mut app, data(vec![train("a", "10:01")], vec![], None), NOW);
    assert_eq!(app.selected_train_index, Some(1));
    app.selected_train_id = Some("gone".to_string());
    s.on_update(&mut app, data(vec![], vec![], None), NOW);
    assert_eq!(app.selected_train_index, None);
}

#[test]
fn session_start_clears_only_on_change() {
    let mut app = App::new(Lang::De, "{}");
    app.items = vec![train("a", "1")];
    app.selected_train_index = Some(0);
    let target = app.begin_session(&None);
    assert!(app.items.is_empty());
    assert_eq!(app.selected_train_index, None);
    assert_eq!(target.0, "8101001");
    app.items = vec![train("a", "1")];
    app.last_update = Some(NOW);
    let again = app.begin_session(&Some(target));
    assert_eq!(app.items.len(), 1);
    assert_eq!(app.connection, ConnectionState::Connecting);
    assert_eq!(app.last_update, None);
    app.content_type = ContentType::Arrival;
    app.begin_session(&Some(again));
    assert!(app.items.is_empty());
}

#[test]
fn failure_only_when_all_pages_fail() {
    let mut app = App::new(Lang::De, "{}");
    let mut s = Session::new();
    for _ in 0..4 {
        s.on_failed(&mut app, 5);
    }
    assert_eq!(app.connection, ConnectionState::Connecting);
    s.on_failed(&mut app, 5);
    assert_eq!(app.connection, ConnectionState::Failed);

    let mut app = App::new(Lang::De, "{}");
    let mut s = Session::new();
    s.on_connected(&mut app);
    assert_eq!(app.connection, ConnectionState::Connected);
    for _ in 0..5 {
        s.on_failed(&mut app, 5);
    }
    assert_eq!(app.connection, ConnectionState::Connected);
}

#[test]
fn backoff_doubles_to_thirty_and_resets() {
    let mut b = Backoff::new();
    let waits: Vec<u64> = (0..7).map(|_| b.after_all_closed(0)).collect();
    assert_eq!(waits, vec![1, 2, 4, 8, 16, 30, 30]);
    assert_eq!(b.after_all_closed(3), 1);
    assert_eq!(b.secs, 2);
    b.reset();
    assert_eq!(b.secs, 1);
}

#[test]
fn page_urls_count_from_one() {
    let urls = page_urls("8101001", ContentType::Departure, 5);
    assert_eq!(urls.len(), 5);
    assert!(urls[0].contains("&page=1&"));
    assert!(urls[4].contains("&page=5&"));
}

#[test]
fn only_update_messages_carry_data() {
    let params = || Some(UpdateParams { data: data(vec![], vec![], None) });
    assert!(update_params(WsMessage { method: Some("update".to_string()), params: params() }).is_some());
    assert!(update_params(WsMessage { method: Some("ping".to_string()), params: params() }).is_none());
    assert!(update_params(WsMessage { method: None, params: params() }).is_none());
    assert!(update_params(WsMessage { method: Some("update".to_string()), params: None }).is_none());
}

#[test]
fn board_ids_stay_distinct_within_one_update() {
    let mut app = App::new(Lang::De, "{}");
    let mut s = Session::new();
    s.on_update(&mut app, data(vec![train("q", "10:02"), train("p", "10:01"), train("q", "10:00")], vec![], None), NOW);
    assert_eq!(ids(&app), vec!["p", "q"]);
    let board: Vec<String> = s.collected.items().iter().map(|t| t.id.clone()).collect();
    assert_eq!(board, vec!["p", "q"]);
    assert_eq!(app.items[1].scheduled, "10:02");
}

#[test]
fn update_counter_stops_at_its_limit() {
    let mut app = App::new(Lang::De, "{}");
    let mut s = Session::new();
    s.update_count = u64::MAX;
    s.on_update(&mut app, data(vec![train("a", "10:00")], vec![], None), NOW);
    assert_eq!(s.update_count, u64::MAX);
    assert_eq!(ids(&app), vec!["a"]);
}
