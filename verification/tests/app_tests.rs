use oebb_monitor::app::{build_ws_url, App, AppMode, ConnectionState, ContentType};
use oebb_monitor::input::{handle_key, Command, Key};
use oebb_monitor::lang::Lang;
use oebb_monitor::model::TrainItem;
use oebb_monitor::ui::board_row;

const STATIONS: &str = r#"{
    "8101001": "Wien Westbahnhof",
    "8103000": "Wien Hbf",
    "8100514": "Wien Meidling",
    " 8100002 ": "Salzburg Hbf",
    "8100013": "Linz/Donau Hbf",
    "8100173": "Graz Hbf",
    "8100108": "Innsbruck Hbf",
    "8101590": "Wiener Neustadt Hbf",
    "8100353": "St. Pölten Hbf"
}"#;

fn train(id: &str, scheduled: &str) -> TrainItem {
    TrainItem { id: id.to_string(), scheduled: scheduled.to_string(), ..Default::default() }
}

#[test]
fn station_filter_matches_query() {
    let mut app = App::new(Lang::De, STATIONS);
    app.station_search = "wien".to_string();
    app.update_filtered_stations();
    assert!(!app.filtered_stations.is_empty());
    assert!(app
        .filtered_stations
        .iter()
        .all(|(_, name)| name.to_lowercase().contains("wien")));
}

#[test]
fn station_filter_empty_shows_some() {
    let mut app = App::new(Lang::De, STATIONS);
    app.station_search.clear();
    app.update_filtered_stations();
    assert!(!app.filtered_stations.is_empty());
    assert_eq!(app.total_filtered_count, app.all_stations_sorted.len());
}

#[test]
fn new_app_defaults() {
    let app = App::new(Lang::En, STATIONS);
    assert_eq!(app.station_id, "8101001");
    assert_eq!(app.station_name, "Wien Westbahnhof");
    assert_eq!(app.content_type, ContentType::Departure);
    assert_eq!(app.mode, AppMode::Normal);
    assert_eq!(app.connection, ConnectionState::Connecting);
    assert_eq!(app.max_pages, 5);
    assert_eq!(app.lang, Lang::En);
    assert_eq!(app.stations.len(), 9);
    // Ids are trimmed.
    assert!(app.stations.iter().any(|(id, name)| id == "8100002" && name == "Salzburg Hbf"));
    let names: Vec<&str> = app.all_stations_sorted.iter().map(|(_, n)| n.as_str()).collect();
    let mut expected = names.clone();
    expected.sort();
    assert_eq!(names, expected);
}

#[test]
fn bad_station_json_gives_empty_table() {
    let app = App::new(Lang::De, "not json");
    assert!(app.stations.is_empty());
    assert!(app.all_stations_sorted.is_empty());
}

#[test]
fn duplicate_trimmed_ids_keep_one() {
    let app = App::new(Lang::De, r#"{"1": "A", " 1": "B"}"#);
    assert_eq!(app.stations.len(), 1);
    assert_eq!(app.stations[0].0, "1");
}

#[test]
fn search_is_case_insensitive_sorted_and_counted() {
    let mut app = App::new(Lang::De, STATIONS);
    app.station_search = "WIEN".to_string();
    app.update_filtered_stations();
    let names: Vec<&str> = app.filtered_stations.iter().map(|(_, n)| n.as_str()).collect();
    assert_eq!(names, vec!["Wien Hbf", "Wien Meidling", "Wien Westbahnhof", "Wiener Neustadt Hbf"]);
    assert_eq!(app.total_filtered_count, 4);
    assert_eq!(app.station_list_state.selected(), Some(0));
}

#[test]
fn search_without_match_keeps_selection() {
    let mut app = App::new(Lang::De, STATIONS);
    app.station_list_state.select(Some(3));
    app.station_search = "zzz".to_string();
    app.update_filtered_stations();
    assert!(app.filtered_stations.is_empty());
    assert_eq!(app.total_filtered_count, 0);
    assert_eq!(app.station_list_state.selected(), Some(3));
}

#[test]
fn listing_is_capped_at_twenty() {
    let mut json = String::from("{");
    for i in 0..30 {
        if i > 0 {
            json.push(',');
        }
        json.push_str(&format!("\"{}\": \"Halt {:02}\"", i, i));
    }
    json.push('}');
    let mut app = App::new(Lang::De, &json);
    app.update_filtered_stations();
    assert_eq!(app.filtered_stations.len(), 20);
    assert_eq!(app.total_filtered_count, 30);
    assert_eq!(app.filtered_stations[0].1, "Halt 00");
    app.station_search = "halt 2".to_string();
    app.update_filtered_stations();
    assert_eq!(app.filtered_stations.len(), 10);
    assert_eq!(app.total_filtered_count, 10);
}

#[test]
fn pick_station_and_leave_picker() {
    let mut app = App::new(Lang::De, STATIONS);
    app.enter_station_select();
    assert_eq!(app.mode, AppMode::StationSelect);
    assert_eq!(app.station_list_state.selected(), Some(0));
    app.station_search = "graz".to_string();
    app.update_filtered_stations();
    assert!(app.select_station());
    assert_eq!(app.station_name, "Graz Hbf");
    assert_eq!(app.station_id, "8100173");
    assert_eq!(app.mode, AppMode::Normal);
}

#[test]
fn select_station_without_row_changes_nothing() {
    let mut app = App::new(Lang::De, STATIONS);
    assert!(!app.select_station());
    app.station_list_state.select(Some(50));
    assert!(!app.select_station());
    assert_eq!(app.station_name, "Wien Westbahnhof");
}

#[test]
fn relative_selection_is_clamped() {
    let mut app = App::new(Lang::De, STATIONS);
    app.select_relative(1);
    assert_eq!(app.selected_train_index, None);
    app.items = vec![train("a", "1"), train("b", "2"), train("c", "3")];
    app.detail_scroll = 9;
    app.select_relative(-1);
    assert_eq!(app.selected_train_index, Some(0));
    assert_eq!(app.selected_train_id.as_deref(), Some("a"));
    assert_eq!(app.detail_scroll, 0);
    app.select_relative(5);
    assert_eq!(app.selected_train_index, Some(2));
    assert_eq!(app.selected_train_id.as_deref(), Some("c"));
    app.select_relative(-1);
    assert_eq!(app.selected_train_index, Some(1));
    app.select_relative(-7);
    assert_eq!(app.selected_train_index, Some(0));
}

#[test]
fn ws_url_for_page() {
    assert_eq!(
        build_ws_url("8101001", &ContentType::Arrival, 3),
        "wss://meine.oebb.at/abfahrtankunft/webdisplay/web_client/ws/?stationId=8101001&contentType=arrival&staticLayout=false&page=3&offset=0&ignoreIncident=false&expandAll=false"
    );
    assert!(build_ws_url("1", &ContentType::Departure, 12).contains("contentType=departure&staticLayout=false&page=12&"));
}

#[test]
fn keys_in_main_board() {
    let mut app = App::new(Lang::De, STATIONS);
    app.items = vec![train("a", "1"), train("b", "2")];
    assert_eq!(handle_key(&mut app, Key::Char('A')), Command::Reconnect);
    assert_eq!(app.content_type, ContentType::Arrival);
    assert_eq!(handle_key(&mut app, Key::Char('d')), Command::Reconnect);
    assert_eq!(app.content_type, ContentType::Departure);
    assert_eq!(handle_key(&mut app, Key::Char('r')), Command::Reconnect);
    assert_eq!(handle_key(&mut app, Key::Char('3')), Command::Stay);
    assert_eq!(app.mode, AppMode::Normal);
    assert_eq!(handle_key(&mut app, Key::Char('2')), Command::Stay);
    assert_eq!(app.mode, AppMode::TrainDetail);
    assert_eq!(app.selected_train_index, Some(1));
    assert_eq!(app.selected_train_id.as_deref(), Some("b"));
    assert_eq!(handle_key(&mut app, Key::PageDown), Command::Stay);
    assert_eq!(app.detail_scroll, 3);
    assert_eq!(handle_key(&mut app, Key::PageUp), Command::Stay);
    assert_eq!(handle_key(&mut app, Key::PageUp), Command::Stay);
    assert_eq!(app.detail_scroll, 0);
    assert_eq!(handle_key(&mut app, Key::Up), Command::Stay);
    assert_eq!(app.selected_train_id.as_deref(), Some("a"));
    assert_eq!(handle_key(&mut app, Key::Char('L')), Command::SaveLanguage(Lang::En));
    assert_eq!(app.lang, Lang::En);
    assert_eq!(handle_key(&mut app, Key::Esc), Command::Stay);
    assert_eq!(app.mode, AppMode::Normal);
    assert_eq!(app.selected_train_id, None);
    assert_eq!(handle_key(&mut app, Key::Enter), Command::Stay);
    assert_eq!(app.mode, AppMode::TrainDetail);
    assert_eq!(app.selected_train_id.as_deref(), Some("a"));
    assert_eq!(handle_key(&mut app, Key::Char('q')), Command::Stay);
    assert_eq!(handle_key(&mut app, Key::Char('Q')), Command::Quit);
}

#[test]
fn zero_key_opens_tenth_train() {
    let mut app = App::new(Lang::De, STATIONS);
    app.items = (0..12).map(|i| train(&i.to_string(), "t")).collect();
    handle_key(&mut app, Key::Char('0'));
    assert_eq!(app.selected_train_index, Some(9));
    assert_eq!(app.selected_train_id.as_deref(), Some("9"));
}

#[test]
fn keys_in_station_picker() {
    let mut app = App::new(Lang::De, STATIONS);
    assert_eq!(handle_key(&mut app, Key::Char('s')), Command::Stay);
    assert_eq!(app.mode, AppMode::StationSelect);
    for c in "wien".chars() {
        handle_key(&mut app, Key::Char(c));
    }
    assert_eq!(app.station_search, "wien");
    assert_eq!(app.filtered_stations.len(), 4);
    handle_key(&mut app, Key::Down);
    handle_key(&mut app, Key::Down);
    assert_eq!(app.station_list_state.selected(), Some(2));
    handle_key(&mut app, Key::Up);
    assert_eq!(app.station_list_state.selected(), Some(1));
    handle_key(&mut app, Key::Backspace);
    assert_eq!(app.station_search, "wie");
    assert_eq!(app.station_list_state.selected(), Some(0));
    assert_eq!(handle_key(&mut app, Key::Char('q')), Command::Stay);
    assert_eq!(app.station_search, "wieq");
    assert!(app.filtered_stations.is_empty());
    assert_eq!(handle_key(&mut app, Key::Enter), Command::Stay);
    handle_key(&mut app, Key::Backspace);
    assert_eq!(handle_key(&mut app, Key::Enter), Command::Reconnect);
    assert_eq!(app.station_name, "Wien Hbf");
    assert_eq!(app.mode, AppMode::Normal);
    handle_key(&mut app, Key::Char('S'));
    assert_eq!(handle_key(&mut app, Key::Esc), Command::Stay);
    assert_eq!(app.mode, AppMode::Normal);
    assert_eq!(app.station_name, "Wien Hbf");
}

#[test]
fn row_digit_opens_that_row() {
    let mut base = App::new(Lang::De, STATIONS);
    base.items = (0..10).map(|i| train(&format!("t{}", i), "x")).collect();
    for idx in 0..10 {
        let digit = board_row(&base, idx).number.chars().next().unwrap();
        let mut app = App::new(Lang::De, STATIONS);
        app.items = (0..10).map(|i| train(&format!("t{}", i), "x")).collect();
        handle_key(&mut app, Key::Char(digit));
        assert_eq!(app.selected_train_index, Some(idx));
    }
}

#[test]
fn keys_never_change_the_board() {
    let mut app = App::new(Lang::De, STATIONS);
    app.items = vec![train("a", "1"), train("b", "2")];
    let keys = [
        Key::Char('s'), Key::Char('w'), Key::Down, Key::Backspace, Key::Enter, Key::Char('2'),
        Key::PageDown, Key::Up, Key::Esc, Key::Char('a'), Key::Char('l'), Key::Other,
    ];
    for k in keys {
        handle_key(&mut app, k);
        let ids: Vec<&str> = app.items.iter().map(|t| t.id.as_str()).collect();
        assert_eq!(ids, vec!["a", "b"]);
        assert_eq!(app.connection, ConnectionState::Connecting);
    }
}
