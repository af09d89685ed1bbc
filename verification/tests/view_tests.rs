use oebb_monitor::app::{App, ConnectionState, ContentType};
use oebb_monitor::detail::detail_view;
use oebb_monitor::lang::Lang;
use oebb_monitor::model::{Destination, Formation, Remark, TrainItem};
use oebb_monitor::time::ClockTime;
use oebb_monitor::ui::{
    board_row, board_title, centered_rect, split_percentages, header_labels, notice_lines, search_line,
    shortcut_origin, shortcut_spans, station_items, station_list_title, status_text, Area, Color,
};

fn dest(s: &str) -> Option<Destination> {
    Some(Destination { default: s.to_string() })
}

fn sample() -> TrainItem {
    TrainItem {
        id: "r1".to_string(),
        train: "RJX 860".to_string(),
        product: Some("RJX".to_string()),
        scheduled: "2024-01-01T10:00:00+01:00".to_string(),
        expected: Some("2024-01-01T10:12:00+01:00".to_string()),
        destination: dest("Salzburg Hbf"),
        origin: dest("Wien Hbf"),
        track: Some("7".to_string()),
        sector: Some("A-C".to_string()),
        remarks: Some(vec![Remark { text: Destination { default: "Kurzzug\nSektor B".to_string() } }]),
        via: dest("St. Pölten&#8203; ~ ~ Linz "),
        prioritized_vias: Some(vec!["Linz".to_string(), "Wels".to_string()]),
        operator: Some("ÖBB".to_string()),
        formation: Some(vec![
            Formation { wagon_number: None, ..Default::default() },
            Formation {
                wagon_number: Some("21".to_string()),
                car_type: Some(vec!["passenger".to_string()]),
                symbol: Some("W_1_B".to_string()),
                closed: Some(true),
                sector: Some("B".to_string()),
                destination: Some("Salzburg".to_string()),
                icons: Some(vec!["wlan".to_string(), "x".to_string()]),
                ..Default::default()
            },
        ]),
        ..Default::default()
    }
}

fn app_with(item: TrainItem) -> App {
    let mut app = App::new(Lang::En, "{}");
    app.items = vec![item];
    app
}

fn texts(line: &Vec<oebb_monitor::ui::Span>) -> String {
    line.iter().map(|s| s.text.as_str()).collect()
}

#[test]
fn board_row_contents() {
    let mut app = app_with(sample());
    app.selected_train_index = Some(0);
    let r = board_row(&app, 0);
    assert_eq!(r.number, "1");
    assert_eq!(r.delay, "+12");
    assert_eq!(r.delay_color, Color::Red);
    assert_eq!(r.line, "RJX");
    assert_eq!(r.dest, "Salzburg Hbf");
    assert_eq!(r.track, "7");
    assert_eq!(r.remarks, "Kurzzug Sektor B");
    assert!(r.selected);
    assert_eq!(r.scheduled.len(), 5);
    app.content_type = ContentType::Arrival;
    assert_eq!(board_row(&app, 0).dest, "Wien Hbf");
}

#[test]
fn board_row_without_data() {
    let mut app = app_with(TrainItem { id: "x".to_string(), ..Default::default() });
    app.items = (0..11).map(|i| TrainItem { id: i.to_string(), ..Default::default() }).collect();
    let r = board_row(&app, 9);
    assert_eq!(r.number, "0");
    assert_eq!(board_row(&app, 10).number, " ");
    assert_eq!(r.scheduled, "-");
    assert_eq!(r.actual, "-");
    assert_eq!(r.delay, "-");
    assert_eq!(r.delay_color, Color::Gray);
    assert_eq!(r.dest, "N/A");
    assert_eq!(r.track, "-");
    assert_eq!(r.sector, "-");
    assert_eq!(r.line, "");
    assert!(!r.selected);
}

#[test]
fn main_board_texts() {
    let mut app = app_with(sample());
    assert_eq!(board_title(&app), "🚂 DEPARTURES - Wien Westbahnhof");
    assert_eq!(header_labels(&app)[6], "DEST.");
    app.content_type = ContentType::Arrival;
    assert_eq!(header_labels(&app)[6], "FROM");
    app.special_notices = vec![Remark { text: Destination { default: "Bauarbeiten".to_string() } }];
    assert_eq!(notice_lines(&app.special_notices), vec!["• Bauarbeiten".to_string()]);
    assert_eq!(status_text(&app), ("Connecting...".to_string(), Color::Yellow));
    app.connection = ConnectionState::Connected;
    assert_eq!(status_text(&app), ("Connected".to_string(), Color::Green));
    app.last_update = Some(ClockTime { hour: 9, minute: 5, second: 7 });
    assert_eq!(status_text(&app), ("09:05:07".to_string(), Color::White));
    app.connection = ConnectionState::Failed;
    assert_eq!(status_text(&app).0, "Connection failed");
    let spans = shortcut_spans(&app.lang.tr());
    let all: String = spans.iter().map(|s| s.text.as_str()).collect();
    assert_eq!(all, "1-9,0/↑↓+Enter Detail [A]rr [D]ep [S]tn [R]ef [L]ang [Q]uit");
    assert_eq!(shortcut_origin(0, 10, 100), Some((34, 11)));
    assert_eq!(shortcut_origin(0, 10, 66), None);
}

#[test]
fn station_picker_texts() {
    let mut app = App::new(Lang::De, r#"{"1": "Wien Hbf", "2": "Graz Hbf"}"#);
    app.enter_station_select();
    assert_eq!(search_line(&app), "Suche: _");
    assert_eq!(station_items(&app), vec![" 1. Graz Hbf".to_string(), " 2. Wien Hbf".to_string()]);
    assert_eq!(station_list_title(&app), "Stationen (2)");
    app.total_filtered_count = 30;
    assert_eq!(station_list_title(&app), "Stationen (2 von 30 angezeigt)");
}

#[test]
fn detail_lines_of_a_train() {
    let mut app = app_with(sample());
    assert!(detail_view(&app).is_none());
    app.selected_train_index = Some(0);
    let (title, lines) = detail_view(&app).unwrap();
    assert_eq!(title, "🚂 Train RJX 860 - RJX → Salzburg Hbf");
    let t: Vec<String> = lines.iter().map(texts).collect();
    assert!(t[0].starts_with("Departure: "));
    assert_eq!(t[1], "Delay: +12 min");
    assert_eq!(t[2], "Track: 7 Sector A-C");
    assert_eq!(t[3], "Operator: ÖBB");
    assert_eq!(t[4], "Remarks:");
    assert_eq!(t[5], "Kurzzug");
    assert_eq!(t[6], "Sektor B");
    assert_eq!(t[7], "");
    assert_eq!(t[8], "Major stops: Linz ~ Wels");
    assert_eq!(t[9], "All stops:");
    assert_eq!(t[10], "  St. Pölten → Linz");
    assert_eq!(t[11], "");
    assert_eq!(t[12], "Train formation:");
    assert_eq!(t[13], "  🚂 Locomotive");
    assert_eq!(t[14], "  Coach 21 🪑 Seating car · 1st class + Business (closed) [Sector B] → Salzburg: 📶 Wi-Fi | x");
    assert_eq!(t.len(), 15);
    assert_eq!(lines[6][0].style.fg, Some(Color::Red));
    assert_eq!(lines[1][1].style.fg, Some(Color::Red));
}

#[test]
fn detail_of_missing_train_is_none() {
    let mut app = app_with(sample());
    app.selected_train_index = Some(3);
    assert!(detail_view(&app).is_none());
}

#[test]
fn popup_is_centred() {
    let c = centered_rect(60, 70, Area { x: 0, y: 0, width: 100, height: 50 });
    assert!(c.width >= 59 && c.width <= 61);
    assert!(c.height >= 34 && c.height <= 36);
    assert!(c.x >= 19 && c.x <= 21);
    assert!(c.y >= 7 && c.y <= 8);
}

#[test]
fn popup_margins_are_equal() {
    assert_eq!(split_percentages(60), (20, 60, 20));
    assert_eq!(split_percentages(85), (7, 85, 7));
    assert_eq!(split_percentages(100), (0, 100, 0));
}

#[test]
fn popup_stays_inside_an_offset_area() {
    let r = Area { x: 5, y: 3, width: 40, height: 20 };
    let c = centered_rect(80, 85, r);
    assert!(c.x >= r.x && c.x + c.width <= r.x + r.width);
    assert!(c.y >= r.y && c.y + c.height <= r.y + r.height);
    assert!(c.width >= 31 && c.width <= 33);
    assert!(c.x >= 8 && c.x <= 10);
    assert!(c.height >= 16 && c.height <= 18);
    assert!(c.y >= 4 && c.y <= 5);
}
