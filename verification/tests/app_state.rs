use dashboard::app::{App, KeyInput, TabsState};
use dashboard::server::Server;

fn fetched(endpoint: &str, hostname: &str, rx: u64, tx: u64) -> Server {
    let mut s = Server::new(endpoint.to_string());
    s.hostname = hostname.to_string();
    s.total_memory = 1000;
    s.used_memory = 250;
    s.cpu_usage = 5000;
    s.cpu_load_per_core = vec![1000, 2000, 3000];
    s.bytes_received = rx;
    s.bytes_transmitted = tx;
    s
}

fn new_app() -> App {
    App::new("Dashboard".to_string(), 250, 1000)
}

#[test]
fn capacity_is_one_minute_of_ticks() {
    let app = new_app();
    assert_eq!(app.max_chart_data_points, 240);
    let coarse = App::new("Dashboard".to_string(), 30000, 1000);
    assert_eq!(coarse.max_chart_data_points, 2);
}

#[test]
fn bounded_series_after_many_ticks() {
    // Capacity 2: one minute of history at a 30 s tick.
    let mut app = App::new("Dashboard".to_string(), 30000, 1000);
    for round in 1u64..=7 {
        let servers = vec![
            fetched("http://a:3000", "alpha", 1000 * round, 100 * round),
            fetched("http://b:3000", "beta", 2000 * round, 200 * round),
        ];
        app.on_tick(servers, 1000);
    }
    for series in app
        .cpu_chart_data
        .iter()
        .chain(app.ram_chart_data.iter())
        .chain(app.received_chart_data.iter())
        .chain(app.transmitted_chart_data.iter())
    {
        assert!(series.len() <= app.max_chart_data_points);
    }
    // The CPU series really did evict the oldest samples: the last tick
    // derived from the copy adopted one tick earlier.
    assert_eq!(app.cpu_chart_data[0].len(), 2);
    assert_eq!(app.cpu_chart_data[0], vec![50, 50]);
}

#[test]
fn rate_suppression_until_second_fetch() {
    let mut app = new_app();
    // Tick 1 adopts the placeholder fleet.
    app.on_tick(vec![Server::new("http://a:3000".to_string())], 1000);
    // Tick 2 adopts the first successful fetch.
    app.on_tick(vec![fetched("http://a:3000", "alpha", 5_000_000, 5_000_000)], 1000);
    assert_eq!(app.received_chart_data[0].len(), 0);
    assert_eq!(app.transmitted_chart_data[0].len(), 0);
    // Tick 3: the stored copy is the first fetch, but its baseline was taken
    // from the placeholder — still no rate sample.
    app.on_tick(vec![fetched("http://a:3000", "alpha", 9_000_000, 9_000_000)], 1000);
    assert_eq!(app.received_chart_data[0].len(), 0);
    assert_eq!(app.transmitted_chart_data[0].len(), 0);
    // Tick 4: the baseline now comes from the first real fetch; the first
    // rate sample appears, measured over the 1000 ms window:
    // (9_000_000 - 5_000_000) * 1000 / (1000 * 1024) KB/s.
    app.on_tick(vec![fetched("http://a:3000", "alpha", 12_000_000, 12_000_000)], 1000);
    assert_eq!(app.received_chart_data[0], vec![3906]);
    assert_eq!(app.transmitted_chart_data[0], vec![3906]);
}

#[test]
fn slow_ticks_do_not_adopt_the_fleet() {
    let mut app = new_app();
    let adopted = app.on_tick(vec![fetched("http://a:3000", "alpha", 1, 1)], 250);
    assert!(!adopted);
    assert_eq!(app.servers.len(), 0);
    // The tab strip still follows the fresh copy immediately.
    assert_eq!(app.tabs.titles.len(), 2);
    let adopted = app.on_tick(vec![fetched("http://a:3000", "alpha", 1, 1)], 1000);
    assert!(adopted);
    assert_eq!(app.servers.len(), 1);
}

#[test]
fn tab_titles_follow_hostnames_truncated() {
    let mut app = new_app();
    let mut long = fetched("http://a:3000", "a-very-long-hostname", 0, 0);
    long.hostname = "abcdefghijklmnop".to_string();
    app.on_tick(vec![long], 1000);
    assert_eq!(app.tabs.titles, vec!["Overview".to_string(), "abcdefghij".to_string()]);
}

#[test]
fn tab_wrap_around() {
    let mut tabs = TabsState::new();
    tabs.titles = vec!["Overview".to_string(), "alpha".to_string(), "beta".to_string()];
    tabs.index = 2;
    tabs.next();
    assert_eq!(tabs.index, 0);
    tabs.previous();
    assert_eq!(tabs.index, 2);
}

#[test]
fn quit_and_popup_keys() {
    let mut app = new_app();
    app.on_key('x');
    assert!(!app.should_quit);
    assert!(!app.show_endpoint_popup);
    app.on_key('p');
    assert!(app.show_endpoint_popup);
    app.on_key('p');
    assert!(!app.show_endpoint_popup);
    app.on_key('q');
    assert!(app.should_quit);
}

#[test]
fn endpoint_entry_round_trip() {
    let mut app = new_app();
    app.on_key('p');
    for c in "http://x:3000/resources".chars() {
        let pending = app.handle_key(KeyInput::Char(c));
        assert!(pending.is_none());
    }
    let pending = app.handle_key(KeyInput::Enter);
    let host = pending.expect("Enter commits the endpoint");
    assert_eq!(host.endpoint, "http://x:3000/resources");
    assert_eq!(host.hostname, "");
    assert_eq!(host.bytes_received, 0);
    assert_eq!(host.bytes_transmitted, 0);
    assert_eq!(host.total_memory, 0);
    assert!(!app.show_endpoint_popup);
    assert_eq!(app.endpoint_input.input, "");
    assert_eq!(app.endpoint_input.cursor_position, 0);
}

#[test]
fn entry_editing_keys() {
    let mut app = new_app();
    app.on_key('p');
    for c in "abd".chars() {
        app.handle_key(KeyInput::Char(c));
    }
    // Move left over 'd' and insert the missing 'c'.
    app.handle_key(KeyInput::Left);
    app.handle_key(KeyInput::Char('c'));
    assert_eq!(app.endpoint_input.input, "abcd");
    assert_eq!(app.endpoint_input.cursor_position, 3);
    // Backspace deletes the character before the cursor.
    app.handle_key(KeyInput::Backspace);
    assert_eq!(app.endpoint_input.input, "abd");
    assert_eq!(app.endpoint_input.cursor_position, 2);
    // Escape closes the popup without committing.
    app.handle_key(KeyInput::Esc);
    assert!(!app.show_endpoint_popup);
    assert_eq!(app.endpoint_input.input, "abd");
}

#[test]
fn overview_scrolls_and_detail_navigates_table() {
    let mut app = new_app();
    let servers = vec![
        fetched("http://a:3000", "alpha", 0, 0),
        fetched("http://b:3000", "beta", 0, 0),
    ];
    app.on_tick(servers, 1000);

    // On the overview tab, up/down scroll the host list.
    assert_eq!(app.tabs.index, 0);
    app.on_down();
    assert_eq!(app.scroll.scroll_pos, 1);
    app.on_down();
    assert_eq!(app.scroll.scroll_pos, 2);
    app.on_down();
    assert_eq!(app.scroll.scroll_pos, 2);
    app.on_up();
    assert_eq!(app.scroll.scroll_pos, 1);

    // Moving to a detail tab resets the table selection and sizes the table
    // by the host's core count.
    app.on_right();
    assert_eq!(app.tabs.index, 1);
    assert_eq!(app.cpu_table.selected, Some(0));
    assert_eq!(app.cpu_table.size, 3);

    app.on_down();
    assert_eq!(app.cpu_table.selected, Some(1));
    app.on_down();
    assert_eq!(app.cpu_table.selected, Some(2));
    app.on_down();
    assert_eq!(app.cpu_table.selected, Some(0));
    app.on_up();
    assert_eq!(app.cpu_table.selected, Some(2));

    // Tabs wrap around the strip: Overview, alpha, beta.
    app.on_right();
    assert_eq!(app.tabs.index, 2);
    app.on_right();
    assert_eq!(app.tabs.index, 0);
    app.on_left();
    assert_eq!(app.tabs.index, 2);
}

#[test]
fn memory_chart_uses_percentages() {
    let mut app = new_app();
    // used 250 of 1000: 25%; CPU 5000 hundredths: 50%.
    app.on_tick(vec![fetched("http://a:3000", "alpha", 0, 0)], 1000);
    app.on_tick(vec![fetched("http://a:3000", "alpha", 0, 0)], 1000);
    assert_eq!(app.ram_chart_data[0], vec![25]);
    assert_eq!(app.cpu_chart_data[0], vec![50]);
}
