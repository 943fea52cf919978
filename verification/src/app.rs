//! The application state machine of the dashboard: tab navigation, overview
//! scrolling, the per-core CPU table selection, the endpoint-entry popup, and
//! the per-tick derivation of bounded rolling metric series from the current
//! fleet copy. Everything here reacts to two kinds of events handed in by the
//! run loop: a key press and a tick.

use vstd::prelude::*;
use vstd::string::*;
use vstd::pervasive::VecAdditionalExecFns;
use crate::server::{Server, ServerView, fleet_view};
use crate::input::InputState;
use crate::metrics::{
    baselines_after, bounded_push, compute_rate, cpu_series_after, pad_series, push_bounded,
    ram_series_after, rate_series_after, rx_counters, series_bounded, tx_counters,
    cpu_sample, ram_sample, baseline_set, charts_view,
    lemma_value_series_stay_bounded, lemma_rate_series_stay_bounded,
};
use crate::util::used_as_percentage;

verus! {

/// `s` cut to its first ten characters: how a hostname becomes a tab title.
pub open spec fn truncated10(s: Seq<char>) -> Seq<char> {
    if s.len() <= 10 {
        s
    } else {
        s.subrange(0, 10)
    }
}

/// The tab titles for a fleet: the constant overview title first, then one
/// truncated hostname per host.
pub open spec fn tab_titles(hosts: Seq<ServerView>) -> Seq<Seq<char>> {
    seq!["Overview"@] + hosts.map_values(|h: ServerView| truncated10(h.hostname))
}

/// The tab strip: one title per tab and the index of the selected tab.
pub struct TabsState {
    pub titles: Vec<String>,
    pub index: usize,
}

impl TabsState {
    /// The selected index points at a tab, or there are no tabs yet and it
    /// rests at 0.
    pub open spec fn wf(self) -> bool {
        self.index < self.titles@.len() || (self.titles@.len() == 0 && self.index == 0)
    }

    /// No tabs and the first position selected.
    pub fn new() -> (t: TabsState)
        ensures
            t.titles@ == Seq::<String>::empty(),
            t.index == 0,
            t.wf(),
    {
        TabsState { titles: vec![], index: 0 }
    }

    /// Select the next tab, wrapping from the last around to the first.
    pub fn next(&mut self)
        requires
            old(self).titles@.len() > 0,
            old(self).wf(),
        ensures
            final(self).titles == old(self).titles,
            final(self).index == (old(self).index + 1) % (old(self).titles@.len() as int),
            final(self).wf(),
    {
        let n = self.titles.len();
        self.index = (self.index + 1) % n;
    }

    /// Select the previous tab, wrapping from the first around to the last.
    pub fn previous(&mut self)
        requires
            old(self).titles@.len() > 0,
            old(self).wf(),
        ensures
            final(self).titles == old(self).titles,
            final(self).index == if old(self).index > 0 {
                old(self).index - 1
            } else {
                old(self).titles@.len() - 1
            },
            final(self).wf(),
    {
        if self.index > 0 {
            self.index -= 1;
        } else {
            self.index = self.titles.len() - 1;
        }
    }

    /// Rebuild the titles from the fleet: "Overview" first, then each host's
    /// hostname cut to ten characters. The selection is left where it was.
    pub fn update_tabs(&mut self, servers: &Vec<Server>)
        ensures
            final(self).titles.deep_view() == tab_titles(fleet_view(servers@)),
            final(self).titles@.len() == servers@.len() + 1,
            final(self).index == old(self).index,
    {
        let ghost hosts = fleet_view(servers@);
        let mut names: Vec<String> = vec![];
        names.push(String::from_str("Overview"));
        let n = servers.len();
        let mut i: usize = 0;
        while i < n
            invariant
                i <= n,
                n == servers@.len(),
                hosts == fleet_view(servers@),
                names@.len() == i + 1,
                names.deep_view()[0] == "Overview"@,
                forall|j: int|
                    0 <= j < i ==> names.deep_view()[j + 1] == truncated10(hosts[j].hostname),
            decreases n - i,
        {
            let hostname = &servers[i].hostname;
            let len = hostname.as_str().unicode_len();
            let cut = if len < 10 {
                len
            } else {
                10
            };
            let title = String::from_str(hostname.as_str().substring_char(0, cut));
            proof {
                assert(title@ == truncated10(hosts[i as int].hostname));
            }
            names.push(title);
            i = i + 1;
        }
        self.titles = names;
        proof {
            assert(final(self).titles.deep_view() =~= tab_titles(hosts));
        }
    }
}

/// The vertical position of the overview's scrolling window over the host
/// list.
pub struct ScrollState {
    pub scroll_pos: u16,
    pub scroll_content_length: u16,
}

/// `s` scrolled one step up: the position moves towards 0 and stops there.
pub open spec fn scroll_up_spec(s: ScrollState) -> ScrollState {
    if s.scroll_pos > 0 {
        ScrollState { scroll_pos: (s.scroll_pos - 1) as u16, ..s }
    } else {
        s
    }
}

/// `s` scrolled one step down: the position moves up to the content length
/// and stops there.
pub open spec fn scroll_down_spec(s: ScrollState) -> ScrollState {
    if s.scroll_pos < s.scroll_content_length {
        ScrollState { scroll_pos: (s.scroll_pos + 1) as u16, ..s }
    } else {
        s
    }
}

impl ScrollState {
    /// At the top of an empty host list.
    pub fn new() -> (s: ScrollState)
        ensures
            s.scroll_pos == 0,
            s.scroll_content_length == 0,
    {
        ScrollState { scroll_pos: 0, scroll_content_length: 0 }
    }

    /// Scroll one step towards the top.
    pub fn up(&mut self)
        ensures
            *final(self) == scroll_up_spec(*old(self)),
    {
        if self.scroll_pos > 0 {
            self.scroll_pos -= 1;
        }
    }

    /// Scroll one step towards the bottom, never past the content.
    pub fn down(&mut self)
        ensures
            *final(self) == scroll_down_spec(*old(self)),
    {
        if self.scroll_pos < self.scroll_content_length {
            self.scroll_pos += 1;
        }
    }
}

/// The per-core CPU table of the detail view: how many rows it has and which
/// one is selected.
pub struct CpuTable {
    pub selected: Option<usize>,
    pub size: usize,
}

/// `t` with the next row selected, wrapping from the last row to the first;
/// an empty table is left untouched, and with no selection the first row is
/// selected.
pub open spec fn table_next_spec(t: CpuTable) -> CpuTable {
    if t.size == 0 {
        t
    } else {
        let i = match t.selected {
            Some(i) => if i + 1 >= t.size {
                0int
            } else {
                i + 1
            },
            None => 0int,
        };
        CpuTable { selected: Some(i as usize), ..t }
    }
}

/// `t` with the previous row selected, wrapping from the first row to the
/// last; an empty table is left untouched, and with no selection the first
/// row is selected.
pub open spec fn table_previous_spec(t: CpuTable) -> CpuTable {
    if t.size == 0 {
        t
    } else {
        let i = match t.selected {
            Some(i) => if i == 0 {
                t.size - 1
            } else {
                i - 1
            },
            None => 0int,
        };
        CpuTable { selected: Some(i as usize), ..t }
    }
}

impl CpuTable {
    /// An empty table with nothing selected.
    pub fn new() -> (t: CpuTable)
        ensures
            t.selected is None,
            t.size == 0,
    {
        CpuTable { selected: None, size: 0 }
    }

    /// Move the selection one row down, wrapping to the top.
    pub fn next(&mut self)
        ensures
            *final(self) == table_next_spec(*old(self)),
    {
        if self.size == 0 {
            return ;
        }
        let i = match self.selected {
            Some(i) => {
                if i >= self.size - 1 {
                    0
                } else {
                    i + 1
                }
            },
            None => 0,
        };
        self.selected = Some(i);
    }

    /// Move the selection one row up, wrapping to the bottom.
    pub fn previous(&mut self)
        ensures
            *final(self) == table_previous_spec(*old(self)),
    {
        if self.size == 0 {
            return ;
        }
        let i = match self.selected {
            Some(i) => {
                if i == 0 {
                    self.size - 1
                } else {
                    i - 1
                }
            },
            None => 0,
        };
        self.selected = Some(i);
    }
}

/// How many rows the per-core CPU table has: the core count of the host
/// shown by the selected detail tab, 0 on the overview tab or when the tab
/// points past the fleet.
pub open spec fn cpu_table_size(hosts: Seq<ServerView>, tab: int) -> int {
    if 1 <= tab <= hosts.len() {
        hosts[tab - 1].cpu_load_per_core.len() as int
    } else {
        0
    }
}

/// The application state: navigation, the current fleet copy, and the
/// rolling series derived from it. `rate_window_ms` is the measured time
/// between the last two fleet copies, the denominator of the throughput
/// rates; `previous_received_total`/`previous_transmitted_total` hold each
/// host's counter baseline, 0 meaning none yet.
pub struct App {
    pub title: String,
    pub tick_rate: u64,
    pub tabs: TabsState,
    pub should_quit: bool,
    pub servers: Vec<Server>,
    pub scroll: ScrollState,
    pub cpu_chart_data: Vec<Vec<u64>>,
    pub ram_chart_data: Vec<Vec<u64>>,
    pub max_chart_data_points: usize,
    pub cpu_table: CpuTable,
    pub previous_transmitted_total: Vec<u64>,
    pub previous_received_total: Vec<u64>,
    pub received_chart_data: Vec<Vec<u64>>,
    pub transmitted_chart_data: Vec<Vec<u64>>,
    pub rate_window_ms: u64,
    pub update_interval: u64,
    pub show_endpoint_popup: bool,
    pub endpoint_input: InputState,
}

/// `app` after a plain character key: `q` asks the run loop to exit, `p`
/// toggles the endpoint popup, anything else does nothing.
pub open spec fn key_spec(app: App, c: char) -> App {
    let quit = App { should_quit: true, ..app };
    let toggled = App { show_endpoint_popup: !app.show_endpoint_popup, ..app };
    if c == 'q' {
        quit
    } else if c == 'p' {
        toggled
    } else {
        app
    }
}

/// `app` after the left key: the previous tab (wrapping) when there are
/// tabs, the table selection reset, and the table sized for the new tab.
pub open spec fn nav_left_spec(app: App) -> App {
    let tabs = if app.tabs.titles@.len() > 0 {
        TabsState {
            index: (if app.tabs.index > 0 {
                app.tabs.index - 1
            } else {
                app.tabs.titles@.len() - 1
            }) as usize,
            ..app.tabs
        }
    } else {
        app.tabs
    };
    App {
        tabs,
        cpu_table: CpuTable {
            selected: Some(0usize),
            size: cpu_table_size(fleet_view(app.servers@), tabs.index as int) as usize,
        },
        ..app
    }
}

/// `app` after the right key: the next tab (wrapping) when there are tabs,
/// the table selection reset, and the table sized for the new tab.
pub open spec fn nav_right_spec(app: App) -> App {
    let tabs = if app.tabs.titles@.len() > 0 {
        TabsState {
            index: ((app.tabs.index + 1) % (app.tabs.titles@.len() as int)) as usize,
            ..app.tabs
        }
    } else {
        app.tabs
    };
    App {
        tabs,
        cpu_table: CpuTable {
            selected: Some(0usize),
            size: cpu_table_size(fleet_view(app.servers@), tabs.index as int) as usize,
        },
        ..app
    }
}

/// `app` after the up key: the overview scrolls, a detail tab moves the
/// table selection.
pub open spec fn nav_up_spec(app: App) -> App {
    if app.tabs.index == 0 {
        App { scroll: scroll_up_spec(app.scroll), ..app }
    } else {
        App { cpu_table: table_previous_spec(app.cpu_table), ..app }
    }
}

/// `app` after the down key: the overview scrolls, a detail tab moves the
/// table selection.
pub open spec fn nav_down_spec(app: App) -> App {
    if app.tabs.index == 0 {
        App { scroll: scroll_down_spec(app.scroll), ..app }
    } else {
        App { cpu_table: table_next_spec(app.cpu_table), ..app }
    }
}

impl App {
    /// The state is sound: the tab index points at a tab, the input cursor
    /// sits inside its buffer, every rolling series respects the capacity,
    /// the capacity matches the tick rate, and the rate denominator is a
    /// usable span of time.
    pub open spec fn wf(self) -> bool {
        &&& self.tabs.wf()
        &&& self.endpoint_input.wf()
        &&& series_bounded(charts_view(self.cpu_chart_data), self.max_chart_data_points as int)
        &&& series_bounded(charts_view(self.ram_chart_data), self.max_chart_data_points as int)
        &&& series_bounded(charts_view(self.received_chart_data), self.max_chart_data_points as int)
        &&& series_bounded(
            charts_view(self.transmitted_chart_data),
            self.max_chart_data_points as int,
        )
        &&& self.tick_rate >= 1
        &&& self.update_interval >= 1
        &&& self.rate_window_ms >= 1
        &&& self.max_chart_data_points == 60000int / self.tick_rate as int
    }

    /// A fresh application showing an empty fleet: one minute of history per
    /// series at the given tick rate, no tabs, nothing derived yet.
    pub fn new(title: String, tick_rate: u64, update_interval: u64) -> (app: App)
        requires
            tick_rate >= 1,
            update_interval >= 1,
        ensures
            app.title == title,
            app.tick_rate == tick_rate,
            app.update_interval == update_interval,
            app.tabs.titles@ == Seq::<String>::empty(),
            app.tabs.index == 0,
            app.should_quit == false,
            app.servers@ == Seq::<Server>::empty(),
            app.scroll.scroll_pos == 0,
            charts_view(app.cpu_chart_data) == Seq::<Seq<u64>>::empty(),
            charts_view(app.ram_chart_data) == Seq::<Seq<u64>>::empty(),
            charts_view(app.received_chart_data) == Seq::<Seq<u64>>::empty(),
            charts_view(app.transmitted_chart_data) == Seq::<Seq<u64>>::empty(),
            app.previous_received_total@ == Seq::<u64>::empty(),
            app.previous_transmitted_total@ == Seq::<u64>::empty(),
            app.max_chart_data_points == 60000int / tick_rate as int,
            app.rate_window_ms == update_interval,
            app.show_endpoint_popup == false,
            app.endpoint_input.input@ == Seq::<char>::empty(),
            app.endpoint_input.cursor_position == 0,
            app.cpu_table.selected is None,
            app.cpu_table.size == 0,
            app.wf(),
    {
        let app = App {
            title,
            tick_rate,
            tabs: TabsState::new(),
            should_quit: false,
            servers: vec![],
            scroll: ScrollState::new(),
            cpu_chart_data: vec![],
            ram_chart_data: vec![],
            max_chart_data_points: (60 * 1000 / tick_rate) as usize,
            cpu_table: CpuTable::new(),
            previous_transmitted_total: vec![],
            previous_received_total: vec![],
            received_chart_data: vec![],
            transmitted_chart_data: vec![],
            rate_window_ms: update_interval,
            update_interval,
            show_endpoint_popup: false,
            endpoint_input: InputState::default(),
        };
        proof {
            assert(charts_view(app.cpu_chart_data) =~= Seq::<Seq<u64>>::empty());
            assert(charts_view(app.ram_chart_data) =~= Seq::<Seq<u64>>::empty());
            assert(charts_view(app.received_chart_data) =~= Seq::<Seq<u64>>::empty());
            assert(charts_view(app.transmitted_chart_data) =~= Seq::<Seq<u64>>::empty());
        }
        app
    }

    /// React to a plain character key: `q` quits, `p` toggles the endpoint
    /// popup.
    pub fn on_key(&mut self, c: char)
        ensures
            *final(self) == key_spec(*old(self), c),
    {
        if c == 'q' {
            self.should_quit = true;
        }
        if c == 'p' {
            self.show_endpoint_popup = !self.show_endpoint_popup;
        }
    }

    /// Recompute how many rows the per-core CPU table has for the selected
    /// tab.
    fn refresh_cpu_table_size(&mut self)
        ensures
            final(self).cpu_table.size == cpu_table_size(
                fleet_view(old(self).servers@),
                old(self).tabs.index as int,
            ),
            *final(self) == (App {
                cpu_table: CpuTable {
                    selected: old(self).cpu_table.selected,
                    size: cpu_table_size(
                        fleet_view(old(self).servers@),
                        old(self).tabs.index as int,
                    ) as usize,
                },
                ..*old(self)
            }),
    {
        let idx = self.tabs.index;
        let n = self.servers.len();
        if 1 <= idx && idx <= n {
            self.cpu_table.size = self.servers[idx - 1].cpu_load_per_core.len();
        } else {
            self.cpu_table.size = 0;
        }
    }

    /// Switch to the previous tab and reset the table selection.
    pub fn on_left(&mut self)
        requires
            old(self).tabs.wf(),
        ensures
            *final(self) == nav_left_spec(*old(self)),
    {
        if self.tabs.titles.len() > 0 {
            self.tabs.previous();
        }
        self.cpu_table.selected = Some(0);
        self.refresh_cpu_table_size();
    }

    /// Switch to the next tab and reset the table selection.
    pub fn on_right(&mut self)
        requires
            old(self).tabs.wf(),
        ensures
            *final(self) == nav_right_spec(*old(self)),
    {
        if self.tabs.titles.len() > 0 {
            self.tabs.next();
        }
        self.cpu_table.selected = Some(0);
        self.refresh_cpu_table_size();
    }

    /// The up key: scroll the overview, or move the table selection up.
    pub fn on_up(&mut self)
        ensures
            *final(self) == nav_up_spec(*old(self)),
    {
        if self.tabs.index == 0 {
            self.scroll.up()
        } else {
            self.cpu_table.previous();
        }
    }

    /// The down key: scroll the overview, or move the table selection down.
    pub fn on_down(&mut self)
        ensures
            *final(self) == nav_down_spec(*old(self)),
    {
        if self.tabs.index == 0 {
            self.scroll.down()
        } else {
            self.cpu_table.next();
        }
    }

    /// Appends the latest CPU reading of every host of the current fleet
    /// copy to that host's series and evicts samples older than one minute.
    pub fn update_cpu_chart_data(&mut self)
        ensures
            charts_view(final(self).cpu_chart_data) == cpu_series_after(
                charts_view(old(self).cpu_chart_data),
                fleet_view(old(self).servers@),
                old(self).max_chart_data_points as int,
            ),
            *final(self) == (App { cpu_chart_data: final(self).cpu_chart_data, ..*old(self) }),
    {
        let ghost app0 = *self;
        let ghost dv0 = charts_view(self.cpu_chart_data);
        let ghost hosts = fleet_view(self.servers@);
        let cap = self.max_chart_data_points;
        let n = self.servers.len();
        while self.cpu_chart_data.len() < n
            invariant
                n == app0.servers@.len(),
                *self == (App { cpu_chart_data: self.cpu_chart_data, ..app0 }),
                dv0 == charts_view(app0.cpu_chart_data),
                charts_view(self.cpu_chart_data) == pad_series(
                    dv0,
                    self.cpu_chart_data@.len() as int,
                ),
                dv0.len() >= n ==> self.cpu_chart_data@.len() == dv0.len(),
                dv0.len() < n ==> dv0.len() <= self.cpu_chart_data@.len() <= n,
            decreases n - self.cpu_chart_data@.len(),
        {
            let ghost prev = charts_view(self.cpu_chart_data);
            let ghost k = self.cpu_chart_data@.len() as int;
            self.cpu_chart_data.push(Vec::new());
            proof {
                assert(charts_view(self.cpu_chart_data) =~= prev.push(Seq::<u64>::empty()));
                crate::metrics::lemma_pad_series_extend(dv0, prev, k);
            }
        }
        let mut i: usize = 0;
        while i < n
            invariant
                i <= n,
                n == app0.servers@.len(),
                *self == (App { cpu_chart_data: self.cpu_chart_data, ..app0 }),
                hosts == fleet_view(app0.servers@),
                dv0 == charts_view(app0.cpu_chart_data),
                cap == app0.max_chart_data_points,
                self.cpu_chart_data@.len() == pad_series(dv0, n as int).len(),
                forall|j: int|
                    0 <= j < i ==> charts_view(self.cpu_chart_data)[j] == cpu_series_after(
                        dv0,
                        hosts,
                        cap as int,
                    )[j],
                forall|j: int|
                    i <= j < self.cpu_chart_data@.len() ==> charts_view(self.cpu_chart_data)[j]
                        == pad_series(dv0, n as int)[j],
            decreases n - i,
        {
            let sample = self.servers[i].cpu_usage / 100;
            let updated = bounded_push(&self.cpu_chart_data[i], sample, cap);
            proof {
                assert(hosts[i as int] == app0.servers@[i as int]@);
                assert(sample == cpu_sample(hosts[i as int]));
            }
            self.cpu_chart_data.set(i, updated);
            proof {
                assert(charts_view(self.cpu_chart_data)[i as int] == push_bounded(
                    pad_series(dv0, n as int)[i as int],
                    cpu_sample(hosts[i as int]),
                    cap as int,
                ));
            }
            i = i + 1;
        }
        proof {
            assert(charts_view(self.cpu_chart_data) =~~= cpu_series_after(dv0, hosts, cap as int));
        }
    }

    /// Appends the latest memory-usage percentage of every host of the
    /// current fleet copy to that host's series and evicts samples older
    /// than one minute.
    pub fn update_ram_chart_data(&mut self)
        ensures
            charts_view(final(self).ram_chart_data) == ram_series_after(
                charts_view(old(self).ram_chart_data),
                fleet_view(old(self).servers@),
                old(self).max_chart_data_points as int,
            ),
            *final(self) == (App { ram_chart_data: final(self).ram_chart_data, ..*old(self) }),
    {
        let ghost app0 = *self;
        let ghost dv0 = charts_view(self.ram_chart_data);
        let ghost hosts = fleet_view(self.servers@);
        let cap = self.max_chart_data_points;
        let n = self.servers.len();
        while self.ram_chart_data.len() < n
            invariant
                n == app0.servers@.len(),
                *self == (App { ram_chart_data: self.ram_chart_data, ..app0 }),
                dv0 == charts_view(app0.ram_chart_data),
                charts_view(self.ram_chart_data) == pad_series(
                    dv0,
                    self.ram_chart_data@.len() as int,
                ),
                dv0.len() >= n ==> self.ram_chart_data@.len() == dv0.len(),
                dv0.len() < n ==> dv0.len() <= self.ram_chart_data@.len() <= n,
            decreases n - self.ram_chart_data@.len(),
        {
            let ghost prev = charts_view(self.ram_chart_data);
            let ghost k = self.ram_chart_data@.len() as int;
            self.ram_chart_data.push(Vec::new());
            proof {
                assert(charts_view(self.ram_chart_data) =~= prev.push(Seq::<u64>::empty()));
                crate::metrics::lemma_pad_series_extend(dv0, prev, k);
            }
        }
        let mut i: usize = 0;
        while i < n
            invariant
                i <= n,
                n == app0.servers@.len(),
                *self == (App { ram_chart_data: self.ram_chart_data, ..app0 }),
                hosts == fleet_view(app0.servers@),
                dv0 == charts_view(app0.ram_chart_data),
                cap == app0.max_chart_data_points,
                self.ram_chart_data@.len() == pad_series(dv0, n as int).len(),
                forall|j: int|
                    0 <= j < i ==> charts_view(self.ram_chart_data)[j] == ram_series_after(
                        dv0,
                        hosts,
                        cap as int,
                    )[j],
                forall|j: int|
                    i <= j < self.ram_chart_data@.len() ==> charts_view(self.ram_chart_data)[j]
                        == pad_series(dv0, n as int)[j],
            decreases n - i,
        {
            let sample = used_as_percentage(
                self.servers[i].used_memory,
                self.servers[i].total_memory,
            );
            let updated = bounded_push(&self.ram_chart_data[i], sample, cap);
            proof {
                assert(hosts[i as int] == app0.servers@[i as int]@);
                assert(sample == ram_sample(hosts[i as int]));
            }
            self.ram_chart_data.set(i, updated);
            proof {
                assert(charts_view(self.ram_chart_data)[i as int] == push_bounded(
                    pad_series(dv0, n as int)[i as int],
                    ram_sample(hosts[i as int]),
                    cap as int,
                ));
            }
            i = i + 1;
        }
        proof {
            assert(charts_view(self.ram_chart_data) =~~= ram_series_after(dv0, hosts, cap as int));
        }
    }

    /// Records every host's current byte counters as the baselines the next
    /// rate samples will be measured against.
    pub fn update_previous_network_data(&mut self)
        ensures
            final(self).previous_received_total@ == baselines_after(
                old(self).previous_received_total@,
                rx_counters(fleet_view(old(self).servers@)),
            ),
            final(self).previous_transmitted_total@ == baselines_after(
                old(self).previous_transmitted_total@,
                tx_counters(fleet_view(old(self).servers@)),
            ),
            *final(self) == (App {
                previous_received_total: final(self).previous_received_total,
                previous_transmitted_total: final(self).previous_transmitted_total,
                ..*old(self)
            }),
    {
        let ghost app0 = *self;
        let ghost hosts = fleet_view(self.servers@);
        let n = self.servers.len();
        let mut i: usize = 0;
        while i < n
            invariant
                i <= n,
                n == app0.servers@.len(),
                hosts == fleet_view(app0.servers@),
                *self == (App {
                    previous_received_total: self.previous_received_total,
                    previous_transmitted_total: self.previous_transmitted_total,
                    ..app0
                }),
                self.previous_received_total@.len() == vstd::math::max(
                    app0.previous_received_total@.len() as int,
                    i as int,
                ),
                self.previous_transmitted_total@.len() == vstd::math::max(
                    app0.previous_transmitted_total@.len() as int,
                    i as int,
                ),
                forall|j: int|
                    0 <= j < i ==> self.previous_received_total@[j] == rx_counters(hosts)[j],
                forall|j: int|
                    0 <= j < i ==> self.previous_transmitted_total@[j] == tx_counters(hosts)[j],
                forall|j: int|
                    i <= j < self.previous_received_total@.len() ==> self.previous_received_total@[j]
                        == app0.previous_received_total@[j],
                forall|j: int|
                    i <= j < self.previous_transmitted_total@.len()
                        ==> self.previous_transmitted_total@[j]
                        == app0.previous_transmitted_total@[j],
            decreases n - i,
        {
            let old_transmitted = self.servers[i].bytes_transmitted;
            let old_received = self.servers[i].bytes_received;
            proof {
                assert(hosts[i as int] == app0.servers@[i as int]@);
            }
            if i < self.previous_transmitted_total.len() {
                self.previous_transmitted_total.set(i, old_transmitted);
            } else {
                self.previous_transmitted_total.push(old_transmitted);
            }
            if i < self.previous_received_total.len() {
                self.previous_received_total.set(i, old_received);
            } else {
                self.previous_received_total.push(old_received);
            }
            i = i + 1;
        }
        proof {
            assert(self.previous_received_total@ =~= baselines_after(
                app0.previous_received_total@,
                rx_counters(hosts),
            ));
            assert(self.previous_transmitted_total@ =~= baselines_after(
                app0.previous_transmitted_total@,
                tx_counters(hosts),
            ));
        }
    }

    /// Appends a throughput sample (KB/s, received and transmitted) for
    /// every host of the current fleet copy that already has a counter
    /// baseline; hosts without one get no sample yet. Series are bounded as
    /// for the other metrics.
    pub fn update_network_chart_data(&mut self)
        requires
            old(self).rate_window_ms >= 1,
        ensures
            charts_view(final(self).received_chart_data) == rate_series_after(
                charts_view(old(self).received_chart_data),
                rx_counters(fleet_view(old(self).servers@)),
                old(self).previous_received_total@,
                old(self).previous_transmitted_total@,
                old(self).previous_received_total@,
                old(self).rate_window_ms,
                old(self).max_chart_data_points as int,
            ),
            charts_view(final(self).transmitted_chart_data) == rate_series_after(
                charts_view(old(self).transmitted_chart_data),
                tx_counters(fleet_view(old(self).servers@)),
                old(self).previous_received_total@,
                old(self).previous_transmitted_total@,
                old(self).previous_transmitted_total@,
                old(self).rate_window_ms,
                old(self).max_chart_data_points as int,
            ),
            *final(self) == (App {
                received_chart_data: final(self).received_chart_data,
                transmitted_chart_data: final(self).transmitted_chart_data,
                ..*old(self)
            }),
    {
        let ghost app0 = *self;
        let ghost rx0 = charts_view(self.received_chart_data);
        let ghost tx0 = charts_view(self.transmitted_chart_data);
        let ghost hosts = fleet_view(self.servers@);
        let cap = self.max_chart_data_points;
        let n = self.servers.len();
        while self.received_chart_data.len() < n
            invariant
                n == app0.servers@.len(),
                *self == (App { received_chart_data: self.received_chart_data, ..app0 }),
                rx0 == charts_view(app0.received_chart_data),
                charts_view(self.received_chart_data) == pad_series(
                    rx0,
                    self.received_chart_data@.len() as int,
                ),
                rx0.len() >= n ==> self.received_chart_data@.len() == rx0.len(),
                rx0.len() < n ==> rx0.len() <= self.received_chart_data@.len() <= n,
            decreases n - self.received_chart_data@.len(),
        {
            let ghost prev = charts_view(self.received_chart_data);
            let ghost k = self.received_chart_data@.len() as int;
            self.received_chart_data.push(Vec::new());
            proof {
                assert(charts_view(self.received_chart_data) =~= prev.push(Seq::<u64>::empty()));
                crate::metrics::lemma_pad_series_extend(rx0, prev, k);
            }
        }
        while self.transmitted_chart_data.len() < n
            invariant
                n == app0.servers@.len(),
                *self == (App {
                    received_chart_data: self.received_chart_data,
                    transmitted_chart_data: self.transmitted_chart_data,
                    ..app0
                }),
                tx0 == charts_view(app0.transmitted_chart_data),
                rx0 == charts_view(app0.received_chart_data),
                charts_view(self.received_chart_data) == pad_series(
                    rx0,
                    self.received_chart_data@.len() as int,
                ),
                rx0.len() >= n ==> self.received_chart_data@.len() == rx0.len(),
                rx0.len() < n ==> rx0.len() <= self.received_chart_data@.len() <= n,
                self.received_chart_data@.len() >= n,
                charts_view(self.transmitted_chart_data) == pad_series(
                    tx0,
                    self.transmitted_chart_data@.len() as int,
                ),
                tx0.len() >= n ==> self.transmitted_chart_data@.len() == tx0.len(),
                tx0.len() < n ==> tx0.len() <= self.transmitted_chart_data@.len() <= n,
            decreases n - self.transmitted_chart_data@.len(),
        {
            let ghost prev = charts_view(self.transmitted_chart_data);
            let ghost k = self.transmitted_chart_data@.len() as int;
            self.transmitted_chart_data.push(Vec::new());
            proof {
                assert(charts_view(self.transmitted_chart_data) =~= prev.push(Seq::<u64>::empty()));
                crate::metrics::lemma_pad_series_extend(tx0, prev, k);
            }
        }
        let mut i: usize = 0;
        while i < n
            invariant
                i <= n,
                n == app0.servers@.len(),
                *self == (App {
                    received_chart_data: self.received_chart_data,
                    transmitted_chart_data: self.transmitted_chart_data,
                    ..app0
                }),
                hosts == fleet_view(app0.servers@),
                rx0 == charts_view(app0.received_chart_data),
                tx0 == charts_view(app0.transmitted_chart_data),
                cap == app0.max_chart_data_points,
                self.received_chart_data@.len() == pad_series(rx0, n as int).len(),
                self.transmitted_chart_data@.len() == pad_series(tx0, n as int).len(),
                forall|j: int|
                    0 <= j < i ==> charts_view(self.received_chart_data)[j] == rate_series_after(
                        rx0,
                        rx_counters(hosts),
                        app0.previous_received_total@,
                        app0.previous_transmitted_total@,
                        app0.previous_received_total@,
                        app0.rate_window_ms,
                        cap as int,
                    )[j],
                forall|j: int|
                    0 <= j < i ==> charts_view(self.transmitted_chart_data)[j] == rate_series_after(
                        tx0,
                        tx_counters(hosts),
                        app0.previous_received_total@,
                        app0.previous_transmitted_total@,
                        app0.previous_transmitted_total@,
                        app0.rate_window_ms,
                        cap as int,
                    )[j],
                forall|j: int|
                    i <= j < self.received_chart_data@.len()
                        ==> charts_view(self.received_chart_data)[j] == pad_series(rx0, n as int)[j],
                forall|j: int|
                    i <= j < self.transmitted_chart_data@.len()
                        ==> charts_view(self.transmitted_chart_data)[j] == pad_series(
                        tx0,
                        n as int,
                    )[j],
                self.rate_window_ms == app0.rate_window_ms,
                app0.rate_window_ms >= 1,
            decreases n - i,
        {
            proof {
                assert(hosts.len() == n);
                assert(rx_counters(hosts).len() == n);
                assert(tx_counters(hosts).len() == n);
                assert(hosts[i as int] == app0.servers@[i as int]@);
                assert(rx_counters(hosts)[i as int] == hosts[i as int].bytes_received);
                assert(tx_counters(hosts)[i as int] == hosts[i as int].bytes_transmitted);
            }
            let has_baseline = i < self.previous_received_total.len() && i
                < self.previous_transmitted_total.len() && self.previous_received_total[i] != 0
                && self.previous_transmitted_total[i] != 0;
            proof {
                assert(has_baseline == baseline_set(
                    app0.previous_received_total@,
                    app0.previous_transmitted_total@,
                    i as int,
                ));
            }
            if has_baseline {
                let rx_rate = compute_rate(
                    self.servers[i].bytes_received,
                    self.previous_received_total[i],
                    self.rate_window_ms,
                );
                let tx_rate = compute_rate(
                    self.servers[i].bytes_transmitted,
                    self.previous_transmitted_total[i],
                    self.rate_window_ms,
                );
                let ghost rx_pre = charts_view(self.received_chart_data);
                let updated_rx = bounded_push(&self.received_chart_data[i], rx_rate, cap);
                self.received_chart_data.set(i, updated_rx);
                proof {
                    assert(forall|j: int|
                        0 <= j < rx_pre.len() && j != i ==> #[trigger] charts_view(
                            self.received_chart_data,
                        )[j] == rx_pre[j]);
                }
                let ghost tx_pre = charts_view(self.transmitted_chart_data);
                let updated_tx = bounded_push(&self.transmitted_chart_data[i], tx_rate, cap);
                self.transmitted_chart_data.set(i, updated_tx);
                proof {
                    assert(forall|j: int|
                        0 <= j < tx_pre.len() && j != i ==> #[trigger] charts_view(
                            self.transmitted_chart_data,
                        )[j] == tx_pre[j]);
                }
                proof {
                    assert(rx_rate == crate::metrics::rate_sample(
                        rx_counters(hosts)[i as int],
                        app0.previous_received_total@[i as int],
                        app0.rate_window_ms,
                    ));
                    assert(tx_rate == crate::metrics::rate_sample(
                        tx_counters(hosts)[i as int],
                        app0.previous_transmitted_total@[i as int],
                        app0.rate_window_ms,
                    ));
                    assert(charts_view(self.received_chart_data)[i as int] == push_bounded(
                        pad_series(rx0, n as int)[i as int],
                        crate::metrics::rate_sample(
                            rx_counters(hosts)[i as int],
                            app0.previous_received_total@[i as int],
                            app0.rate_window_ms,
                        ),
                        cap as int,
                    ));
                    assert(charts_view(self.transmitted_chart_data)[i as int] == push_bounded(
                        pad_series(tx0, n as int)[i as int],
                        crate::metrics::rate_sample(
                            tx_counters(hosts)[i as int],
                            app0.previous_transmitted_total@[i as int],
                            app0.rate_window_ms,
                        ),
                        cap as int,
                    ));
                }
            }
            i = i + 1;
        }
        proof {
            assert(charts_view(self.received_chart_data) =~~= rate_series_after(
                rx0,
                rx_counters(hosts),
                app0.previous_received_total@,
                app0.previous_transmitted_total@,
                app0.previous_received_total@,
                app0.rate_window_ms,
                cap as int,
            ));
            assert(charts_view(self.transmitted_chart_data) =~~= rate_series_after(
                tx0,
                tx_counters(hosts),
                app0.previous_received_total@,
                app0.previous_transmitted_total@,
                app0.previous_transmitted_total@,
                app0.rate_window_ms,
                cap as int,
            ));
        }
    }

    /// Size the overview's scroll range to the fleet it shows.
    fn refresh_scroll_content(&mut self)
        ensures
            *final(self) == (App {
                scroll: ScrollState {
                    scroll_pos: old(self).scroll.scroll_pos,
                    scroll_content_length: (vstd::math::min(
                        old(self).servers@.len() as int,
                        u16::MAX as int,
                    )) as u16,
                },
                ..*old(self)
            }),
    {
        let len = self.servers.len();
        self.scroll.scroll_content_length = if len > u16::MAX as usize {
            u16::MAX
        } else {
            len as u16
        };
    }

    /// One UI tick. The tab strip follows the fresh fleet copy `servers`
    /// immediately; the rolling series take one sample per host from the
    /// stored copy; and only when at least the update interval has elapsed
    /// since the stored copy was taken (`elapsed_ms`) are the baselines
    /// recorded, the fresh copy adopted and the rate window re-measured —
    /// the returned flag says whether that happened, so the caller can reset
    /// its clock. The fleet only ever grows, so `servers` never has fewer
    /// hosts than the tab strip already shows.
    pub fn on_tick(&mut self, servers: Vec<Server>, elapsed_ms: u64) -> (updated: bool)
        requires
            old(self).wf(),
            servers@.len() + 1 >= old(self).tabs.titles@.len(),
        ensures
            updated == (elapsed_ms >= old(self).update_interval),
            final(self).tabs.titles.deep_view() == tab_titles(fleet_view(servers@)),
            final(self).tabs.index == old(self).tabs.index,
            charts_view(final(self).cpu_chart_data) == cpu_series_after(
                charts_view(old(self).cpu_chart_data),
                fleet_view(old(self).servers@),
                old(self).max_chart_data_points as int,
            ),
            charts_view(final(self).ram_chart_data) == ram_series_after(
                charts_view(old(self).ram_chart_data),
                fleet_view(old(self).servers@),
                old(self).max_chart_data_points as int,
            ),
            charts_view(final(self).received_chart_data) == rate_series_after(
                charts_view(old(self).received_chart_data),
                rx_counters(fleet_view(old(self).servers@)),
                old(self).previous_received_total@,
                old(self).previous_transmitted_total@,
                old(self).previous_received_total@,
                old(self).rate_window_ms,
                old(self).max_chart_data_points as int,
            ),
            charts_view(final(self).transmitted_chart_data) == rate_series_after(
                charts_view(old(self).transmitted_chart_data),
                tx_counters(fleet_view(old(self).servers@)),
                old(self).previous_received_total@,
                old(self).previous_transmitted_total@,
                old(self).previous_transmitted_total@,
                old(self).rate_window_ms,
                old(self).max_chart_data_points as int,
            ),
            updated ==> final(self).previous_received_total@ == baselines_after(
                old(self).previous_received_total@,
                rx_counters(fleet_view(old(self).servers@)),
            ),
            updated ==> final(self).previous_transmitted_total@ == baselines_after(
                old(self).previous_transmitted_total@,
                tx_counters(fleet_view(old(self).servers@)),
            ),
            updated ==> final(self).servers == servers,
            updated ==> final(self).rate_window_ms == elapsed_ms,
            !updated ==> final(self).previous_received_total == old(self).previous_received_total,
            !updated ==> final(self).previous_transmitted_total == old(
                self,
            ).previous_transmitted_total,
            !updated ==> final(self).servers == old(self).servers,
            !updated ==> final(self).rate_window_ms == old(self).rate_window_ms,
            final(self).scroll.scroll_pos == old(self).scroll.scroll_pos,
            final(self).scroll.scroll_content_length == vstd::math::min(
                final(self).servers@.len() as int,
                u16::MAX as int,
            ),
            final(self).cpu_table.selected == old(self).cpu_table.selected,
            final(self).cpu_table.size == cpu_table_size(
                fleet_view(final(self).servers@),
                old(self).tabs.index as int,
            ),
            final(self).title == old(self).title,
            final(self).tick_rate == old(self).tick_rate,
            final(self).update_interval == old(self).update_interval,
            final(self).max_chart_data_points == old(self).max_chart_data_points,
            final(self).should_quit == old(self).should_quit,
            final(self).show_endpoint_popup == old(self).show_endpoint_popup,
            final(self).endpoint_input == old(self).endpoint_input,
            final(self).wf(),
    {
        let ghost hosts0 = fleet_view(self.servers@);
        self.tabs.update_tabs(&servers);
        self.update_cpu_chart_data();
        self.update_ram_chart_data();
        self.update_network_chart_data();
        let updated = elapsed_ms >= self.update_interval;
        if updated {
            self.update_previous_network_data();
            self.rate_window_ms = elapsed_ms;
            self.servers = servers;
        }
        self.refresh_scroll_content();
        self.refresh_cpu_table_size();
        proof {
            lemma_value_series_stay_bounded(
                charts_view(old(self).cpu_chart_data),
                hosts0.map_values(|h: ServerView| cpu_sample(h)),
                old(self).max_chart_data_points as int,
            );
            lemma_value_series_stay_bounded(
                charts_view(old(self).ram_chart_data),
                hosts0.map_values(|h: ServerView| ram_sample(h)),
                old(self).max_chart_data_points as int,
            );
            lemma_rate_series_stay_bounded(
                charts_view(old(self).received_chart_data),
                rx_counters(hosts0),
                old(self).previous_received_total@,
                old(self).previous_transmitted_total@,
                old(self).previous_received_total@,
                old(self).rate_window_ms,
                old(self).max_chart_data_points as int,
            );
            lemma_rate_series_stay_bounded(
                charts_view(old(self).transmitted_chart_data),
                tx_counters(hosts0),
                old(self).previous_received_total@,
                old(self).previous_transmitted_total@,
                old(self).previous_transmitted_total@,
                old(self).rate_window_ms,
                old(self).max_chart_data_points as int,
            );
        }
        updated
    }
}

/// A key press as the run loop hands it to the state machine.
pub enum KeyInput {
    Char(char),
    Left,
    Right,
    Up,
    Down,
    Enter,
    Backspace,
    Esc,
    Other,
}

/// `b` is `a` with at most the endpoint popup flag and the entry buffer
/// changed.
pub open spec fn same_outside_entry(a: App, b: App) -> bool {
    b == (App { show_endpoint_popup: b.show_endpoint_popup, endpoint_input: b.endpoint_input, ..a })
}

impl App {
    /// Dispatch one key press. While the endpoint popup is open the key
    /// edits the entry buffer; Enter commits it and hands back the new
    /// placeholder host for the run loop to register, Escape closes the
    /// popup and keeps the buffer. Otherwise the key navigates, and `q` and
    /// `p` act as `on_key` says.
    pub fn handle_key(&mut self, key: KeyInput) -> (pending: Option<Server>)
        requires
            old(self).wf(),
        ensures
            old(self).show_endpoint_popup ==> match key {
                KeyInput::Enter => {
                    &&& pending is Some
                    &&& pending->0@.is_placeholder()
                    &&& pending->0@.endpoint == old(self).endpoint_input.input@
                    &&& final(self).show_endpoint_popup == false
                    &&& final(self).endpoint_input.input@ == Seq::<char>::empty()
                    &&& final(self).endpoint_input.cursor_position == 0
                    &&& same_outside_entry(*old(self), *final(self))
                },
                KeyInput::Char(c) => {
                    &&& pending is None
                    &&& final(self).show_endpoint_popup == true
                    &&& final(self).endpoint_input.input@ == old(
                        self,
                    ).endpoint_input.input@.subrange(
                        0,
                        old(self).endpoint_input.cursor_position as int,
                    ).push(c) + old(self).endpoint_input.input@.subrange(
                        old(self).endpoint_input.cursor_position as int,
                        old(self).endpoint_input.input@.len() as int,
                    )
                    &&& final(self).endpoint_input.cursor_position == old(
                        self,
                    ).endpoint_input.cursor_position + 1
                    &&& same_outside_entry(*old(self), *final(self))
                },
                KeyInput::Backspace => {
                    &&& pending is None
                    &&& final(self).show_endpoint_popup == true
                    &&& (old(self).endpoint_input.cursor_position == 0 ==> *final(self) == *old(
                        self,
                    ))
                    &&& (old(self).endpoint_input.cursor_position > 0 ==> {
                        &&& final(self).endpoint_input.input@ == old(
                            self,
                        ).endpoint_input.input@.subrange(
                            0,
                            old(self).endpoint_input.cursor_position - 1,
                        ) + old(self).endpoint_input.input@.subrange(
                            old(self).endpoint_input.cursor_position as int,
                            old(self).endpoint_input.input@.len() as int,
                        )
                        &&& final(self).endpoint_input.cursor_position == old(
                            self,
                        ).endpoint_input.cursor_position - 1
                    })
                    &&& same_outside_entry(*old(self), *final(self))
                },
                KeyInput::Left => {
                    &&& pending is None
                    &&& final(self).endpoint_input.input == old(self).endpoint_input.input
                    &&& final(self).endpoint_input.cursor_position == vstd::math::min(
                        if old(self).endpoint_input.cursor_position > 0 {
                            old(self).endpoint_input.cursor_position - 1
                        } else {
                            0int
                        },
                        old(self).endpoint_input.input@.len() as int,
                    )
                    &&& same_outside_entry(*old(self), *final(self))
                    &&& final(self).show_endpoint_popup == true
                },
                KeyInput::Right => {
                    &&& pending is None
                    &&& final(self).endpoint_input.input == old(self).endpoint_input.input
                    &&& final(self).endpoint_input.cursor_position == vstd::math::min(
                        old(self).endpoint_input.cursor_position + 1,
                        old(self).endpoint_input.input@.len() as int,
                    )
                    &&& same_outside_entry(*old(self), *final(self))
                    &&& final(self).show_endpoint_popup == true
                },
                KeyInput::Esc => {
                    &&& pending is None
                    &&& final(self).show_endpoint_popup == false
                    &&& final(self).endpoint_input == old(self).endpoint_input
                    &&& same_outside_entry(*old(self), *final(self))
                },
                _ => pending is None && *final(self) == *old(self),
            },
            !old(self).show_endpoint_popup ==> {
                &&& pending is None
                &&& match key {
                    KeyInput::Char(c) => *final(self) == key_spec(*old(self), c),
                    KeyInput::Left => *final(self) == nav_left_spec(*old(self)),
                    KeyInput::Right => *final(self) == nav_right_spec(*old(self)),
                    KeyInput::Up => *final(self) == nav_up_spec(*old(self)),
                    KeyInput::Down => *final(self) == nav_down_spec(*old(self)),
                    _ => *final(self) == *old(self),
                }
            },
            final(self).wf(),
    {
        if self.show_endpoint_popup {
            match key {
                KeyInput::Enter => {
                    let new_server = self.endpoint_input.add_endpoint();
                    self.show_endpoint_popup = false;
                    Some(new_server)
                },
                KeyInput::Char(to_insert) => {
                    self.endpoint_input.enter_char(to_insert);
                    None
                },
                KeyInput::Backspace => {
                    self.endpoint_input.delete_char();
                    None
                },
                KeyInput::Left => {
                    self.endpoint_input.move_cursor_left();
                    None
                },
                KeyInput::Right => {
                    self.endpoint_input.move_cursor_right();
                    None
                },
                KeyInput::Esc => {
                    self.show_endpoint_popup = false;
                    None
                },
                _ => None,
            }
        } else {
            match key {
                KeyInput::Char(c) => self.on_key(c),
                KeyInput::Left => self.on_left(),
                KeyInput::Right => self.on_right(),
                KeyInput::Up => self.on_up(),
                KeyInput::Down => self.on_down(),
                _ => {},
            }
            None
        }
    }
}

} // verus!
