//! A tracked host: its endpoint URL and the most recent metrics snapshot
//! retrieved from it. Fractional quantities that arrive from the wire
//! (CPU usage, load averages) are held in hundredths, so every field is a
//! plain integer or text value.

use vstd::prelude::*;

verus! {

/// One tracked host of the fleet: the endpoint it is polled at plus the last
/// successfully retrieved snapshot, or a zero-valued placeholder if no fetch
/// has succeeded yet. `cpu_usage`, the entries of `cpu_load_per_core` and the
/// three load averages are in hundredths (2550 means 25.50).
pub struct Server {
    pub endpoint: String,
    pub hostname: String,
    pub total_memory: u64,
    pub used_memory: u64,
    pub total_space: u64,
    pub available_space: u64,
    pub cpu_amount: usize,
    pub cpu_usage: u64,
    pub cpu_load_per_core: Vec<u64>,
    pub disk_names: Vec<String>,
    pub disk_available: Vec<u64>,
    pub disk_total: Vec<u64>,
    pub uptime: u64,
    pub os_version: String,
    pub kernel_version: String,
    pub load_avg_one: u64,
    pub load_avg_five: u64,
    pub load_avg_fifteen: u64,
    pub bytes_received: u64,
    pub bytes_transmitted: u64,
}

/// The mathematical value of a `Server`: text as character sequences,
/// vectors as sequences.
pub struct ServerView {
    pub endpoint: Seq<char>,
    pub hostname: Seq<char>,
    pub total_memory: u64,
    pub used_memory: u64,
    pub total_space: u64,
    pub available_space: u64,
    pub cpu_amount: usize,
    pub cpu_usage: u64,
    pub cpu_load_per_core: Seq<u64>,
    pub disk_names: Seq<Seq<char>>,
    pub disk_available: Seq<u64>,
    pub disk_total: Seq<u64>,
    pub uptime: u64,
    pub os_version: Seq<char>,
    pub kernel_version: Seq<char>,
    pub load_avg_one: u64,
    pub load_avg_five: u64,
    pub load_avg_fifteen: u64,
    pub bytes_received: u64,
    pub bytes_transmitted: u64,
}

impl View for Server {
    type V = ServerView;

    open spec fn view(&self) -> ServerView {
        ServerView {
            endpoint: self.endpoint@,
            hostname: self.hostname@,
            total_memory: self.total_memory,
            used_memory: self.used_memory,
            total_space: self.total_space,
            available_space: self.available_space,
            cpu_amount: self.cpu_amount,
            cpu_usage: self.cpu_usage,
            cpu_load_per_core: self.cpu_load_per_core@,
            disk_names: self.disk_names.deep_view(),
            disk_available: self.disk_available@,
            disk_total: self.disk_total@,
            uptime: self.uptime,
            os_version: self.os_version@,
            kernel_version: self.kernel_version@,
            load_avg_one: self.load_avg_one,
            load_avg_five: self.load_avg_five,
            load_avg_fifteen: self.load_avg_fifteen,
            bytes_received: self.bytes_received,
            bytes_transmitted: self.bytes_transmitted,
        }
    }
}

impl ServerView {
    /// All metric fields are zero or empty; only the endpoint carries data.
    pub open spec fn is_placeholder(self) -> bool {
        self == ServerView {
            endpoint: self.endpoint,
            hostname: Seq::<char>::empty(),
            total_memory: 0u64,
            used_memory: 0u64,
            total_space: 0u64,
            available_space: 0u64,
            cpu_amount: 0usize,
            cpu_usage: 0u64,
            cpu_load_per_core: Seq::<u64>::empty(),
            disk_names: Seq::<Seq<char>>::empty(),
            disk_available: Seq::<u64>::empty(),
            disk_total: Seq::<u64>::empty(),
            uptime: 0u64,
            os_version: Seq::<char>::empty(),
            kernel_version: Seq::<char>::empty(),
            load_avg_one: 0u64,
            load_avg_five: 0u64,
            load_avg_fifteen: 0u64,
            bytes_received: 0u64,
            bytes_transmitted: 0u64,
        }
    }

    /// This snapshot with its endpoint replaced by `endpoint`: how a freshly
    /// parsed snapshot is adopted for the host it was fetched from.
    pub open spec fn with_endpoint(self, endpoint: Seq<char>) -> ServerView {
        ServerView { endpoint, ..self }
    }
}

impl Server {
    /// A placeholder entry for a not-yet-fetched host at `endpoint`.
    pub fn new(endpoint: String) -> (s: Server)
        ensures
            s@.is_placeholder(),
            s@.endpoint == endpoint@,
    {
        let s = Server {
            endpoint,
            hostname: String::new(),
            total_memory: 0,
            used_memory: 0,
            total_space: 0,
            available_space: 0,
            cpu_amount: 0,
            cpu_usage: 0,
            cpu_load_per_core: Vec::new(),
            disk_names: Vec::new(),
            disk_available: Vec::new(),
            disk_total: Vec::new(),
            uptime: 0,
            os_version: String::new(),
            kernel_version: String::new(),
            load_avg_one: 0,
            load_avg_five: 0,
            load_avg_fifteen: 0,
            bytes_received: 0,
            bytes_transmitted: 0,
        };
        proof {
            assert(s.disk_names.deep_view() =~= Seq::<Seq<char>>::empty());
        }
        s
    }
}

impl Clone for Server {
    fn clone(&self) -> (res: Server)
        ensures
            res@ == self@,
    {
        let res = Server {
            endpoint: self.endpoint.clone(),
            hostname: self.hostname.clone(),
            total_memory: self.total_memory,
            used_memory: self.used_memory,
            total_space: self.total_space,
            available_space: self.available_space,
            cpu_amount: self.cpu_amount,
            cpu_usage: self.cpu_usage,
            cpu_load_per_core: self.cpu_load_per_core.clone(),
            disk_names: self.disk_names.clone(),
            disk_available: self.disk_available.clone(),
            disk_total: self.disk_total.clone(),
            uptime: self.uptime,
            os_version: self.os_version.clone(),
            kernel_version: self.kernel_version.clone(),
            load_avg_one: self.load_avg_one,
            load_avg_five: self.load_avg_five,
            load_avg_fifteen: self.load_avg_fifteen,
            bytes_received: self.bytes_received,
            bytes_transmitted: self.bytes_transmitted,
        };
        proof {
            assert(res.cpu_load_per_core@ =~= self.cpu_load_per_core@);
            assert(res.disk_available@ =~= self.disk_available@);
            assert(res.disk_total@ =~= self.disk_total@);
            assert(res.disk_names.deep_view() =~= self.disk_names.deep_view());
            assert(res@ =~= self@);
        }
        res
    }
}

/// The views of a fleet of hosts, in order.
pub open spec fn fleet_view(hosts: Seq<Server>) -> Seq<ServerView> {
    hosts.map_values(|s: Server| s@)
}

/// Every host of `hosts` is a placeholder for the matching endpoint.
pub open spec fn all_placeholders(hosts: Seq<ServerView>, endpoints: Seq<Seq<char>>) -> bool {
    &&& hosts.len() == endpoints.len()
    &&& forall|i: int|
        0 <= i < hosts.len() ==> (#[trigger] hosts[i]).is_placeholder() && hosts[i].endpoint
            == endpoints[i]
}

/// Initialises a `Vec<Server>` with default values and an endpoint for each
/// instance of `Server`.
pub fn init_with_endpoint(endpoints: Vec<String>) -> (servers: Vec<Server>)
    ensures
        all_placeholders(fleet_view(servers@), endpoints.deep_view()),
{
    let mut servers: Vec<Server> = Vec::new();
    let n = endpoints.len();
    let mut i: usize = 0;
    while i < n
        invariant
            i <= n,
            n == endpoints@.len(),
            servers@.len() == i,
            forall|j: int|
                0 <= j < i ==> (#[trigger] servers@[j]@).is_placeholder() && servers@[j]@.endpoint
                    == endpoints@[j]@,
        decreases n - i,
    {
        let endpoint = endpoints[i].clone();
        servers.push(Server::new(endpoint));
        i = i + 1;
    }
    servers
}

} // verus!
