use dashboard::poller::{apply_fetch, apply_sweep};
use dashboard::registry::Registry;
use dashboard::server::{init_with_endpoint, Server};

fn snapshot(hostname: &str, rx: u64, tx: u64) -> Server {
    let mut s = Server::new(String::new());
    s.hostname = hostname.to_string();
    s.total_memory = 8192;
    s.used_memory = 4096;
    s.cpu_usage = 2550;
    s.bytes_received = rx;
    s.bytes_transmitted = tx;
    s
}

fn is_placeholder(s: &Server) -> bool {
    s.hostname.is_empty()
        && s.total_memory == 0
        && s.used_memory == 0
        && s.cpu_usage == 0
        && s.bytes_received == 0
        && s.bytes_transmitted == 0
        && s.cpu_load_per_core.is_empty()
        && s.uptime == 0
}

#[test]
fn init_gives_one_placeholder_per_endpoint() {
    let servers = init_with_endpoint(vec!["http://a:3000".to_string(), "http://b:3000".to_string()]);
    assert_eq!(servers.len(), 2);
    assert_eq!(servers[0].endpoint, "http://a:3000");
    assert_eq!(servers[1].endpoint, "http://b:3000");
    assert!(is_placeholder(&servers[0]));
    assert!(is_placeholder(&servers[1]));
}

#[test]
fn apply_fetch_success_replaces_snapshot_and_keeps_endpoint() {
    let mut host = Server::new("http://a:3000".to_string());
    apply_fetch(&mut host, Some(snapshot("alpha", 100, 200)));
    assert_eq!(host.endpoint, "http://a:3000");
    assert_eq!(host.hostname, "alpha");
    assert_eq!(host.bytes_received, 100);
    assert_eq!(host.bytes_transmitted, 200);
}

#[test]
fn apply_fetch_failure_changes_nothing() {
    let mut host = Server::new("http://a:3000".to_string());
    apply_fetch(&mut host, Some(snapshot("alpha", 100, 200)));
    apply_fetch(&mut host, None);
    assert_eq!(host.endpoint, "http://a:3000");
    assert_eq!(host.hostname, "alpha");
    assert_eq!(host.bytes_received, 100);
}

#[test]
fn failure_isolation_across_poll_cycles() {
    // Endpoint A always answers, endpoint B always times out.
    let mut working = init_with_endpoint(vec![
        "http://a:3000".to_string(),
        "http://b:3000".to_string(),
    ]);
    for cycle in 1u64..=5 {
        let outcomes = vec![Some(snapshot("alpha", 1000 * cycle, 500 * cycle)), None];
        apply_sweep(&mut working, outcomes);
    }
    // A reflects the latest fetch, under its own endpoint.
    assert_eq!(working[0].endpoint, "http://a:3000");
    assert_eq!(working[0].hostname, "alpha");
    assert_eq!(working[0].bytes_received, 5000);
    // B is still the initial placeholder.
    assert_eq!(working[1].endpoint, "http://b:3000");
    assert!(is_placeholder(&working[1]));
}

#[test]
fn registry_length_never_decreases() {
    let mut registry = Registry::new(vec![
        "http://a:3000".to_string(),
        "http://b:3000".to_string(),
    ]);
    let mut lengths = vec![registry.len()];

    // A poller publish based on a working copy taken before an append must
    // not shrink the registry.
    let working = registry.read();
    registry.append(Server::new("http://c:3000".to_string()));
    lengths.push(registry.len());
    registry.publish(working);
    lengths.push(registry.len());
    registry.append(Server::new("http://d:3000".to_string()));
    lengths.push(registry.len());
    registry.publish(registry.read());
    lengths.push(registry.len());

    assert_eq!(lengths, vec![2, 3, 3, 4, 4]);
    for pair in lengths.windows(2) {
        assert!(pair[0] <= pair[1]);
    }
}

#[test]
fn publish_keeps_hosts_appended_after_copy() {
    let mut registry = Registry::new(vec!["http://a:3000".to_string()]);
    let mut working = registry.read();
    registry.append(Server::new("http://b:3000".to_string()));

    // The poller's sweep updated host A while B was registered by the UI.
    apply_sweep(&mut working, vec![Some(snapshot("alpha", 7, 9))]);
    registry.publish(working);

    let seen = registry.read();
    assert_eq!(seen.len(), 2);
    assert_eq!(seen[0].hostname, "alpha");
    assert_eq!(seen[1].endpoint, "http://b:3000");
    assert!(is_placeholder(&seen[1]));
}

#[test]
fn publish_keeps_every_host_appended_after_copy() {
    let mut registry = Registry::new(vec!["http://a:3000".to_string()]);
    let working = registry.read();
    registry.append(Server::new("http://b:3000".to_string()));
    registry.append(Server::new("http://c:3000".to_string()));
    registry.publish(working);
    let seen = registry.read();
    assert_eq!(seen.len(), 3);
    assert_eq!(seen[1].endpoint, "http://b:3000");
    assert_eq!(seen[2].endpoint, "http://c:3000");
}

#[test]
fn reader_sees_whole_sequence() {
    // Atomic visibility: a read returns the full sequence of one publish,
    // never a mix of two cycles' data.
    let mut registry = Registry::new(vec![
        "http://a:3000".to_string(),
        "http://b:3000".to_string(),
    ]);
    let mut cycle1 = registry.read();
    apply_sweep(
        &mut cycle1,
        vec![Some(snapshot("alpha-1", 1, 1)), Some(snapshot("beta-1", 2, 2))],
    );
    registry.publish(cycle1);
    let seen1 = registry.read();
    assert_eq!(seen1[0].hostname, "alpha-1");
    assert_eq!(seen1[1].hostname, "beta-1");

    let mut cycle2 = registry.read();
    apply_sweep(
        &mut cycle2,
        vec![Some(snapshot("alpha-2", 3, 3)), Some(snapshot("beta-2", 4, 4))],
    );
    registry.publish(cycle2);
    let seen2 = registry.read();
    // Both hosts carry the second cycle's data; lengths never went down.
    assert_eq!(seen2[0].hostname, "alpha-2");
    assert_eq!(seen2[1].hostname, "beta-2");
    assert!(seen2.len() >= seen1.len());
}
