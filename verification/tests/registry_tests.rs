use alacritty_mcp::alacritty_manager::{
    build_discovered, parse_cmdline, AlacrittyManager, WindowResolution,
};
use alacritty_mcp::types::AlacrittyInstance;

fn instance(id: &str, pid: u32, title: &str) -> AlacrittyInstance {
    AlacrittyInstance {
        id: id.to_string(),
        pid,
        window_id: None,
        title: title.to_string(),
        command: "shell".to_string(),
        created_at: 0,
    }
}

/// Reconciling twice against the same snapshot, with nothing left to
/// discover the second time, yields identical registry contents.
#[test]
fn reconciliation_is_idempotent() {
    let mut m = AlacrittyManager::new();
    let live = vec![10, 20];
    let discovered = vec![instance("id-a", 10, "a"), instance("id-b", 20, "b")];
    m.reconcile(&live, &discovered);

    let first: Vec<(String, u32, String)> = m
        .entries()
        .iter()
        .map(|e| (e.id.clone(), e.pid, e.title.clone()))
        .collect();

    assert!(m.untracked_pids(&live).is_empty());
    m.reconcile(&live, &Vec::new());

    let second: Vec<(String, u32, String)> = m
        .entries()
        .iter()
        .map(|e| (e.id.clone(), e.pid, e.title.clone()))
        .collect();

    assert_eq!(first, second);
}

/// An instance keeps its id across any number of reconciliations while its
/// pid stays in the live set.
#[test]
fn identity_is_stable_while_alive() {
    let mut m = AlacrittyManager::new();
    m.record_spawn(instance("stable-id", 55, "kept"));
    let live = vec![55];
    for _ in 0..5 {
        m.reconcile(&live, &Vec::new());
        assert_eq!(m.count(), 1);
        assert_eq!(m.entries()[0].id, "stable-id");
        assert_eq!(m.entries()[0].title, "kept");
    }
}

/// When one tracked pid leaves the live set, the next reconciliation
/// removes exactly that entry and no other.
#[test]
fn garbage_collection_removes_exactly_the_dead() {
    let mut m = AlacrittyManager::new();
    let live = vec![1, 2, 3];
    let discovered = vec![
        instance("id-1", 1, "one"),
        instance("id-2", 2, "two"),
        instance("id-3", 3, "three"),
    ];
    m.reconcile(&live, &discovered);
    assert_eq!(m.count(), 3);

    m.reconcile(&vec![1, 3], &Vec::new());
    let ids: Vec<String> = m.entries().iter().map(|e| e.id.clone()).collect();
    assert_eq!(ids, vec!["id-1".to_string(), "id-3".to_string()]);
}

/// A discovered entry is adopted only for a live, untracked pid, and its
/// id must be fresh.
#[test]
fn adoption_skips_tracked_and_dead_pids() {
    let mut m = AlacrittyManager::new();
    m.record_spawn(instance("held", 7, "first"));
    let discovered = vec![
        instance("dup-pid", 7, "same pid"),
        instance("dead", 99, "not live"),
        instance("fresh", 8, "adopted"),
    ];
    m.reconcile(&vec![7, 8], &discovered);
    let ids: Vec<String> = m.entries().iter().map(|e| e.id.clone()).collect();
    assert_eq!(ids, vec!["held".to_string(), "fresh".to_string()]);
}

/// Recording a spawn under a reused pid replaces the stale entry.
#[test]
fn record_spawn_replaces_a_stale_pid() {
    let mut m = AlacrittyManager::new();
    m.record_spawn(instance("old", 44, "stale"));
    m.record_spawn(instance("new", 44, "fresh"));
    assert_eq!(m.count(), 1);
    assert_eq!(m.entries()[0].id, "new");
}

/// A window handle, once cached, is never overwritten.
#[test]
fn window_handles_are_monotonic() {
    let mut m = AlacrittyManager::new();
    m.record_spawn(instance("w", 3, "t"));
    assert_eq!(m.entries()[0].window_id, None);
    m.note_window("w", 1111);
    assert_eq!(m.entries()[0].window_id, Some(1111));
    m.note_window("w", 2222);
    assert_eq!(m.entries()[0].window_id, Some(1111));
}

#[test]
fn untracked_pids_keep_snapshot_order() {
    let mut m = AlacrittyManager::new();
    m.record_spawn(instance("known", 5, "t"));
    assert_eq!(m.untracked_pids(&vec![9, 5, 2]), vec![9, 2]);
}

/// The launch-flag grammar: the primary flag and the short alias each take
/// one following value token; everything else is passed over.
#[test]
fn cmdline_flags_are_scanned() {
    let args: Vec<String> = vec![
        "alacritty".to_string(),
        "--title".to_string(),
        "mine".to_string(),
        "-e".to_string(),
        "htop".to_string(),
        "extra".to_string(),
    ];
    let (title, command) = parse_cmdline(&args, 12);
    assert_eq!(title, "mine");
    assert_eq!(command, "htop");

    let bare: Vec<String> = vec!["alacritty".to_string()];
    let (title, command) = parse_cmdline(&bare, 12);
    assert_eq!(title, "alacritty-12");
    assert_eq!(command, "shell");

    // A flag at the very end, missing its value, changes nothing.
    let cut: Vec<String> = vec!["alacritty".to_string(), "-t".to_string()];
    let (title, command) = parse_cmdline(&cut, 907);
    assert_eq!(title, "alacritty-907");
    assert_eq!(command, "shell");
}

#[test]
fn discovered_entries_carry_the_parsed_cmdline() {
    let args: Vec<String> = vec![
        "alacritty".to_string(),
        "--command".to_string(),
        "vim".to_string(),
    ];
    let entry = build_discovered(66, &args, Some(4040));
    assert_eq!(entry.pid, 66);
    assert_eq!(entry.window_id, Some(4040));
    assert_eq!(entry.created_at, 0);
    assert_eq!(entry.id.len(), 36);
    assert_eq!(entry.title, "alacritty-66");
    assert_eq!(entry.command, "vim");
}

#[test]
fn fresh_ids_have_the_hyphenated_shape() {
    let a = alacritty_mcp::alacritty_manager::fresh_instance_id();
    let b = alacritty_mcp::alacritty_manager::fresh_instance_id();
    assert_eq!(a.len(), 36);
    assert!(a.chars().all(|c| c == '-' || c.is_ascii_hexdigit()));
    assert_ne!(a, b);
}

#[test]
fn decimal_rendering_is_exact() {
    assert_eq!(alacritty_mcp::text::u64_to_dec(0), "0");
    assert_eq!(alacritty_mcp::text::u64_to_dec(907), "907");
    assert_eq!(alacritty_mcp::text::u64_to_dec(u64::MAX), "18446744073709551615");
    assert_eq!(alacritty_mcp::text::i32_to_dec(-32601), "-32601");
    assert_eq!(alacritty_mcp::text::i32_to_dec(i32::MIN), "-2147483648");
}

#[test]
fn unsigned_parsing_is_exact() {
    assert_eq!(alacritty_mcp::text::parse_u32("0"), Some(0));
    assert_eq!(alacritty_mcp::text::parse_u32("4294967295"), Some(u32::MAX));
    assert_eq!(alacritty_mcp::text::parse_u32("4294967296"), None);
    assert_eq!(alacritty_mcp::text::parse_u32(""), None);
    assert_eq!(alacritty_mcp::text::parse_u32("12a"), None);
    assert_eq!(alacritty_mcp::text::parse_u32("-5"), None);
}

#[test]
fn base64_padding_cases() {
    assert_eq!(alacritty_mcp::base64::encode(b"AB"), "QUI=");
    assert_eq!(alacritty_mcp::base64::encode(b"ABC"), "QUJD");
    assert_eq!(alacritty_mcp::base64::encode(&[0xff, 0xfe, 0xfd]), "//79");
}

/// Window resolution: the cached handle where one is known, the pid to
/// look one up by otherwise, and a rejection for an untracked id.
#[test]
fn window_resolution_follows_the_cache() {
    let mut m = AlacrittyManager::new();
    m.record_spawn(instance("res", 21, "t"));
    assert!(matches!(m.resolve_window("absent"), WindowResolution::UnknownInstance));
    assert!(matches!(m.resolve_window("res"), WindowResolution::LookupByPid(21)));
    m.note_window("res", 808);
    assert!(matches!(m.resolve_window("res"), WindowResolution::Cached(808)));
}
