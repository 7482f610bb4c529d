use potnet::dir::{bridges_dir, collect_child_paths, jails_dir, pot_conf_path, DirEntry, EntryKind};

fn entry(path: &str, depth: usize, kind: EntryKind) -> DirEntry {
    DirEntry { path: path.to_string(), file_name: None, depth, kind }
}

#[test]
fn directories_under_the_filesystem_root() {
    assert_eq!(bridges_dir("/opt/pot"), "/opt/pot/bridges");
    assert_eq!(jails_dir("/opt/pot"), "/opt/pot/jails");
    assert_eq!(pot_conf_path("/opt/pot", "web"), "/opt/pot/jails/web/conf/pot.conf");
    assert_eq!(bridges_dir(""), "/bridges");
    assert_eq!(pot_conf_path("", ""), "/jails//conf/pot.conf");
}

#[test]
fn child_paths_by_kind() {
    let entries = vec![
        entry("r", 0, EntryKind::Dir),
        entry("r/a", 1, EntryKind::File),
        entry("r/b", 1, EntryKind::Dir),
        entry("r/b/c", 2, EntryKind::File),
        entry("r/d", 1, EntryKind::Other),
        entry("r/e", 1, EntryKind::File),
    ];
    assert_eq!(collect_child_paths(&entries, EntryKind::File), vec!["r/a".to_string(), "r/e".to_string()]);
    assert_eq!(collect_child_paths(&entries, EntryKind::Dir), vec!["r/b".to_string()]);
    assert_eq!(collect_child_paths(&entries, EntryKind::Other), vec!["r/d".to_string()]);
    assert!(collect_child_paths(&vec![], EntryKind::File).is_empty());
}
