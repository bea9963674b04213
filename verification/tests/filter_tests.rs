use ofreg::db::{db_ignore_paths, insert_item, OfregData, INSERT_ITEM};
use ofreg::filter::{ignore_filter, PathKind};
use ofreg::store;

#[test]
fn directory_covers_paths_below_it() {
    assert!(ignore_filter("/var/db/ofreg", "/var/db/ofreg/ofreg.db", PathKind::Dir));
    assert!(ignore_filter("/var/db/ofreg/", "/var/db/ofreg/ofreg.db", PathKind::Dir));
    assert!(!ignore_filter("/var/db/ofreg", "/var/db/ofregx/a", PathKind::Dir));
    assert!(!ignore_filter("/var/db/ofreg", "/var/db/ofreg", PathKind::Dir));
    assert!(ignore_filter("", "/etc", PathKind::Dir));
}

#[test]
fn file_covers_only_itself() {
    assert!(ignore_filter("/etc/passwd", "/etc/passwd", PathKind::File));
    assert!(!ignore_filter("/etc/passwd", "/etc/passwd2", PathKind::File));
}

#[test]
fn missing_path_covers_nothing() {
    assert!(!ignore_filter("/etc/passwd", "/etc/passwd", PathKind::Missing));
    assert!(!ignore_filter("/etc", "/etc/passwd", PathKind::Missing));
}

#[test]
fn store_ignores_its_own_prefixes() {
    assert!(store::is_ignore("/var/db/ofreg/ofreg.db"));
    assert!(store::is_ignore("/var/db/ofreg/ofreg.db-wal"));
    assert!(store::is_ignore("/var/cache/fontconfig/abc.cache-9"));
    assert!(!store::is_ignore("/var/db/ofreg"));
    assert!(!store::is_ignore("/home/user/var/db/ofreg/x"));
    assert!(!store::is_ignore("/home/user/.bashrc"));
    assert_eq!(store::db_ignore_path_prefix(), vec!["/var/db/ofreg/", "/var/cache/fontconfig/"]);
}

fn config(paths: &[&str], cmds: &[&str]) -> ofreg::config::Config {
    ofreg::config::Config {
        target_dir: "/home/user".into(),
        ignore_path: paths.iter().map(|s| s.to_string()).collect(),
        ignore_cmd: cmds.iter().map(|s| s.to_string()).collect(),
    }
}

#[test]
fn store_insert_statement() {
    let empty = config(&[], &[]);
    let kept = ofreg::common::OfregData { cmd: "/usr/bin/git".into(), op_file: "/home/u/.gitconfig".into(), time: 11 };
    let row = store::insert_item(&kept, &empty).unwrap();
    assert_eq!(row.sql, store::INSERT_ITEM);
    assert_eq!(row.cmd, "/usr/bin/git");
    assert_eq!(row.op_file, "/home/u/.gitconfig");
    assert_eq!(row.time, 11);
    assert_eq!(store::INSERT_ITEM, "INSERT INTO ofreg (cmd, op_file, time) VALUES (?1, ?2, ?3)");
    let dropped = ofreg::common::OfregData { cmd: "/usr/bin/fc-cache".into(), op_file: "/var/cache/fontconfig/x".into(), time: 11 };
    assert!(store::insert_item(&dropped, &empty).is_none());
}

#[test]
fn legacy_insert_skips_database_files() {
    assert_eq!(db_ignore_paths(), vec!["/var/db/ofreg/ofreg.db", "/var/db/ofreg/ofreg.db-journal"]);
    let kinds = vec![PathKind::File, PathKind::Missing];
    let db_file = OfregData { cmd: "qq".into(), op_file: "/var/db/ofreg/ofreg.db".into(), time: "2025-05-05 18:35:00".into() };
    assert!(insert_item(&db_file, &kinds).is_none());
    let journal = OfregData { cmd: "qq".into(), op_file: "/var/db/ofreg/ofreg.db-journal".into(), time: "2025-05-05 18:35:00".into() };
    let row = insert_item(&journal, &kinds).unwrap();
    assert_eq!(row.sql, INSERT_ITEM);
    assert_eq!(row.op_file, "/var/db/ofreg/ofreg.db-journal");
    assert_eq!(row.time, "2025-05-05 18:35:00");
    let other = OfregData { cmd: "qq".into(), op_file: "/etc/sudoers".into(), time: "2025-05-05 18:35:00".into() };
    assert_eq!(insert_item(&other, &kinds).unwrap().cmd, "qq");
    let as_dir = vec![PathKind::Dir, PathKind::Missing];
    let below = OfregData { cmd: "qq".into(), op_file: "/var/db/ofreg/ofreg.db/x".into(), time: "t".into() };
    assert!(insert_item(&below, &as_dir).is_none());
}

#[test]
fn configured_paths_and_commands_are_left_out() {
    let c = config(&["/tmp/", "/var/db/ofreg/"], &["fish"]);
    let tmp = ofreg::common::OfregData { cmd: "/usr/bin/vim".into(), op_file: "/tmp/x".into(), time: 1 };
    assert!(store::insert_item(&tmp, &c).is_none());
    let fish = ofreg::common::OfregData { cmd: "/usr/bin/fish".into(), op_file: "/home/u/a".into(), time: 1 };
    assert!(store::insert_item(&fish, &c).is_none());
    let bare = ofreg::common::OfregData { cmd: "fish".into(), op_file: "/home/u/a".into(), time: 1 };
    assert!(store::insert_item(&bare, &c).is_none());
    let other = ofreg::common::OfregData { cmd: "/usr/bin/catfish".into(), op_file: "/home/u/tmp/x".into(), time: 1 };
    assert_eq!(store::insert_item(&other, &c).unwrap().sql, store::INSERT_ITEM);
    assert!(store::config_ignores_path(&c, "/tmp/a/b"));
    assert!(!store::config_ignores_path(&c, "/tmpx"));
    assert!(store::config_ignores_cmd(&c, "/bin/fish"));
    assert!(!store::config_ignores_cmd(&c, "/bin/fish2"));
}
