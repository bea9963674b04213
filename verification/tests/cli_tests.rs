use ofreg::cli::{query_from_arg, tab_rows, QueryArg};
use ofreg::common::OfregData;
use ofreg::time::{sec_to_human_time, TimeError};

fn arg(b: Option<&str>, e: Option<&str>) -> QueryArg {
    QueryArg {
        cmd: Some("git".into()),
        file: Some("/home".into()),
        time_begin: b.map(|s| s.to_string()),
        time_end: e.map(|s| s.to_string()),
        num: 7,
    }
}

#[test]
fn query_without_times() {
    let q = query_from_arg(arg(None, None)).unwrap();
    assert_eq!(q.cmd.as_deref(), Some("git"));
    assert_eq!(q.file.as_deref(), Some("/home"));
    assert_eq!(q.time_begin, None);
    assert_eq!(q.time_end, None);
    assert_eq!(q.num, 7);
}

#[test]
fn query_with_times() {
    let q = query_from_arg(arg(Some("2025-05-05 18:35:00"), Some("2025-05-06 18:35:00"))).unwrap();
    let b = q.time_begin.unwrap();
    let e = q.time_end.unwrap();
    assert!(e > b);
}

#[test]
fn query_with_bad_time() {
    assert_eq!(query_from_arg(arg(Some("soon"), None)).err(), Some(TimeError::Format));
    assert_eq!(query_from_arg(arg(None, Some("2025/05/05"))).err(), Some(TimeError::Format));
}

#[test]
fn rows_keep_order_and_fields() {
    let data = vec![
        OfregData { cmd: "a".into(), op_file: "/x".into(), time: 0 },
        OfregData { cmd: "b".into(), op_file: "/y".into(), time: 1746441300 },
    ];
    let rows = tab_rows(&data).unwrap();
    assert_eq!(rows.len(), 2);
    assert_eq!(rows[0].cmd, "a");
    assert_eq!(rows[1].op_file, "/y");
    assert_eq!(rows[1].time, sec_to_human_time(1746441300).unwrap());
    let bad = vec![OfregData { cmd: "a".into(), op_file: "/x".into(), time: u64::MAX / 2 }];
    assert_eq!(tab_rows(&bad).err(), Some(TimeError::OutOfRange));
}
