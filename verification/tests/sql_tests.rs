use ofreg::common::Query;
use ofreg::sql::{join_strings, select_statement, sqlcat};

fn query(cmd: Option<&str>, file: Option<&str>, b: Option<u64>, e: Option<u64>, num: u32) -> Query {
    Query {
        cmd: cmd.map(|s| s.to_string()),
        file: file.map(|s| s.to_string()),
        time_begin: b,
        time_end: e,
        num,
    }
}

#[test]
fn no_filter_lists_newest() {
    assert_eq!(sqlcat(&query(None, None, None, None, 10)), " order by time desc limit 10");
    assert_eq!(
        select_statement(&query(None, None, None, None, 10)),
        "select * from ofreg  order by time desc limit 10"
    );
}

#[test]
fn by_command() {
    assert_eq!(
        select_statement(&query(Some("git"), None, None, None, 10)),
        "select * from ofreg where (cmd = 'git' or substr(cmd, -4) = '/git') order by time desc limit 10"
    );
}

#[test]
fn by_file() {
    assert_eq!(
        sqlcat(&query(None, Some("/home/user/.bashrc"), None, None, 3)),
        "where op_file = '/home/user/.bashrc' order by time desc limit 3"
    );
}

#[test]
fn all_filters_joined_in_order() {
    assert_eq!(
        sqlcat(&query(Some("vim"), Some("/etc"), Some(100), Some(4000000000), 0)),
        "where (cmd = 'vim' or substr(cmd, -4) = '/vim') and op_file = '/etc' and time > 100 and time < 4000000000 order by time desc limit 0"
    );
    assert_eq!(
        sqlcat(&query(None, None, Some(0), None, u32::MAX)),
        "where time > 0 order by time desc limit 4294967295"
    );
    assert_eq!(
        sqlcat(&query(None, None, None, Some(u64::MAX), 1)),
        "where time < 18446744073709551615 order by time desc limit 1"
    );
}

#[test]
fn join_of_strings() {
    let v: Vec<String> = vec![];
    assert_eq!(join_strings(&v, ", "), "");
    assert_eq!(join_strings(&vec!["a".to_string()], ", "), "a");
    assert_eq!(join_strings(&vec!["a".to_string(), "b".to_string(), "c".to_string()], ", "), "a, b, c");
}

#[test]
fn command_condition_counts_characters() {
    assert_eq!(
        ofreg::sql::cmd_condition_text("vi"),
        "(cmd = 'vi' or substr(cmd, -3) = '/vi')"
    );
    assert_eq!(
        ofreg::sql::cmd_condition_text("日本"),
        "(cmd = '日本' or substr(cmd, -3) = '/日本')"
    );
}
