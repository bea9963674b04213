use ofreg::text::find;

#[test]
fn db_strop_test() {
    let s = "/home/aaa/bbb";
    assert_eq!(find(s, "/home/aaa").unwrap(), 0);
}

#[test]
fn store_strop_test() {
    let s = "/home/aaa/bbb";
    assert_eq!(find(s, "/home/aaa").unwrap(), 0);
}
