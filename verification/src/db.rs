//! The first storage layout: times kept as text, and ignored database files
//! recognised by what the file system holds at their paths.

use vstd::prelude::*;
use crate::filter::{ignore_filter, spec_ignore_filter, PathKind};

verus! {

/// Path of the database file.
pub const DB: &'static str = "/var/db/ofreg/ofreg.db";

/// Directory of the database file.
pub const DB_PATH: &'static str = "/var/db/ofreg";

/// Statement that counts tables named like the record table.
pub const TABLE_EXISTS_QUERY: &'static str = "SELECT COUNT(*) FROM sqlite_master WHERE type='table' AND name='ofreg'";

/// Statement that creates the record table, with the time as text.
pub const CREATE_TABLE: &'static str = "CREATE TABLE ofreg (cmd TEXT, op_file TEXT, time TEXT)";

/// Statement that inserts one record; its parameters are the command, the
/// file and the time.
pub const INSERT_ITEM: &'static str = "INSERT INTO ofreg (cmd, op_file, time) VALUES (?1, ?2, ?3)";

/// One recorded event, with its time as text.
pub struct OfregData {
    pub cmd: String,
    pub op_file: String,
    pub time: String,
}

/// The database's own files, whose opening is not recorded.
pub open spec fn db_ignore() -> Seq<Seq<char>> {
    seq!["/var/db/ofreg/ofreg.db"@, "/var/db/ofreg/ofreg.db-journal"@]
}

/// The database's own files, in order.
pub fn db_ignore_paths() -> (res: Vec<&'static str>)
    ensures
        res@.len() == db_ignore().len(),
        forall|i: int| 0 <= i < res@.len() ==> #[trigger] res@[i]@ == db_ignore()[i],
{
    vec!["/var/db/ofreg/ofreg.db", "/var/db/ofreg/ofreg.db-journal"]
}

/// `op_file` is one of the database's own files, given what the file system
/// holds at each of their paths.
pub open spec fn spec_db_ignored(op_file: Seq<char>, kinds: Seq<PathKind>) -> bool {
    exists|i: int| 0 <= i < db_ignore().len() && #[trigger] spec_ignore_filter(db_ignore()[i], op_file, kinds[i])
}

/// A statement that stores one record, with the values bound to its three
/// parameters.
pub struct InsertRow {
    pub sql: &'static str,
    pub cmd: String,
    pub op_file: String,
    pub time: String,
}

/// The statement that stores `item`, with the item's command, file and time
/// as its parameters; `None` when the item is one of the database's own
/// files. `ignore_kinds[i]` is what the file system holds at the `i`-th path
/// of `db_ignore_paths`.
pub fn insert_item(item: &OfregData, ignore_kinds: &Vec<PathKind>) -> (res: Option<InsertRow>)
    requires
        ignore_kinds@.len() == db_ignore().len(),
    ensures
        res is None <==> spec_db_ignored(item.op_file@, ignore_kinds@),
        res matches Some(row) ==> {
            &&& row.sql@ == INSERT_ITEM@
            &&& row.cmd == item.cmd
            &&& row.op_file == item.op_file
            &&& row.time == item.time
        },
{
    let paths = db_ignore_paths();
    let mut i: usize = 0;
    while i < paths.len()
        invariant
            i <= paths@.len(),
            paths@.len() == db_ignore().len(),
            ignore_kinds@.len() == db_ignore().len(),
            forall|k: int| 0 <= k < paths@.len() ==> #[trigger] paths@[k]@ == db_ignore()[k],
            forall|k: int| 0 <= k < i ==> !(#[trigger] spec_ignore_filter(db_ignore()[k], item.op_file@, ignore_kinds@[k])),
        decreases paths@.len() - i,
    {
        if ignore_filter(paths[i], item.op_file.as_str(), ignore_kinds[i]) {
            return None;
        }
        i = i + 1;
    }
    Some(InsertRow { sql: INSERT_ITEM, cmd: item.cmd.clone(), op_file: item.op_file.clone(), time: item.time.clone() })
}

} // verus!
