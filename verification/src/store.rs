//! Storage rules of the recorder: which events are kept, and the statements
//! that create and fill the record table.

use vstd::prelude::*;
use crate::common::OfregData;
use crate::config::Config;
use crate::text::{ends_with, find, is_prefix, is_suffix, lemma_find_zero_iff_prefix, starts_with};

verus! {

/// Path of the record database file.
pub const DB_FILE: &'static str = "/var/db/ofreg/ofreg.db";

/// Statement that counts tables named like the record table.
pub const TABLE_EXISTS_QUERY: &'static str = "SELECT COUNT(*) FROM sqlite_master WHERE type='table' AND name='ofreg'";

/// Statement that creates the record table.
pub const CREATE_TABLE: &'static str = "CREATE TABLE ofreg (cmd TEXT, op_file TEXT, time INTEGER)";

/// Statement that inserts one record; its parameters are the command, the
/// file and the time.
pub const INSERT_ITEM: &'static str = "INSERT INTO ofreg (cmd, op_file, time) VALUES (?1, ?2, ?3)";

/// Settings applied to the writing connection.
pub const WRITE_PRAGMAS: &'static str = "PRAGMA journal_mode=WAL;
         PRAGMA synchronous=NORMAL;
         PRAGMA cache_size=-100000;
         PRAGMA busy_timeout=5000;
         PRAGMA foreign_keys=OFF;";

/// Settings applied to the connection that answers queries.
pub const READ_PRAGMAS: &'static str = "PRAGMA journal_mode=WAL;
                PRAGMA synchronous=OFF;
                PRAGMA cache_size=-32000;
                PRAGMA busy_timeout=1000;";

/// Path prefixes under which opened files are not recorded.
pub open spec fn ignore_prefixes() -> Seq<Seq<char>> {
    seq!["/var/db/ofreg/"@, "/var/cache/fontconfig/"@]
}

/// The ignored prefixes, in order.
pub fn db_ignore_path_prefix() -> (res: Vec<&'static str>)
    ensures
        res@.len() == ignore_prefixes().len(),
        forall|i: int| 0 <= i < res@.len() ==> #[trigger] res@[i]@ == ignore_prefixes()[i],
{
    let res = vec!["/var/db/ofreg/", "/var/cache/fontconfig/"];
    res
}

/// `path` lies under one of the ignored prefixes.
pub open spec fn spec_is_ignore(path: Seq<char>) -> bool {
    exists|i: int| 0 <= i < ignore_prefixes().len() && is_prefix(#[trigger] ignore_prefixes()[i], path)
}

/// Whether events on `path2` are left out of the record.
pub fn is_ignore(path2: &str) -> (res: bool)
    ensures
        res == spec_is_ignore(path2@),
{
    let prefixes = db_ignore_path_prefix();
    let mut i: usize = 0;
    while i < prefixes.len()
        invariant
            i <= prefixes@.len(),
            prefixes@.len() == ignore_prefixes().len(),
            forall|k: int| 0 <= k < prefixes@.len() ==> #[trigger] prefixes@[k]@ == ignore_prefixes()[k],
            forall|k: int| 0 <= k < i ==> !is_prefix(#[trigger] ignore_prefixes()[k], path2@),
        decreases prefixes@.len() - i,
    {
        let idx = find(path2, prefixes[i]);
        proof {
            lemma_find_zero_iff_prefix(path2@, prefixes@[i as int]@);
        }
        if let Some(k) = idx {
            if k == 0 {
                return true;
            }
        }
        i = i + 1;
    }
    false
}

/// `cmd` is the command `name`: the very name, or a path whose last
/// component is `name`.
pub open spec fn cmd_matches(cmd: Seq<char>, name: Seq<char>) -> bool {
    cmd == name || is_suffix(seq!['/'] + name, cmd)
}

/// `path` lies under one of the configured ignored paths.
pub open spec fn spec_config_ignores_path(config: &Config, path: Seq<char>) -> bool {
    exists|i: int| 0 <= i < config.ignore_path@.len() && is_prefix(#[trigger] config.ignore_path@[i]@, path)
}

/// `cmd` is one of the configured ignored commands.
pub open spec fn spec_config_ignores_cmd(config: &Config, cmd: Seq<char>) -> bool {
    exists|i: int| 0 <= i < config.ignore_cmd@.len() && cmd_matches(cmd, #[trigger] config.ignore_cmd@[i]@)
}

/// An event is left out of the record: its file lies under one of the fixed
/// ignored prefixes or under a configured ignored path, or its command is a
/// configured ignored command.
pub open spec fn spec_left_out(item: &OfregData, config: &Config) -> bool {
    spec_is_ignore(item.op_file@) || spec_config_ignores_path(config, item.op_file@)
        || spec_config_ignores_cmd(config, item.cmd@)
}

/// Whether `path` lies under one of the configured ignored paths.
pub fn config_ignores_path(config: &Config, path: &str) -> (res: bool)
    ensures
        res == spec_config_ignores_path(config, path@),
{
    let mut i: usize = 0;
    while i < config.ignore_path.len()
        invariant
            i <= config.ignore_path@.len(),
            forall|k: int| 0 <= k < i ==> !is_prefix(#[trigger] config.ignore_path@[k]@, path@),
        decreases config.ignore_path@.len() - i,
    {
        if starts_with(path, config.ignore_path[i].as_str()) {
            return true;
        }
        i = i + 1;
    }
    false
}

/// Whether `cmd` is one of the configured ignored commands.
pub fn config_ignores_cmd(config: &Config, cmd: &str) -> (res: bool)
    ensures
        res == spec_config_ignores_cmd(config, cmd@),
{
    let mut i: usize = 0;
    while i < config.ignore_cmd.len()
        invariant
            i <= config.ignore_cmd@.len(),
            forall|k: int| 0 <= k < i ==> !cmd_matches(cmd@, #[trigger] config.ignore_cmd@[k]@),
        decreases config.ignore_cmd@.len() - i,
    {
        let name = config.ignore_cmd[i].as_str();
        let mut tail = String::new();
        tail.push('/');
        tail.append(name);
        assert(tail@ =~= seq!['/'] + name@);
        let equal = crate::text::same_text(cmd, name);
        if equal || ends_with(cmd, tail.as_str()) {
            return true;
        }
        i = i + 1;
    }
    false
}

/// A statement that stores one record, with the values bound to its three
/// parameters.
pub struct InsertRow {
    pub sql: &'static str,
    pub cmd: String,
    pub op_file: String,
    pub time: u64,
}

/// The statement that stores `item`, with the item's command, file and time
/// as its parameters; `None` when the item is left out of the record, by the
/// fixed prefixes or by the configuration.
pub fn insert_item(item: &OfregData, config: &Config) -> (res: Option<InsertRow>)
    ensures
        res is None <==> spec_left_out(item, config),
        res matches Some(row) ==> {
            &&& row.sql@ == INSERT_ITEM@
            &&& row.cmd == item.cmd
            &&& row.op_file == item.op_file
            &&& row.time == item.time
        },
{
    if is_ignore(item.op_file.as_str()) || config_ignores_path(config, item.op_file.as_str())
        || config_ignores_cmd(config, item.cmd.as_str()) {
        None
    } else {
        Some(InsertRow { sql: INSERT_ITEM, cmd: item.cmd.clone(), op_file: item.op_file.clone(), time: item.time })
    }
}

/// Every configured ignored path counts, wherever it stands in the list: an
/// event on a file that starts with any of them is left out.
pub proof fn lemma_any_configured_path_leaves_out(item: &OfregData, config: &Config, i: int)
    requires
        0 <= i < config.ignore_path@.len(),
        config.ignore_path@[i]@.len() <= item.op_file@.len(),
        item.op_file@.take(config.ignore_path@[i]@.len() as int) == config.ignore_path@[i]@,
    ensures
        spec_config_ignores_path(config, item.op_file@),
        spec_left_out(item, config),
{
    assert(item.op_file@.subrange(0, config.ignore_path@[i]@.len() as int) =~= item.op_file@.take(
        config.ignore_path@[i]@.len() as int,
    ));
    assert(is_prefix(config.ignore_path@[i]@, item.op_file@));
}

/// Every configured ignored command counts, wherever it stands in the list:
/// an event whose command is that name, or a path whose last component is
/// that name, is left out.
pub proof fn lemma_any_configured_cmd_leaves_out(item: &OfregData, config: &Config, i: int)
    requires
        0 <= i < config.ignore_cmd@.len(),
        item.cmd@ == config.ignore_cmd@[i]@ || (config.ignore_cmd@[i]@.len() + 1 <= item.cmd@.len()
            && item.cmd@.skip(item.cmd@.len() - config.ignore_cmd@[i]@.len() - 1) == seq!['/']
            + config.ignore_cmd@[i]@),
    ensures
        spec_config_ignores_cmd(config, item.cmd@),
        spec_left_out(item, config),
{
    let name = config.ignore_cmd@[i]@;
    let cmd = item.cmd@;
    if cmd != name {
        assert(cmd.subrange(cmd.len() - (seq!['/'] + name).len(), cmd.len() as int) =~= cmd.skip(
            cmd.len() - name.len() - 1,
        ));
    }
    assert(cmd_matches(cmd, name));
}

/// Events under the database's own directory and the font cache are left
/// out whatever the configuration says.
pub proof fn lemma_fixed_prefixes_leave_out(item: &OfregData, config: &Config)
    requires
        item.op_file@.len() >= 14 && item.op_file@.take(14) == "/var/db/ofreg/"@
            || item.op_file@.len() >= 22 && item.op_file@.take(22) == "/var/cache/fontconfig/"@,
    ensures
        spec_left_out(item, config),
{
    reveal_strlit("/var/db/ofreg/");
    reveal_strlit("/var/cache/fontconfig/");
    let p = item.op_file@;
    if p.len() >= 14 && p.take(14) == "/var/db/ofreg/"@ {
        assert(p.subrange(0, 14) =~= p.take(14));
        assert(is_prefix(ignore_prefixes()[0], p));
    } else {
        assert(p.subrange(0, 22) =~= p.take(22));
        assert(is_prefix(ignore_prefixes()[1], p));
    }
}

/// An event is left out only by one of the rules: a fixed prefix, a
/// configured path that starts its file, or a configured command that names
/// its command.
pub proof fn lemma_left_out_only_by_rules(item: &OfregData, config: &Config)
    ensures
        spec_left_out(item, config) ==> {
            ||| exists|k: int|
                0 <= k < ignore_prefixes().len() && #[trigger] ignore_prefixes()[k].len() <= item.op_file@.len()
                    && item.op_file@.take(ignore_prefixes()[k].len() as int) == ignore_prefixes()[k]
            ||| exists|k: int|
                0 <= k < config.ignore_path@.len() && #[trigger] config.ignore_path@[k]@.len()
                    <= item.op_file@.len() && item.op_file@.take(config.ignore_path@[k]@.len() as int)
                    == config.ignore_path@[k]@
            ||| exists|k: int|
                0 <= k < config.ignore_cmd@.len() && (item.cmd@ == #[trigger] config.ignore_cmd@[k]@ || (
                config.ignore_cmd@[k]@.len() + 1 <= item.cmd@.len() && item.cmd@.skip(
                    item.cmd@.len() - config.ignore_cmd@[k]@.len() - 1,
                ) == seq!['/'] + config.ignore_cmd@[k]@))
        },
{
    let p = item.op_file@;
    let c = item.cmd@;
    if spec_is_ignore(p) {
        let k = choose|k: int| 0 <= k < ignore_prefixes().len() && is_prefix(#[trigger] ignore_prefixes()[k], p);
        assert(p.take(ignore_prefixes()[k].len() as int) =~= p.subrange(0, ignore_prefixes()[k].len() as int));
    } else if spec_config_ignores_path(config, p) {
        let k = choose|k: int| 0 <= k < config.ignore_path@.len() && is_prefix(#[trigger] config.ignore_path@[k]@, p);
        assert(p.take(config.ignore_path@[k]@.len() as int) =~= p.subrange(0, config.ignore_path@[k]@.len() as int));
    } else if spec_config_ignores_cmd(config, c) {
        let k = choose|k: int| 0 <= k < config.ignore_cmd@.len() && cmd_matches(c, #[trigger] config.ignore_cmd@[k]@);
        let name = config.ignore_cmd@[k]@;
        if c != name {
            assert(c.subrange(c.len() - (seq!['/'] + name).len(), c.len() as int) =~= c.skip(
                c.len() - name.len() - 1,
            ));
        }
    }
}

} // verus!
