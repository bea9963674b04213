//! The SQL text of a record query.

use vstd::prelude::*;
use crate::common::{Query, TABLE_NAME};
use crate::text::{chars_of, decimal, u128_to_decimal, u64_to_decimal};

verus! {

/// `parts` joined with `sep` between consecutive parts.
pub open spec fn join(parts: Seq<Seq<char>>, sep: Seq<char>) -> Seq<char>
    decreases parts.len(),
{
    if parts.len() == 0 {
        Seq::empty()
    } else if parts.len() == 1 {
        parts[0]
    } else {
        join(parts.drop_last(), sep) + sep + parts.last()
    }
}

/// The texts of a sequence of strings.
pub open spec fn texts(v: Seq<String>) -> Seq<Seq<char>> {
    v.map_values(|s: String| s@)
}

/// The condition that selects the records of the command `c`: the command
/// is `c` itself, or a path whose last component is `c` (its last `len + 1`
/// characters, counted as SQLite counts them in text, are `/` and `c`).
pub open spec fn cmd_condition(c: Seq<char>) -> Seq<char> {
    "(cmd = '"@ + c + "' or substr(cmd, -"@ + decimal(c.len() + 1) + ") = '/"@ + c + "')"@
}

/// The condition that selects the records of the command `cmd`.
pub fn cmd_condition_text(cmd: &str) -> (res: String)
    ensures
        res@ == cmd_condition(cmd@),
{
    let chars = chars_of(cmd);
    let mut res = String::new();
    res.append("(cmd = '");
    res.append(cmd);
    res.append("' or substr(cmd, -");
    let width = u128_to_decimal(chars.len() as u128 + 1);
    res.append(width.as_str());
    res.append(") = '/");
    res.append(cmd);
    res.append("')");
    res
}

/// The conditions that a query puts on records, in the order command, file
/// path, start of the time range, end of the time range.
pub open spec fn conditions(q: &Query) -> Seq<Seq<char>> {
    (match q.cmd {
        Some(c) => seq![cmd_condition(c@)],
        None => Seq::empty(),
    }) + (match q.file {
        Some(f) => seq!["op_file = '"@ + f@ + "'"@],
        None => Seq::empty(),
    }) + (match q.time_begin {
        Some(t) => seq!["time > "@ + decimal(t as nat)],
        None => Seq::empty(),
    }) + (match q.time_end {
        Some(t) => seq!["time < "@ + decimal(t as nat)],
        None => Seq::empty(),
    })
}

/// The clause that follows the table name in a record query: the
/// conditions joined by `and` after `where`, if there are any, then the
/// newest-first order and the limit.
pub open spec fn spec_sqlcat(q: &Query) -> Seq<char> {
    (if conditions(q).len() > 0 {
        "where "@ + join(conditions(q), " and "@)
    } else {
        Seq::empty()
    }) + " order by time desc limit "@ + decimal(q.num as nat)
}

/// The whole statement that selects the records a query asks for.
pub open spec fn spec_select_statement(q: &Query) -> Seq<char> {
    "select * from "@ + TABLE_NAME@ + " "@ + spec_sqlcat(q)
}

/// Joins `list` with `sep` between consecutive elements.
pub fn join_strings(list: &Vec<String>, sep: &str) -> (res: String)
    ensures
        res@ == join(texts(list@), sep@),
{
    let mut res = String::new();
    let ghost views = texts(list@);
    let mut i: usize = 0;
    while i < list.len()
        invariant
            i <= list@.len(),
            views == texts(list@),
            res@ == join(views.take(i as int), sep@),
        decreases list@.len() - i,
    {
        if i != 0 {
            res.append(sep);
        }
        res.append(list[i].as_str());
        assert(views.take(i + 1).drop_last() =~= views.take(i as int));
        assert(views.take(i + 1).last() == list@[i as int]@);
        i = i + 1;
    }
    assert(views.take(list@.len() as int) =~= views);
    res
}

/// The clause after the table name in the statement that answers `query`.
pub fn sqlcat(query: &Query) -> (res: String)
    ensures
        res@ == spec_sqlcat(query),
{
    let mut conds: Vec<String> = Vec::new();
    if let Some(cmd) = &query.cmd {
        let c = cmd_condition_text(cmd.as_str());
        conds.push(c);
    }
    assert(texts(conds@) =~= match query.cmd {
        Some(c) => seq![cmd_condition(c@)],
        None => Seq::<Seq<char>>::empty(),
    });
    let ghost after_cmd = texts(conds@);
    if let Some(file) = &query.file {
        let mut c = String::new();
        c.append("op_file = '");
        c.append(file.as_str());
        c.append("'");
        conds.push(c);
    }
    assert(texts(conds@) =~= after_cmd + match query.file {
        Some(f) => seq!["op_file = '"@ + f@ + "'"@],
        None => Seq::<Seq<char>>::empty(),
    });
    let ghost after_file = texts(conds@);
    if let Some(tb) = query.time_begin {
        let mut c = String::new();
        c.append("time > ");
        let digits = u64_to_decimal(tb);
        c.append(digits.as_str());
        conds.push(c);
    }
    assert(texts(conds@) =~= after_file + match query.time_begin {
        Some(t) => seq!["time > "@ + decimal(t as nat)],
        None => Seq::<Seq<char>>::empty(),
    });
    let ghost after_begin = texts(conds@);
    if let Some(te) = query.time_end {
        let mut c = String::new();
        c.append("time < ");
        let digits = u64_to_decimal(te);
        c.append(digits.as_str());
        conds.push(c);
    }
    assert(texts(conds@) =~= after_begin + match query.time_end {
        Some(t) => seq!["time < "@ + decimal(t as nat)],
        None => Seq::<Seq<char>>::empty(),
    });
    assert(texts(conds@) =~= conditions(query));
    let mut conds_str = String::new();
    if conds.len() != 0 {
        conds_str.append("where ");
        let joined = join_strings(&conds, " and ");
        conds_str.append(joined.as_str());
    }
    conds_str.append(" order by time desc limit ");
    let num = u64_to_decimal(query.num as u64);
    conds_str.append(num.as_str());
    conds_str
}

/// The statement that selects the records `query` asks for.
pub fn select_statement(query: &Query) -> (res: String)
    ensures
        res@ == spec_select_statement(query),
{
    let mut res = String::new();
    res.append("select * from ");
    res.append(TABLE_NAME);
    res.append(" ");
    let tail = sqlcat(query);
    res.append(tail.as_str());
    res
}

/// `parts` read from the front, each one followed by ` and ` and the next.
pub open spec fn and_chain(parts: Seq<Seq<char>>) -> Seq<char>
    decreases parts.len(),
{
    if parts.len() == 0 {
        Seq::empty()
    } else if parts.len() == 1 {
        parts[0]
    } else {
        parts[0] + " and "@ + and_chain(parts.drop_first())
    }
}

proof fn lemma_and_chain_last(parts: Seq<Seq<char>>)
    requires
        parts.len() >= 2,
    ensures
        and_chain(parts) == and_chain(parts.drop_last()) + " and "@ + parts.last(),
    decreases parts.len(),
{
    let sep = " and "@;
    if parts.len() == 2 {
        assert(parts.drop_first().len() == 1);
        assert(parts.drop_last().len() == 1);
        assert(parts.drop_first()[0] == parts.last());
        assert(parts.drop_last()[0] == parts[0]);
        assert(and_chain(parts.drop_first()) == parts.last());
        assert(and_chain(parts.drop_last()) == parts[0]);
    } else {
        lemma_and_chain_last(parts.drop_first());
        assert(parts.drop_first().drop_last() =~= parts.drop_last().drop_first());
        assert(parts.drop_first().last() == parts.last());
        assert(parts.drop_last()[0] == parts[0]);
        assert(and_chain(parts.drop_last()) == parts.drop_last()[0] + sep + and_chain(parts.drop_last().drop_first()));
        assert(parts[0] + sep + (and_chain(parts.drop_first().drop_last()) + sep + parts.last()) =~= (
        parts[0] + sep + and_chain(parts.drop_last().drop_first())) + sep + parts.last());
    }
}

proof fn lemma_join_is_and_chain(parts: Seq<Seq<char>>)
    ensures
        join(parts, " and "@) == and_chain(parts),
    decreases parts.len(),
{
    if parts.len() >= 2 {
        lemma_join_is_and_chain(parts.drop_last());
        lemma_and_chain_last(parts);
    }
}

/// All the conditions a query sets are required together: the clause lists
/// them after `where`, the first one, then ` and ` before each of the others,
/// and ends with the newest-first order and the limit.
pub proof fn lemma_sqlcat_requires_every_condition(q: &Query)
    ensures
        conditions(q).len() == 0 ==> spec_sqlcat(q) == " order by time desc limit "@ + decimal(
            q.num as nat,
        ),
        conditions(q).len() > 0 ==> spec_sqlcat(q) == "where "@ + and_chain(conditions(q))
            + " order by time desc limit "@ + decimal(q.num as nat),
{
    lemma_join_is_and_chain(conditions(q));
    assert(Seq::<char>::empty() + " order by time desc limit "@ + decimal(q.num as nat) =~= " order by time desc limit "@ + decimal(q.num as nat));
}

/// A query by command and file selects the records that satisfy both.
pub proof fn lemma_command_and_file(q: &Query, c: String, f: String)
    requires
        q.cmd == Some(c),
        q.file == Some(f),
        q.time_begin is None,
        q.time_end is None,
    ensures
        spec_sqlcat(q) == "where "@ + cmd_condition(c@) + " and "@ + ("op_file = '"@ + f@ + "'"@)
            + " order by time desc limit "@ + decimal(q.num as nat),
{
    lemma_sqlcat_requires_every_condition(q);
    let parts = conditions(q);
    assert(parts =~= seq![cmd_condition(c@), "op_file = '"@ + f@ + "'"@]);
    assert(parts.drop_first().len() == 1);
    assert(parts.drop_first()[0] == "op_file = '"@ + f@ + "'"@);
    assert(parts[0] == cmd_condition(c@));
    assert(and_chain(parts.drop_first()) == "op_file = '"@ + f@ + "'"@);
    assert(and_chain(parts) == cmd_condition(c@) + " and "@ + ("op_file = '"@ + f@ + "'"@));
    assert("where "@ + and_chain(parts) + " order by time desc limit "@ + decimal(q.num as nat) =~= "where "@
        + cmd_condition(c@) + " and "@ + ("op_file = '"@ + f@ + "'"@) + " order by time desc limit "@
        + decimal(q.num as nat));
}

} // verus!
