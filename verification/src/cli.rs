//! The command line client's logic: from arguments to a query, and from
//! records to table rows.

use vstd::prelude::*;
use crate::common::{OfregData, Query};
use crate::time::{
    human_time_to_sec, parsed_wall_secs, read_as_local, sec_to_human_time, shown_as_local,
    utc_representable, TimeError, HUMAN_TIME_FORMAT,
};

verus! {

/// The client's arguments: filters by command, by file and by
/// time range, the latter as local times `YYYY-MM-DD HH:MM:SS`, and the
/// number of records to list.
pub struct QueryArg {
    pub cmd: Option<String>,
    pub file: Option<String>,
    pub time_begin: Option<String>,
    pub time_end: Option<String>,
    pub num: u32,
}

/// One row of the table the client prints: the time as a local date time.
pub struct OfregDataTab {
    pub cmd: String,
    pub op_file: String,
    pub time: String,
}

/// A time argument that is given and does not follow the time pattern.
pub open spec fn malformed_time(arg: Option<String>) -> bool {
    arg matches Some(t) && parsed_wall_secs(t@, HUMAN_TIME_FORMAT@) is None
}

/// `v` is what the time argument `arg` converts to: nothing for no argument,
/// and the unix time of the local time it writes otherwise.
pub open spec fn converted_time(arg: Option<String>, v: Option<u64>) -> bool {
    match arg {
        None => v is None,
        Some(t) => v matches Some(x) && read_as_local(t@, x),
    }
}

fn convert_time(arg: Option<String>) -> (res: Result<Option<u64>, TimeError>)
    ensures
        arg is None ==> res == Ok::<Option<u64>, TimeError>(None),
        malformed_time(arg) <==> res == Err::<Option<u64>, TimeError>(TimeError::Format),
        res matches Ok(v) ==> converted_time(arg, v),
        res != Err::<Option<u64>, TimeError>(TimeError::OutOfRange),
{
    match arg {
        None => Ok(None),
        Some(text) => match human_time_to_sec(text.as_str()) {
            Ok(secs) => Ok(Some(secs)),
            Err(e) => Err(e),
        },
    }
}

/// The query that the arguments ask for, with both times converted to unix
/// times; an error when a time cannot be converted. Malformed times are
/// always refused; the conversion of well-formed times depends on the
/// machine's time zone.
pub fn query_from_arg(args: QueryArg) -> (res: Result<Query, TimeError>)
    ensures
        malformed_time(args.time_begin) || malformed_time(args.time_end) ==> res is Err,
        res == Err::<Query, TimeError>(TimeError::Format) ==> malformed_time(args.time_begin)
            || malformed_time(args.time_end),
        args.time_begin is None && args.time_end is None ==> res is Ok,
        res != Err::<Query, TimeError>(TimeError::OutOfRange),
        res matches Ok(q) ==> {
            &&& q.cmd == args.cmd
            &&& q.file == args.file
            &&& q.num == args.num
            &&& converted_time(args.time_begin, q.time_begin)
            &&& converted_time(args.time_end, q.time_end)
        },
{
    let QueryArg { cmd, file, time_begin, time_end, num } = args;
    let begin = match convert_time(time_begin) {
        Ok(v) => v,
        Err(e) => return Err(e),
    };
    let end = match convert_time(time_end) {
        Ok(v) => v,
        Err(e) => return Err(e),
    };
    Ok(Query { cmd, file, time_begin: begin, time_end: end, num })
}

/// The table rows of `data`, in order, each time written as a local date
/// time; an error when some time cannot be shown.
pub fn tab_rows(data: &Vec<OfregData>) -> (res: Result<Vec<OfregDataTab>, TimeError>)
    ensures
        res is Ok <==> forall|i: int| 0 <= i < data@.len() ==> utc_representable(
            (#[trigger] data@[i].time as i64) as int,
        ),
        res is Err ==> res == Err::<Vec<OfregDataTab>, TimeError>(TimeError::OutOfRange),
        res matches Ok(rows) ==> {
            &&& rows@.len() == data@.len()
            &&& forall|i: int| 0 <= i < data@.len() ==> #[trigger] rows@[i].cmd == data@[i].cmd
                && rows@[i].op_file == data@[i].op_file && shown_as_local(data@[i].time, rows@[i].time@)
        },
{
    let mut rows: Vec<OfregDataTab> = Vec::new();
    let mut i: usize = 0;
    while i < data.len()
        invariant
            i <= data@.len(),
            rows@.len() == i,
            forall|k: int| 0 <= k < i ==> utc_representable((#[trigger] data@[k].time as i64) as int),
            forall|k: int| 0 <= k < i ==> #[trigger] rows@[k].cmd == data@[k].cmd && rows@[k].op_file
                == data@[k].op_file && shown_as_local(data@[k].time, rows@[k].time@),
        decreases data@.len() - i,
    {
        let item = &data[i];
        let time = match sec_to_human_time(item.time) {
            Ok(t) => t,
            Err(e) => return Err(e),
        };
        rows.push(OfregDataTab { cmd: item.cmd.clone(), op_file: item.op_file.clone(), time });
        i = i + 1;
    }
    Ok(rows)
}

} // verus!
