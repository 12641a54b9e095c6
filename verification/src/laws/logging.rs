//! Laws of the log.

use vstd::prelude::*;
use vstd::string::*;

use super::text::{is_number, number_is_written_in_base_ten, number_is_written_in_one_way};
use crate::logging::{
    after_write, held, init, log_file_name, log_files_have_different_names, log_line,
    rotation_moves_every_file_on, FileLogger, InitOutcome, LoggerSlot, Rename, LOG_DIR,
};
use crate::outside::is_timestamp;

verus! {

/// The log stands in `logs`. The current one is `herald.log`, and its backups are called
/// after it, with a dot and their number in base ten.
pub proof fn log_files_are_numbered(i: usize, name: String)
    requires
        call_ensures(log_file_name, (i,), name),
    ensures
        LOG_DIR@ == "logs"@,
        i == 0 ==> name@ == "herald.log"@,
        i > 0 ==> exists|digits: Seq<char>| #[trigger]
            is_number(digits, i as int) && name@ == "herald.log."@ + digits,
{
    number_is_written_in_base_ten(i as nat);
    reveal_strlit("herald.log");
    reveal_strlit("herald.log.");
    reveal_strlit(".");
    assert("herald.log."@ =~= "herald.log"@ + "."@);
}

/// No two files of the log have one name, however many there are.
pub proof fn log_files_never_share_a_name(i: usize, j: usize, first: String, second: String)
    requires
        call_ensures(log_file_name, (i,), first),
        call_ensures(log_file_name, (j,), second),
    ensures
        first@ == second@ <==> i == j,
{
    log_files_are_numbered(i, first);
    log_files_are_numbered(j, second);
    reveal_strlit("herald.log");
    reveal_strlit("herald.log.");
    if i > 0 && j > 0 {
        let a = choose|digits: Seq<char>| #[trigger]
            is_number(digits, i as int) && first@ == "herald.log."@ + digits;
        let b = choose|digits: Seq<char>| #[trigger]
            is_number(digits, j as int) && second@ == "herald.log."@ + digits;
        number_is_written_in_one_way(a, i as int, b, j as int);
        assert(first@.skip(11) =~= a);
        assert(second@.skip(11) =~= b);
    }
}

/// The log is rotated for every size above the maximum that can be read, and for no other.
pub proof fn rotation_is_wanted_above_the_maximum<F>(
    logger: FileLogger<F>,
    size: Option<u64>,
    wanted: bool,
)
    requires
        call_ensures(FileLogger::<F>::wants_rotation, (&logger, size), wanted),
    ensures
        wanted <==> size is Some && size->0 > logger.max_size,
{
}

/// A new logger rotates the log above ten times 1024 times 1024 bytes, and one with another
/// maximum above that one. Either way it writes to the file that it was given.
pub proof fn maximum_is_the_one_chosen<F>(
    file: F,
    max_size: u64,
    logger: FileLogger<F>,
    other: FileLogger<F>,
    size: u64,
    wanted: bool,
    other_wanted: bool,
)
    requires
        call_ensures(FileLogger::<F>::new, (file,), logger),
        call_ensures(FileLogger::<F>::with_max_size, (logger, max_size), other),
        call_ensures(FileLogger::<F>::wants_rotation, (&logger, Some(size)), wanted),
        call_ensures(FileLogger::<F>::wants_rotation, (&other, Some(size)), other_wanted),
    ensures
        logger.file == file,
        other.file == file,
        wanted <==> size > 10_485_760,
        other_wanted <==> size > max_size,
{
}

/// A record is the time, a space, the line and a line feed, each character for character.
pub proof fn record_is_time_and_line<F>(
    logger: FileLogger<F>,
    timestamp: &str,
    line: &str,
    record: String,
)
    requires
        call_ensures(FileLogger::<F>::write_line, (&logger, timestamp, line), record),
    ensures
        record@.len() == timestamp@.len() + line@.len() + 2,
        forall|i: int|
            0 <= i < timestamp@.len() ==> #[trigger] record@[i] == timestamp@[i],
        record@[timestamp@.len() as int] == ' ',
        forall|i: int|
            0 <= i < line@.len() ==> record@[timestamp@.len() + 1 + i] == #[trigger] line@[i],
        record@.last() == '\n',
{
    reveal_strlit(" ");
    reveal_strlit("\n");
}

/// A line is logged where there is a free logger and only there. Its record is a time, a
/// space, the whole line and a line feed.
pub proof fn line_is_logged_whole<F>(slot: LoggerSlot<'_, F>, line: &str, record: Option<String>)
    requires
        call_ensures(log_line::<F>, (slot, line), record),
    ensures
        record is Some <==> slot is Free,
        record matches Some(record) ==> exists|timestamp: Seq<char>|
            {
                &&& #[trigger] is_timestamp(timestamp)
                &&& record@ == timestamp + seq![' '] + line@ + seq!['\n']
            },
{
    reveal_strlit(" ");
    reveal_strlit("\n");
    assert(" "@ =~= seq![' ']);
    assert("\n"@ =~= seq!['\n']);
}

/// A rotation renames the second backup to the third, then the first to the second, then
/// the current log to the first backup.
pub proof fn rotation_renames_from_the_oldest<F>(logger: FileLogger<F>, renames: Vec<Rename>)
    requires
        call_ensures(FileLogger::<F>::rotate, (&logger,), renames),
    ensures
        renames.len() == 3,
        renames[0].from@ == "herald.log.2"@ && renames[0].to@ == "herald.log.3"@,
        renames[1].from@ == "herald.log.1"@ && renames[1].to@ == "herald.log.2"@,
        renames[2].from@ == "herald.log"@ && renames[2].to@ == "herald.log.1"@,
{
    reveal_strlit("herald.log");
    reveal_strlit("herald.log.1");
    reveal_strlit("herald.log.2");
    reveal_strlit("herald.log.3");
    reveal_strlit(".");
    assert(renames[0].from@ =~= "herald.log.2"@);
    assert(renames[0].to@ =~= "herald.log.3"@);
    assert(renames[1].from@ =~= "herald.log.1"@);
    assert(renames[1].to@ =~= "herald.log.2"@);
    assert(renames[2].from@ =~= "herald.log"@);
    assert(renames[2].to@ =~= "herald.log.1"@);
}

/// A directory in which the renames of a call were made one after the other.
pub open spec fn after_all<C>(files: Map<Seq<char>, C>, renames: Seq<Rename>) -> Map<Seq<char>, C>
    decreases renames.len(),
{
    if renames.len() == 0 {
        files
    } else {
        let rest = after_all(files, renames.drop_last());
        let (from, to) = (renames.last().from@, renames.last().to@);
        if rest.contains_key(from) {
            rest.remove(from).insert(to, rest[from])
        } else {
            rest
        }
    }
}

/// Making the renames of a rotation moves the current log and the first two backups one
/// place on, gives up the third backup only for the second, and touches no other file.
pub proof fn rotation_moves_the_log_on<F, C>(
    logger: FileLogger<F>,
    renames: Vec<Rename>,
    files: Map<Seq<char>, C>,
)
    requires
        call_ensures(FileLogger::<F>::rotate, (&logger,), renames),
    ensures
        ({
            let after = after_all(files, renames@);
            &&& !after.contains_key("herald.log"@)
            &&& after.get("herald.log.1"@) == files.get("herald.log"@)
            &&& after.get("herald.log.2"@) == files.get("herald.log.1"@)
            &&& after.get("herald.log.3"@) == if files.contains_key("herald.log.2"@) {
                files.get("herald.log.2"@)
            } else {
                files.get("herald.log.3"@)
            }
            &&& forall|name: Seq<char>|
                name != "herald.log"@ && name != "herald.log.1"@ && name != "herald.log.2"@ && name
                    != "herald.log.3"@ ==> #[trigger] after.get(name) == files.get(name)
        }),
{
    rotation_renames_from_the_oldest(logger, renames);
    reveal_strlit("herald.log");
    reveal_strlit("herald.log.1");
    reveal_strlit("herald.log.2");
    reveal_strlit("herald.log.3");
    assert("herald.log.1"@[11] != "herald.log.2"@[11]);
    assert("herald.log.1"@[11] != "herald.log.3"@[11]);
    assert("herald.log.2"@[11] != "herald.log.3"@[11]);
    let all = renames@;
    assert(all.drop_last().drop_last().drop_last() =~= Seq::empty());
    reveal_with_fuel(after_all, 4);
}

/// After any write the current file holds the maximum of bytes at most. It holds what it
/// held and the record where that is not too much, and else it is empty.
pub proof fn current_log_never_exceeds_the_maximum(
    files: Map<Seq<char>, Seq<u8>>,
    record: Seq<u8>,
    max_size: u64,
)
    ensures
        held(after_write(files, record, max_size), 0).len() <= max_size,
        held(files, 0).len() + record.len() <= max_size ==> held(
            after_write(files, record, max_size),
            0,
        ) == held(files, 0) + record,
        held(files, 0).len() + record.len() > max_size ==> held(
            after_write(files, record, max_size),
            0,
        ).len() == 0 && held(after_write(files, record, max_size), 1) == held(files, 0) + record,
{
    let longer = held(files, 0) + record;
    let appended = files.insert("herald.log"@, longer);
    rotation_moves_every_file_on(appended);
    log_files_have_different_names(0, 1);
}

/// A write rotates the log where the size that it leaves makes a logger of that maximum
/// want it, and only there.
pub proof fn write_rotates_where_it_is_wanted<F>(
    logger: FileLogger<F>,
    files: Map<Seq<char>, Seq<u8>>,
    record: Seq<u8>,
    size: u64,
    wanted: bool,
)
    requires
        size == held(files, 0).len() + record.len(),
        record.len() > 0,
        call_ensures(FileLogger::<F>::wants_rotation, (&logger, Some(size)), wanted),
    ensures
        wanted <==> held(after_write(files, record, logger.max_size), 0).len() == 0,
{
    current_log_never_exceeds_the_maximum(files, record, logger.max_size);
}

/// A rotation ends with the new file where there is one, and with the file from before
/// where there is none. The maximum stays.
pub proof fn rotation_ends_with_the_new_file<F>(
    before: FileLogger<F>,
    after: FileLogger<F>,
    fresh: Option<F>,
)
    requires
        exists|logger: &mut FileLogger<F>|
            *logger == before && *final(logger) == after && #[trigger] call_ensures(
                FileLogger::<F>::reopen,
                (logger, fresh),
                (),
            ),
    ensures
        fresh is Some ==> after.file == fresh->0,
        fresh is None ==> after.file == before.file,
        after.max_size == before.max_size,
{
}

/// The first logger that could be opened is the instance's. Standard error tells the whole
/// name of the file, or of the directory and why there is none.
pub proof fn first_logger_stays(
    installed: bool,
    log_dir: &str,
    log_file: &str,
    opened: Result<(), String>,
    outcome: InitOutcome,
)
    requires
        call_ensures(init, (installed, log_dir, log_file, opened), outcome),
    ensures
        outcome.install <==> opened is Ok && !installed,
        opened is Ok ==> outcome.notice@ == "[init] file logging: "@ + log_file@,
        opened matches Err(reason) ==> outcome.notice@
            == "[init] warning: could not initialize file logging at "@ + log_dir@ + ": "@
            + reason@,
{
}

}
