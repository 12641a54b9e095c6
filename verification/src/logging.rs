//! The log of an instance: one file of timestamped lines, rotated when it grows too
//! large, with a few backups.
//!
//! The files stand in one directory: [`LOG_FILE`], and backups named after it with a
//! number, the most recent under 1.

use vstd::prelude::*;
use vstd::string::*;

use crate::outside::{is_timestamp, local_time};
use crate::text::{decimal, digit, print_decimal};

verus! {

/// The directory of the log, below the instance's data.
pub const LOG_DIR: &'static str = "logs";

/// The current log.
pub const LOG_FILE: &'static str = "herald.log";

/// A log larger than this, in bytes, is rotated unless another size is chosen.
pub const MAX_LOG_SIZE: u64 = 10 * 1024 * 1024;

/// How many backups are kept.
pub const MAX_BACKUPS: usize = 3;

/// How the time of a line is written.
pub const TIMESTAMP_FORMAT: &'static str = "%Y-%m-%d %H:%M:%S%.3f";

/// The line `line` of the log, written at `timestamp`.
pub open spec fn record_of(timestamp: Seq<char>, line: Seq<char>) -> Seq<char> {
    timestamp + " "@ + line + "\n"@
}

/// The `i`th file of the log: the current one, then the backups.
pub open spec fn file_name(i: nat) -> Seq<char> {
    if i == 0 {
        LOG_FILE@
    } else {
        LOG_FILE@ + "."@ + decimal(i)
    }
}

/// The name of the `i`th file of the log.
pub fn log_file_name(i: usize) -> (name: String)
    ensures
        name@ == file_name(i as nat),
{
    let mut name = LOG_FILE.to_owned();
    if i > 0 {
        name.append(".");
        name.append(print_decimal(i as u64).as_str());
    }
    name
}

/// A file to be renamed, over whatever has the new name. Where there is no such file,
/// nothing happens.
pub struct Rename {
    pub from: String,
    pub to: String,
}

/// A log of so many bytes is to be rotated.
pub open spec fn is_too_large(bytes: nat, max_size: u64) -> bool {
    bytes > max_size
}

/// An open log, of which `F` is the handle.
pub struct FileLogger<F> {
    pub file: F,
    /// A log larger than this, in bytes, is rotated.
    pub max_size: u64,
}

/// The `k`th rename of a rotation makes room from the oldest backup down.
pub open spec fn rotation_step(k: int) -> (Seq<char>, Seq<char>) {
    (file_name((MAX_BACKUPS - 1 - k) as nat), file_name((MAX_BACKUPS - k) as nat))
}

/// The renames of a rotation.
pub open spec fn rotation_steps() -> Seq<(Seq<char>, Seq<char>)> {
    Seq::new(MAX_BACKUPS as nat, |k: int| rotation_step(k))
}

impl<F> FileLogger<F> {
    /// The logger that writes to `file`.
    pub fn new(file: F) -> (logger: Self)
        ensures
            logger == (FileLogger { file, max_size: MAX_LOG_SIZE }),
    {
        FileLogger { file, max_size: MAX_LOG_SIZE }
    }

    /// The logger with another size at which the log is rotated.
    pub fn with_max_size(self, max_size: u64) -> (logger: Self)
        ensures
            logger == (FileLogger { file: self.file, max_size }),
    {
        FileLogger { file: self.file, max_size }
    }

    /// What to append to the file for a line.
    pub fn write_line(&self, timestamp: &str, line: &str) -> (record: String)
        ensures
            record@ == record_of(timestamp@, line@),
    {
        let mut record = timestamp.to_owned();
        record.append(" ");
        record.append(line);
        record.append("\n");
        record
    }

    /// Whether the log is to be rotated, once a line was written. `size` is that of the
    /// file, where it could be read.
    pub fn wants_rotation(&self, size: Option<u64>) -> (wanted: bool)
        ensures
            wanted == (size matches Some(bytes) && is_too_large(bytes as nat, self.max_size)),
    {
        match size {
            Some(bytes) => bytes > self.max_size,
            None => false,
        }
    }

    /// The renames of a rotation, in the order in which they are to be made.
    pub fn rotate(&self) -> (renames: Vec<Rename>)
        ensures
            renames.len() == rotation_steps().len(),
            forall|k: int|
                0 <= k < renames.len() ==> ((#[trigger] renames[k]).from@, renames[k].to@)
                    == rotation_steps()[k],
    {
        let mut renames: Vec<Rename> = Vec::new();
        let mut i: usize = MAX_BACKUPS;
        while i > 0
            invariant
                i <= MAX_BACKUPS,
                renames.len() == MAX_BACKUPS - i,
                forall|k: int|
                    0 <= k < renames.len() ==> (
                    (#[trigger] renames[k]).from@,
                    renames[k].to@,
                    ) == rotation_step(k),
            decreases i,
        {
            renames.push(Rename { from: log_file_name(i - 1), to: log_file_name(i) });
            i -= 1;
        }
        renames
    }

    /// Ends a rotation. `fresh` is the new file, where it could be opened; otherwise the
    /// logger keeps the handle that it had.
    pub fn reopen(&mut self, fresh: Option<F>)
        ensures
            final(self).file == match fresh {
                Some(file) => file,
                None => old(self).file,
            },
            final(self).max_size == old(self).max_size,
    {
        match fresh {
            Some(file) => {
                self.file = file;
            },
            None => {},
        }
    }
}

/// The state of the instance's logger when a line comes.
pub enum LoggerSlot<'a, F> {
    /// No logger was installed.
    Empty,
    /// Another line is being written.
    Busy,
    /// The logger is free.
    Free(&'a FileLogger<F>),
}

/// What to append to the log file for a line. A line that comes while there is no
/// logger, or while it is busy, is not logged.
pub fn log_line<F>(slot: LoggerSlot<'_, F>, line: &str) -> (record: Option<String>)
    ensures
        record is Some <==> slot is Free,
        record matches Some(record) ==> exists|timestamp: Seq<char>| #[trigger]
            is_timestamp(timestamp) && record@ == record_of(timestamp, line@),
{
    match slot {
        LoggerSlot::Free(logger) => {
            let timestamp = local_time(TIMESTAMP_FORMAT);
            Some(logger.write_line(timestamp.as_str(), line))
        },
        _ => None,
    }
}

/// What becomes of an attempt to open the log.
pub struct InitOutcome {
    /// Whether the logger that was opened becomes the instance's logger.
    pub install: bool,
    /// What is told on standard error.
    pub notice: String,
}

/// Sets up the instance's logger at startup. Without a log file, lines go to standard
/// error alone. `installed` says whether there is a logger already: the first one stays.
pub fn init(installed: bool, log_dir: &str, log_file: &str, opened: Result<(), String>) -> (outcome:
    InitOutcome)
    ensures
        outcome.install == (opened is Ok && !installed),
        outcome.notice@ == match opened {
            Ok(()) => "[init] file logging: "@ + log_file@,
            Err(reason) => "[init] warning: could not initialize file logging at "@ + log_dir@
                + ": "@ + reason@,
        },
{
    match opened {
        Ok(()) => {
            let mut notice = "[init] file logging: ".to_owned();
            notice.append(log_file);
            InitOutcome { install: !installed, notice }
        },
        Err(reason) => {
            let mut notice = "[init] warning: could not initialize file logging at ".to_owned();
            notice.append(log_dir);
            notice.append(": ");
            notice.append(reason.as_str());
            InitOutcome { install: false, notice }
        },
    }
}

/// A directory, by name, after one of its files was renamed over whatever had the new
/// name.
pub open spec fn renamed<C>(
    files: Map<Seq<char>, C>,
    from: Seq<char>,
    to: Seq<char>,
) -> Map<Seq<char>, C> {
    if files.contains_key(from) {
        files.remove(from).insert(to, files[from])
    } else {
        files
    }
}

/// A directory after renames, made in order.
pub open spec fn after_renames<C>(
    files: Map<Seq<char>, C>,
    steps: Seq<(Seq<char>, Seq<char>)>,
) -> Map<Seq<char>, C>
    decreases steps.len(),
{
    if steps.len() == 0 {
        files
    } else {
        after_renames(renamed(files, steps[0].0, steps[0].1), steps.skip(1))
    }
}

/// What a directory holds under a name.
pub open spec fn content<C>(files: Map<Seq<char>, C>, name: Seq<char>) -> Option<C> {
    if files.contains_key(name) {
        Some(files[name])
    } else {
        None
    }
}

/// Some file of the log is called `name`.
pub open spec fn is_log_file(name: Seq<char>) -> bool {
    exists|i: nat| i <= MAX_BACKUPS && #[trigger] file_name(i) == name
}

/// The files of the log have different names.
pub proof fn log_files_have_different_names(i: nat, j: nat)
    requires
        i < j <= MAX_BACKUPS,
    ensures
        file_name(i) != file_name(j),
{
    reveal_strlit("herald.log");
    reveal_strlit(".");
    let a = file_name(i);
    let b = file_name(j);
    assert(decimal(j) == seq![digit(j)]);
    assert(b.len() == 12);
    if i > 0 {
        assert(decimal(i) == seq![digit(i)]);
        assert(a[11] == digit(i));
        assert(b[11] == digit(j));
    }
}

/// A rotation moves every file of the log one place on. The current log becomes the
/// first backup, and its name is free for a new one. Of all that the directory held, at
/// most the oldest backup is given up, and only where the one before it takes its place.
/// Other files are left alone.
pub proof fn rotation_moves_every_file_on<C>(files: Map<Seq<char>, C>)
    ensures
        ({
            let after = after_renames(files, rotation_steps());
            &&& content(after, file_name(0)) is None
            &&& forall|i: nat|
                0 < i < MAX_BACKUPS ==> content(after, #[trigger] file_name(i)) == content(
                    files,
                    file_name((i - 1) as nat),
                )
            &&& content(after, file_name(MAX_BACKUPS as nat)) == match content(
                files,
                file_name((MAX_BACKUPS - 1) as nat),
            ) {
                Some(moved) => Some(moved),
                None => content(files, file_name(MAX_BACKUPS as nat)),
            }
            &&& forall|name: Seq<char>|
                !#[trigger] is_log_file(name) ==> content(after, name) == content(files, name)
        }),
{
    let steps = rotation_steps();
    let n0 = file_name(0);
    let n1 = file_name(1);
    let n2 = file_name(2);
    let n3 = file_name(3);
    log_files_have_different_names(0, 1);
    log_files_have_different_names(0, 2);
    log_files_have_different_names(0, 3);
    log_files_have_different_names(1, 2);
    log_files_have_different_names(1, 3);
    log_files_have_different_names(2, 3);
    assert(steps =~= seq![(n2, n3), (n1, n2), (n0, n1)]);
    assert(steps.skip(1) =~= seq![(n1, n2), (n0, n1)]);
    assert(steps.skip(1).skip(1) =~= seq![(n0, n1)]);
    assert(steps.skip(1).skip(1).skip(1) =~= Seq::<(Seq<char>, Seq<char>)>::empty());
    reveal_with_fuel(after_renames, 5);
    let after = renamed(renamed(renamed(files, n2, n3), n1, n2), n0, n1);
    assert(after_renames(files, steps) == after);
    assert forall|name: Seq<char>| !#[trigger] is_log_file(name) implies content(after, name)
        == content(files, name) by {
        assert(name != n0 && name != n1 && name != n2 && name != n3);
    }
    assert forall|i: nat| 0 < i < MAX_BACKUPS implies content(after, #[trigger] file_name(i))
        == content(files, file_name((i - 1) as nat)) by {
        assert(i == 1 || i == 2);
    }
}

/// A rotation makes no files but backups, of which there are [`MAX_BACKUPS`] at most.
pub proof fn rotation_keeps_the_log_small<C>(files: Map<Seq<char>, C>, name: Seq<char>)
    requires
        after_renames(files, rotation_steps()).contains_key(name),
    ensures
        files.contains_key(name) || is_log_file(name) && name != file_name(0),
{
    rotation_moves_every_file_on(files);
    if !is_log_file(name) {
        assert(content(after_renames(files, rotation_steps()), name) == content(files, name));
    }
}

/// What a file of the log holds; nothing where it is missing.
pub open spec fn held(files: Map<Seq<char>, Seq<u8>>, i: nat) -> Seq<u8> {
    match content(files, file_name(i)) {
        Some(bytes) => bytes,
        None => Seq::empty(),
    }
}

/// The log as it is read, from the oldest backup to the current file.
pub open spec fn log_text(files: Map<Seq<char>, Seq<u8>>) -> Seq<u8> {
    held(files, 3) + held(files, 2) + held(files, 1) + held(files, 0)
}

/// The directory of the log once a record was appended to the current file, and the log
/// rotated where that made it too large, where nothing fails.
pub open spec fn after_write(
    files: Map<Seq<char>, Seq<u8>>,
    record: Seq<u8>,
    max_size: u64,
) -> Map<Seq<char>, Seq<u8>> {
    let longer = held(files, 0) + record;
    let appended = files.insert(file_name(0), longer);
    if is_too_large(longer.len(), max_size) {
        after_renames(appended, rotation_steps()).insert(file_name(0), Seq::empty())
    } else {
        appended
    }
}

/// After a write the current file is not too large.
pub proof fn current_log_stays_small(
    files: Map<Seq<char>, Seq<u8>>,
    record: Seq<u8>,
    max_size: u64,
)
    ensures
        !is_too_large(held(after_write(files, record, max_size), 0).len(), max_size),
{
}

/// A write adds its record at the end of the log. What it gives up, if anything, is the
/// beginning of the log: the oldest backup.
pub proof fn write_adds_at_the_end(
    files: Map<Seq<char>, Seq<u8>>,
    record: Seq<u8>,
    max_size: u64,
)
    ensures
        log_text(files) + record == log_text(after_write(files, record, max_size)) || log_text(
            files,
        ) + record == held(files, 3) + log_text(after_write(files, record, max_size)),
{
    let n0 = file_name(0);
    let longer = held(files, 0) + record;
    let appended = files.insert(n0, longer);
    let after = after_write(files, record, max_size);
    log_files_have_different_names(0, 1);
    log_files_have_different_names(0, 2);
    log_files_have_different_names(0, 3);
    log_files_have_different_names(1, 2);
    log_files_have_different_names(1, 3);
    log_files_have_different_names(2, 3);
    assert(held(appended, 1) == held(files, 1));
    assert(held(appended, 2) == held(files, 2));
    assert(held(appended, 3) == held(files, 3));
    if is_too_large(longer.len(), max_size) {
        let moved = after_renames(appended, rotation_steps());
        rotation_moves_every_file_on(appended);
        assert(content(moved, file_name(1)) == content(appended, file_name(0)));
        assert(content(moved, file_name(2)) == content(appended, file_name(1)));
        assert(held(after, 0) == Seq::<u8>::empty());
        assert(held(after, 1) == longer);
        assert(held(after, 2) == held(files, 1));
        if content(appended, file_name(2)) is Some {
            assert(held(after, 3) == held(files, 2));
            assert(log_text(files) + record =~= held(files, 3) + log_text(after));
        } else {
            assert(held(after, 3) == held(files, 3));
            assert(held(files, 2) == Seq::<u8>::empty());
            assert(log_text(files) + record =~= log_text(after));
        }
    } else {
        assert(held(after, 0) == longer);
        assert(log_text(files) + record =~= log_text(after));
    }
}

/// The directory of the log after writes, made in order from an empty one.
pub open spec fn after_writes(records: Seq<Seq<u8>>, max_size: u64) -> Map<Seq<char>, Seq<u8>>
    decreases records.len(),
{
    if records.len() == 0 {
        Map::empty()
    } else {
        after_write(after_writes(records.drop_last(), max_size), records.last(), max_size)
    }
}

/// All that was written, in order.
pub open spec fn written(records: Seq<Seq<u8>>) -> Seq<u8>
    decreases records.len(),
{
    if records.len() == 0 {
        Seq::empty()
    } else {
        written(records.drop_last()) + records.last()
    }
}

/// The log, read from the oldest backup to the current file, is the end of all that was
/// written: nothing is out of order, and nothing is missing but from the beginning.
pub proof fn log_is_the_end_of_what_was_written(records: Seq<Seq<u8>>, max_size: u64)
    ensures
        log_text(after_writes(records, max_size)).is_suffix_of(written(records)),
    decreases records.len(),
{
    let text = log_text(after_writes(records, max_size));
    if records.len() == 0 {
        assert(text =~= Seq::empty());
    } else {
        let before = after_writes(records.drop_last(), max_size);
        log_is_the_end_of_what_was_written(records.drop_last(), max_size);
        write_adds_at_the_end(before, records.last(), max_size);
        let all = written(records);
        let longer = log_text(before) + records.last();
        assert(longer.is_suffix_of(all)) by {
            assert(all.subrange(all.len() - longer.len(), all.len() as int) =~= longer);
        }
        assert(text.is_suffix_of(longer)) by {
            assert(longer.subrange(longer.len() - text.len(), longer.len() as int) =~= text);
        }
        assert(all.subrange(all.len() - text.len(), all.len() as int) =~= text);
    }
}

/// A line of text makes one line of the log: the record ends with the only line feed
/// that it holds.
pub proof fn one_line_makes_one_record(timestamp: Seq<char>, line: Seq<char>)
    requires
        is_timestamp(timestamp),
        !line.contains('\n'),
    ensures
        record_of(timestamp, line).index_of_first('\n') == Some(
            record_of(timestamp, line).len() - 1,
        ),
{
    reveal_strlit(" ");
    reveal_strlit("\n");
    reveal_strlit("-00-00 00:00:00.000");
    let record = record_of(timestamp, line);
    let last = record.len() - 1;
    record.index_of_first_ensures('\n');
    assert(record[last] == '\n');
    let year = timestamp.take(timestamp.len() - 19);
    let rest = timestamp.skip(timestamp.len() - 19);
    assert forall|i: int| 0 <= i < timestamp.len() implies timestamp[i] != '\n' by {
        if i < year.len() {
            assert(timestamp[i] == year[i]);
            if year.len() > 4 && i > 0 {
                assert(year.skip(1)[i - 1] == year[i]);
            }
        } else {
            assert(timestamp[i] == rest[i - year.len()]);
        }
    }
    assert forall|i: int| 0 <= i < last implies record[i] != '\n' by {
        let n = timestamp.len() as int;
        if i < n {
            assert(record[i] == timestamp[i]);
        } else if i > n {
            assert(record[i] == line[i - n - 1]);
        }
    }
}

}
