//! The trigger command: the argument vector that launches the application
//! on the device, and how one run of it is read.

use vstd::prelude::*;
use vstd::string::StrSliceExecFns;
use vstd::string::StringExecFns;

verus! {

/// The text of the device's control endpoint: the host and the control
/// port.
pub open spec fn endpoint_text(host: Seq<char>) -> Seq<char> {
    host + ":6095"@
}

/// The command line that asks the control endpoint to start a package.
pub open spec fn command_text(endpoint: Seq<char>, package_name: Seq<char>) -> Seq<char> {
    "curl -v http://"@ + endpoint
        + "/controller?action=startapp&type=packagename&packagename="@ + package_name
}

/// Where the last piece of `line` starts: just behind the last separator,
/// or at 0 where there is none.
pub open spec fn last_piece_start(line: Seq<char>, sep: char) -> int
    decreases line.len(),
{
    if line.len() == 0 {
        0
    } else if line.last() == sep {
        line.len() as int
    } else {
        last_piece_start(line.drop_last(), sep)
    }
}

/// The pieces of `line` between its separators, in order. There is one
/// piece more than there are separators, and a piece may be empty.
pub open spec fn split(line: Seq<char>, sep: char) -> Seq<Seq<char>>
    decreases line.len(),
    via split_decreases
{
    let start = last_piece_start(line, sep);
    if start == 0 {
        seq![line]
    } else {
        split(line.subrange(0, start - 1), sep).push(line.subrange(start, line.len() as int))
    }
}

#[via_fn]
proof fn split_decreases(line: Seq<char>, sep: char) {
    lemma_last_piece_start(line, sep);
}

/// The pieces with a separator between each two.
pub open spec fn join(pieces: Seq<Seq<char>>, sep: char) -> Seq<char>
    decreases pieces.len(),
{
    if pieces.len() == 0 {
        Seq::empty()
    } else if pieces.len() == 1 {
        pieces[0]
    } else {
        join(pieces.drop_last(), sep) + seq![sep] + pieces.last()
    }
}

/// The last piece starts inside the line, right behind a separator unless
/// at 0, and holds no separator.
proof fn lemma_last_piece_start(line: Seq<char>, sep: char)
    ensures
        0 <= last_piece_start(line, sep) <= line.len(),
        last_piece_start(line, sep) > 0 ==> line[last_piece_start(line, sep) - 1] == sep,
        forall|i: int| last_piece_start(line, sep) <= i < line.len() ==> line[i] != sep,
    decreases line.len(),
{
    if line.len() > 0 && line.last() != sep {
        let front = line.drop_last();
        lemma_last_piece_start(front, sep);
        assert forall|i: int| last_piece_start(line, sep) <= i < line.len() implies line[i]
            != sep by {
            if i < front.len() {
                assert(front[i] == line[i]);
            }
        }
    }
}

/// Splitting loses nothing and leaves no separator in a piece: the pieces
/// joined by the separator are the line again.
pub proof fn law_split_then_join(line: Seq<char>, sep: char)
    ensures
        split(line, sep).len() >= 1,
        forall|i: int| 0 <= i < split(line, sep).len() ==> !split(line, sep)[i].contains(sep),
        join(split(line, sep), sep) == line,
    decreases line.len(),
{
    lemma_last_piece_start(line, sep);
    let start = last_piece_start(line, sep);
    if start != 0 {
        let head = line.subrange(0, start - 1);
        let tail = line.subrange(start, line.len() as int);
        law_split_then_join(head, sep);
        let pieces = split(head, sep).push(tail);
        assert(pieces.drop_last() == split(head, sep));
        assert(pieces.last() == tail);
        assert(join(pieces, sep) == head + seq![sep] + tail);
        assert(head + seq![sep] + tail == line);
        assert forall|i: int| 0 <= i < pieces.len() implies !pieces[i].contains(sep) by {
            if i == pieces.len() - 1 {
                assert(!tail.contains(sep));
            } else {
                assert(pieces[i] == split(head, sep)[i]);
            }
        }
    }
}

/// A line without a separator is one piece.
proof fn lemma_no_separator_one_piece(line: Seq<char>, sep: char)
    requires
        !line.contains(sep),
    ensures
        last_piece_start(line, sep) == 0,
        split(line, sep) == seq![line],
    decreases line.len(),
{
    if line.len() > 0 {
        assert(line[line.len() - 1] != sep);
        let front = line.drop_last();
        assert forall|i: int| 0 <= i < front.len() implies front[i] != sep by {
            assert(front[i] == line[i]);
        }
        lemma_no_separator_one_piece(front, sep);
    }
}

/// Behind a separator that only a piece without separators follows, the
/// last piece starts.
proof fn lemma_last_piece_start_behind(head: Seq<char>, tail: Seq<char>, sep: char)
    requires
        !tail.contains(sep),
    ensures
        last_piece_start(head + seq![sep] + tail, sep) == head.len() + 1,
    decreases tail.len(),
{
    let line = head + seq![sep] + tail;
    if tail.len() == 0 {
        assert(line.last() == sep);
    } else {
        assert(line.last() == tail.last());
        assert(tail[tail.len() - 1] != sep);
        let front = tail.drop_last();
        assert forall|i: int| 0 <= i < front.len() implies front[i] != sep by {
            assert(front[i] == tail[i]);
        }
        assert(line.drop_last() == head + seq![sep] + front);
        lemma_last_piece_start_behind(head, front, sep);
    }
}

/// Splitting is the only way to cut a line into pieces without separators
/// that give the line back when joined: such pieces are the ones that
/// `split` returns.
pub proof fn law_split_is_the_inverse_of_join(pieces: Seq<Seq<char>>, sep: char)
    requires
        pieces.len() >= 1,
        forall|i: int| 0 <= i < pieces.len() ==> !(#[trigger] pieces[i]).contains(sep),
    ensures
        split(join(pieces, sep), sep) == pieces,
    decreases pieces.len(),
{
    let line = join(pieces, sep);
    if pieces.len() == 1 {
        lemma_no_separator_one_piece(pieces[0], sep);
        assert(pieces == seq![pieces[0]]);
    } else {
        let front = pieces.drop_last();
        let head = join(front, sep);
        let tail = pieces.last();
        assert forall|i: int| 0 <= i < front.len() implies !(#[trigger] front[i]).contains(
            sep,
        ) by {
            assert(front[i] == pieces[i]);
        }
        law_split_is_the_inverse_of_join(front, sep);
        lemma_last_piece_start_behind(head, tail, sep);
        assert(line == head + seq![sep] + tail);
        assert(line.subrange(0, head.len() as int) == head);
        assert(line.subrange(head.len() as int + 1, line.len() as int) == tail);
        assert(front.push(tail) == pieces);
    }
}

/// The texts of a vector of strings.
pub open spec fn texts(v: Seq<String>) -> Seq<Seq<char>> {
    Seq::new(v.len(), |i: int| v[i]@)
}

/// The text of the device's control endpoint for the host `host`.
pub fn device_endpoint(host: &str) -> (r: String)
    ensures
        r@ == endpoint_text(host@),
{
    String::from_str(host).concat(":6095")
}

/// The command line that asks the endpoint to start the package.
pub fn command_line(endpoint: &str, package_name: &str) -> (r: String)
    ensures
        r@ == command_text(endpoint@, package_name@),
{
    let mut line = String::from_str("curl -v http://");
    line.append(endpoint);
    line.append("/controller?action=startapp&type=packagename&packagename=");
    line.append(package_name);
    line
}

/// Splits a command line at each single space into its arguments.
pub fn split_args(line: &str) -> (argv: Vec<String>)
    ensures
        texts(argv@) == split(line@, ' '),
        argv.len() >= 1,
{
    let n: usize = line.unicode_len();
    let mut argv: Vec<String> = Vec::new();
    let mut start: usize = 0;
    let mut i: usize = 0;
    while i < n
        invariant
            n == line@.len(),
            start <= i <= n,
            start == last_piece_start(line@.subrange(0, i as int), ' '),
            texts(argv@).push(line@.subrange(start as int, i as int)) == split(
                line@.subrange(0, i as int),
                ' ',
            ),
        decreases n - i,
    {
        let ghost before = line@.subrange(0, i as int);
        let ghost after = line@.subrange(0, i + 1);
        assert(after.drop_last() == before);
        if line.get_char(i) == ' ' {
            argv.push(String::from_str(line.substring_char(start, i)));
            assert(after.subrange(i + 1, i + 1) == line@.subrange(i + 1, i + 1));
            start = i + 1;
        } else {
            if start > 0 {
                assert(after.subrange(0, start - 1) == before.subrange(0, start - 1));
            }
            assert(after.subrange(start as int, i + 1) == line@.subrange(start as int, i + 1));
            assert(texts(argv@).push(line@.subrange(start as int, i as int)).drop_last() == texts(
                argv@,
            ));
            assert(texts(argv@).push(line@.subrange(start as int, i + 1)) == split(after, ' '));
        }
        i += 1;
    }
    argv.push(String::from_str(line.substring_char(start, n)));
    assert(line@.subrange(0, n as int) == line@);
    argv
}

/// The argument vector that launches `package_name` on the device with the
/// host text `host`.
pub fn trigger_command(host: &str, package_name: &str) -> (argv: Vec<String>)
    ensures
        texts(argv@) == split(command_text(endpoint_text(host@), package_name@), ' '),
        argv.len() >= 1,
{
    let endpoint = device_endpoint(host);
    let line = command_line(endpoint.as_str(), package_name);
    split_args(line.as_str())
}

/// What became of one run of the trigger command.
#[derive(Clone, Copy, Debug, PartialEq, Eq, Structural)]
pub enum CommandRun {
    /// The command could not be started.
    SpawnFailed,
    /// The command ran and ended, with success or without.
    Exited { success: bool },
}

/// Why the trigger command did not run.
#[derive(Clone, Copy, Debug, PartialEq, Eq, Structural)]
pub enum TriggerError {
    /// The command could not be started.
    Spawn,
}

impl TriggerError {
    /// The error in words.
    pub open spec fn spec_describe(self) -> Seq<char> {
        match self {
            TriggerError::Spawn => "exec command error"@,
        }
    }

    /// The error in words.
    pub fn describe(&self) -> (r: String)
        ensures
            r@ == self.spec_describe(),
    {
        match self {
            TriggerError::Spawn => String::from_str("exec command error"),
        }
    }
}

/// How a run is reported.
pub open spec fn run_report(run: CommandRun) -> Result<bool, TriggerError> {
    match run {
        CommandRun::SpawnFailed => Err(TriggerError::Spawn),
        CommandRun::Exited { success } => Ok(success),
    }
}

/// Reads one run of the trigger command: whether it ended with success, or
/// that it never started.
pub fn exec_command(run: CommandRun) -> (r: Result<bool, TriggerError>)
    ensures
        r == run_report(run),
{
    match run {
        CommandRun::SpawnFailed => Err(TriggerError::Spawn),
        CommandRun::Exited { success } => Ok(success),
    }
}

} // verus!
