use vstd::prelude::*;
use vstd::string::*;

verus! {

/// Where a piece of text goes.
#[derive(Clone, Copy, Debug, PartialEq, Eq, Structural)]
pub enum Stream {
    Stdout,
    Stderr,
}

/// One terminal operation. A call on the console hands back the whole list of
/// operations it needs, to be carried out in order while the console's lock is held.
#[derive(Debug)]
pub enum TermOp {
    /// Clear the line the cursor is on.
    ClearLine,
    /// Write text to a stream.
    Write { stream: Stream, text: String },
    /// Move the cursor back to column zero.
    MoveToColumnZero,
    /// Flush standard output.
    Flush,
}

/// `ops` writes `text` to `stream`.
pub open spec fn writes(op: TermOp, stream: Stream, text: Seq<char>) -> bool {
    match op {
        TermOp::Write { stream: s, text: t } => s == stream && t@ == text,
        _ => false,
    }
}

/// The operations that redraw the status line `status`: clear the line, write
/// the status, move back to column zero, flush.
pub open spec fn renders_status(ops: Seq<TermOp>, status: Seq<char>) -> bool {
    &&& ops.len() == 4
    &&& ops[0] is ClearLine
    &&& writes(ops[1], Stream::Stdout, status)
    &&& ops[2] is MoveToColumnZero
    &&& ops[3] is Flush
}

/// The operations of one log line: clear the line, write `text` and a line
/// break to `stream`, then redraw the status line beneath it.
pub open spec fn renders_log_line(
    ops: Seq<TermOp>,
    stream: Stream,
    text: Seq<char>,
    status: Seq<char>,
) -> bool {
    &&& ops.len() == 6
    &&& ops[0] is ClearLine
    &&& writes(ops[1], stream, text + seq!['\n'])
    &&& renders_status(ops.subrange(2, 6), status)
}

/// The console's one piece of shared state: the status line pinned below the
/// log output. Callers that share it across tasks hold it behind a lock, and
/// each call below is one unit of output taken under that lock.
pub struct StatusConsole {
    last_line: String,
}

impl StatusConsole {
    pub closed spec fn status(&self) -> Seq<char> {
        self.last_line@
    }

    pub fn new() -> (r: StatusConsole)
        ensures
            r.status() == Seq::<char>::empty(),
    {
        StatusConsole { last_line: String::new() }
    }

    /// The status line as it stands.
    pub fn last_line(&self) -> (r: &str)
        ensures
            r@ == self.status(),
    {
        self.last_line.as_str()
    }
}

/// Clears the current line.
pub fn clear_line() -> (r: Vec<TermOp>)
    ensures
        r@.len() == 1,
        r@[0] is ClearLine,
{
    let mut r: Vec<TermOp> = Vec::new();
    r.push(TermOp::ClearLine);
    r
}

/// Stores `text` as the status line.
pub fn save_line(console: &mut StatusConsole, text: String)
    ensures
        final(console).status() == text@,
{
    console.last_line = text;
}

/// Redraws the status line.
pub fn update_line(console: &StatusConsole) -> (r: Vec<TermOp>)
    ensures
        renders_status(r@, console.status()),
{
    let mut r: Vec<TermOp> = Vec::new();
    r.push(TermOp::ClearLine);
    r.push(TermOp::Write { stream: Stream::Stdout, text: console.last_line.clone() });
    r.push(TermOp::MoveToColumnZero);
    r.push(TermOp::Flush);
    r
}

/// Writes one log line to `stream` and redraws the status line beneath it.
pub fn log_line(console: &StatusConsole, stream: Stream, text: &str) -> (r: Vec<TermOp>)
    ensures
        renders_log_line(r@, stream, text@, console.status()),
{
    let mut r = clear_line();
    proof {
        reveal_strlit("\n");
    }
    let line = String::from_str(text).concat("\n");
    assert("\n"@ =~= seq!['\n']);
    assert(line@ =~= text@ + seq!['\n']);
    r.push(TermOp::Write { stream, text: line });
    let mut status = update_line(console);
    let ghost drawn = status@;
    let ghost head = r@;
    r.append(&mut status);
    assert(r@ == head + drawn);
    assert(r@.subrange(2, 6) =~= drawn);
    r
}

/// A log line on standard output.
pub fn fn_println(console: &StatusConsole, text: &str) -> (r: Vec<TermOp>)
    ensures
        renders_log_line(r@, Stream::Stdout, text@, console.status()),
{
    log_line(console, Stream::Stdout, text)
}

/// A log line on standard error.
pub fn fn_eprintln(console: &StatusConsole, text: &str) -> (r: Vec<TermOp>)
    ensures
        renders_log_line(r@, Stream::Stderr, text@, console.status()),
{
    log_line(console, Stream::Stderr, text)
}

/// Writes a block of text as it is, then redraws the status line beneath it.
pub fn fn_printdoc(console: &StatusConsole, text: &str) -> (r: Vec<TermOp>)
    ensures
        r@.len() == 6,
        r@[0] is ClearLine,
        writes(r@[1], Stream::Stdout, text@),
        renders_status(r@.subrange(2, 6), console.status()),
{
    let mut r = clear_line();
    r.push(TermOp::Write { stream: Stream::Stdout, text: String::from_str(text) });
    let mut status = update_line(console);
    let ghost drawn = status@;
    let ghost head = r@;
    r.append(&mut status);
    assert(r@ == head + drawn);
    assert(r@.subrange(2, 6) =~= drawn);
    r
}

/// Sets the status line to `text` and draws it.
pub fn fn_print_update(console: &mut StatusConsole, text: String) -> (r: Vec<TermOp>)
    ensures
        final(console).status() == text@,
        renders_status(r@, text@),
{
    save_line(console, text);
    update_line(console)
}

/// Every unit of output is whole: a log line's unit clears the line, writes
/// that line alone, and ends by redrawing the status as it stood when the unit
/// was taken; a status update's unit draws exactly the new status. So however
/// the lock orders concurrent calls, the output is a concatenation of such
/// units, each one the work of a single call, and the status reappears last.
pub proof fn lemma_units_are_whole(
    log_ops: Seq<TermOp>,
    stream: Stream,
    text: Seq<char>,
    status: Seq<char>,
    update_ops: Seq<TermOp>,
    new_status: Seq<char>,
)
    requires
        renders_log_line(log_ops, stream, text, status),
        renders_status(update_ops, new_status),
    ensures
        ({
            let both = log_ops + update_ops;
            &&& both.len() == 10
            &&& forall|i: int|
                0 <= i < both.len() && #[trigger] both[i] is Write ==> (i == 1 && writes(
                    both[i],
                    stream,
                    text + seq!['\n'],
                )) || (i == 3 && writes(both[i], Stream::Stdout, status)) || (i == 7 && writes(
                    both[i],
                    Stream::Stdout,
                    new_status,
                ))
            &&& writes(both[both.len() - 3], Stream::Stdout, new_status)
        }),
{
    let both = log_ops + update_ops;
    let tail = log_ops.subrange(2, 6);
    assert(tail[1] == log_ops[3]);
    assert forall|i: int| 0 <= i < both.len() && #[trigger] both[i] is Write implies (i == 1
        && writes(both[i], stream, text + seq!['\n'])) || (i == 3 && writes(
        both[i],
        Stream::Stdout,
        status,
    )) || (i == 7 && writes(both[i], Stream::Stdout, new_status)) by {
        if i >= 6 {
            assert(both[i] == update_ops[i - 6]);
        } else if i >= 2 {
            assert(both[i] == tail[i - 2]);
        }
    }
}

} // verus!
