//! Which program the sandbox runs, and with which arguments.
use vstd::prelude::*;

verus! {

/// The byte views of a list of byte strings.
pub open spec fn views(v: Seq<Vec<u8>>) -> Seq<Seq<u8>> {
    v.map_values(|x: Vec<u8>| x@)
}

/// The fields of a NUL-separated buffer, as `split` on the NUL byte gives
/// them: one more field than the buffer has NUL bytes, empty fields kept.
pub open spec fn split_nul(b: Seq<u8>) -> Seq<Seq<u8>>
    decreases b.len(),
{
    if b.len() == 0 {
        seq![Seq::<u8>::empty()]
    } else {
        let prev = split_nul(b.drop_last());
        if b.last() == 0 {
            prev.push(Seq::<u8>::empty())
        } else {
            prev.update(prev.len() - 1, prev.last().push(b.last()))
        }
    }
}

/// A well-formed argument buffer: non-empty and ending in its terminator.
pub open spec fn is_terminated(cmdline: Seq<u8>) -> bool {
    cmdline.len() > 0 && cmdline.last() == 0
}

/// The arguments of a process recorded in a NUL-terminated argument buffer,
/// its own name left out: the buffer's fields without the empty one that the
/// final terminator produces, and without the first.
pub open spec fn recorded_args(cmdline: Seq<u8>) -> Seq<Seq<u8>> {
    split_nul(cmdline.drop_last()).drop_first()
}

pub proof fn lemma_split_nul_nonempty(b: Seq<u8>)
    ensures
        split_nul(b).len() >= 1,
    decreases b.len(),
{
    if b.len() > 0 {
        lemma_split_nul_nonempty(b.drop_last());
    }
}

/// A program and its arguments, the program's own name not among them.
#[derive(Clone, Debug)]
pub struct CommandLine {
    pub program: Vec<u8>,
    pub args: Vec<Vec<u8>>,
}

/// Where the command comes from.
#[derive(Clone, Debug)]
pub enum CommandSource {
    /// Given on the command line.
    Explicit(CommandLine),
    /// Nothing was given: run again what the parent process runs.
    InheritParent,
}

/// Why no command could be resolved.
#[derive(Clone, Copy, Debug, PartialEq, Eq, Structural)]
pub enum CommandError {
    /// No command was given and standard input is not a terminal.
    NoTerminal,
    /// The parent process's executable or argument records could not be read.
    ParentUnreadable,
}

/// Splits `buf` at each NUL byte.
pub fn split_fields(buf: &[u8]) -> (r: Vec<Vec<u8>>)
    ensures
        views(r@) == split_nul(buf@),
{
    let mut done: Vec<Vec<u8>> = Vec::new();
    let mut cur: Vec<u8> = Vec::new();
    let mut i: usize = 0;
    while i < buf.len()
        invariant
            i <= buf@.len(),
            split_nul(buf@.take(i as int)) == views(done@).push(cur@),
        decreases buf@.len() - i,
    {
        let x = buf[i];
        proof {
            let t = buf@.take(i as int + 1);
            assert(t.drop_last() =~= buf@.take(i as int));
            assert(t.last() == x);
        }
        if x == 0 {
            let field = cur;
            done.push(field);
            cur = Vec::new();
            assert(views(done@).push(cur@) =~= split_nul(buf@.take(i as int)).push(Seq::empty()));
        } else {
            let ghost before = cur@;
            cur.push(x);
            proof {
                let prev = split_nul(buf@.take(i as int));
                assert(prev.last() == before);
                assert(views(done@).push(cur@) =~= prev.update(prev.len() - 1, before.push(x)));
            }
        }
        i = i + 1;
    }
    assert(buf@.take(i as int) =~= buf@);
    done.push(cur);
    assert(views(done@) =~= split_nul(buf@));
    done
}

/// The command of a parent process: its resolved executable `exe`, and the
/// arguments recorded in its argument buffer `cmdline` after its own name.
/// An empty buffer, or one that does not end in its terminator, is malformed
/// and gives no arguments: only the executable runs.
pub fn inherit_parent(exe: Vec<u8>, cmdline: &[u8]) -> (r: CommandLine)
    ensures
        r.program@ == exe@,
        is_terminated(cmdline@) ==> views(r.args@) == recorded_args(cmdline@),
        !is_terminated(cmdline@) ==> r.args@.len() == 0,
{
    let n = cmdline.len();
    if n > 0 && cmdline[n - 1] == 0 {
        let body = slice_prefix(cmdline, n - 1);
        assert(body@ =~= cmdline@.drop_last());
        let mut fields = split_fields(&body);
        proof {
            lemma_split_nul_nonempty(cmdline@.drop_last());
        }
        let ghost all = fields@;
        let _own_name = fields.remove(0);
        assert(views(fields@) =~= views(all).drop_first());
        CommandLine { program: exe, args: fields }
    } else {
        CommandLine { program: exe, args: Vec::new() }
    }
}

/// The first `len` bytes of `b`, copied.
fn slice_prefix(b: &[u8], len: usize) -> (r: Vec<u8>)
    requires
        len <= b@.len(),
    ensures
        r@ == b@.take(len as int),
{
    let mut r: Vec<u8> = Vec::new();
    let mut i: usize = 0;
    while i < len
        invariant
            i <= len <= b@.len(),
            r@ == b@.take(i as int),
        decreases len - i,
    {
        r.push(b[i]);
        i = i + 1;
        assert(r@ =~= b@.take(i as int));
    }
    r
}

/// Decides where the command comes from. A non-empty `explicit` gives its
/// first element as the program and the rest, verbatim, as the arguments.
/// Otherwise the parent's command is inherited, which needs an interactive
/// standard input.
pub fn plan_command(explicit: Vec<Vec<u8>>, stdin_is_tty: bool) -> (r: Result<
    CommandSource,
    CommandError,
>)
    ensures
        explicit@.len() > 0 ==> (r matches Ok(CommandSource::Explicit(c)) && c.program@
            == explicit@[0]@ && views(c.args@) == views(explicit@).drop_first()),
        explicit@.len() == 0 && !stdin_is_tty ==> r == Err::<CommandSource, CommandError>(
            CommandError::NoTerminal,
        ),
        explicit@.len() == 0 && stdin_is_tty ==> r matches Ok(CommandSource::InheritParent),
{
    if explicit.len() > 0 {
        let mut rest = explicit;
        let ghost all = rest@;
        let program = rest.remove(0);
        assert(views(rest@) =~= views(all).drop_first());
        Ok(CommandSource::Explicit(CommandLine { program, args: rest }))
    } else if !stdin_is_tty {
        Err(CommandError::NoTerminal)
    } else {
        Ok(CommandSource::InheritParent)
    }
}

} // verus!
