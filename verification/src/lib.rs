//! Temporary redirection of the three standard streams.
//!
//! A standard stream is a process-wide descriptor slot.  Overriding a stream
//! duplicates a caller resource, installs the duplicate into the stream's
//! slot, and hands back a [`Guard`] carrying a duplicate of what the slot held
//! before.  Releasing the guard reinstalls that backup exactly once; the guard
//! can instead forget the backup (the override becomes permanent) or hand it
//! out as an owned descriptor.
//!
//! The descriptor state that these operations manipulate is the
//! [`fd_table::FdTable`]: a verified model of the descriptor layer, against
//! which every operation's effect is specified and proved.  The laws the
//! protocol obeys — restoration round trips, exactly-once release, LIFO
//! nesting, forget permanence, null-sink unboundedness, cross-stream
//! independence — are stated and proved in [`laws`].
use vstd::prelude::*;

pub mod fd_table;
pub mod laws;

use crate::fd_table::{
    FdTable, FileKind, BAD_DESCRIPTOR, same_files, same_slots, same_slots_except,
    same_slots_except2, same_state,
};

verus! {

/// Selects one of the three process-wide standard streams.
#[derive(Clone, Copy, Debug, PartialEq, Eq)]
pub enum Stdio {
    Stdin,
    Stdout,
    Stderr,
}

impl Stdio {
    /// The descriptor slot conventionally backing this stream.
    pub open spec fn slot_spec(self) -> int {
        match self {
            Stdio::Stdin => 0,
            Stdio::Stdout => 1,
            Stdio::Stderr => 2,
        }
    }

    /// The standard descriptor number of this stream: 0, 1 or 2.
    pub fn as_raw_fd(&self) -> (r: usize)
        ensures
            r as int == self.slot_spec(),
    {
        match self {
            Stdio::Stdin => 0,
            Stdio::Stdout => 1,
            Stdio::Stderr => 2,
        }
    }
}

/// An exclusively owned descriptor: whoever holds the value is responsible
/// for the descriptor, and parting with it (installing it, closing it,
/// handing it on) consumes the value.
#[derive(Debug)]
pub struct OwnedFd {
    raw: usize,
}

impl OwnedFd {
    /// The descriptor this value owns.
    pub closed spec fn id(self) -> int {
        self.raw as int
    }

    /// Takes ownership of descriptor `raw`.
    pub fn from_raw(raw: usize) -> (r: OwnedFd)
        ensures
            r.id() == raw as int,
    {
        OwnedFd { raw }
    }

    /// The raw descriptor number, without giving up ownership.
    pub fn as_raw(&self) -> (r: usize)
        ensures
            r as int == self.id(),
    {
        self.raw
    }
}

/// The primitive whose failure an [`OsError`] reports.
#[derive(Clone, Copy, Debug, PartialEq, Eq)]
pub enum StdioOp {
    /// Reading which descriptor currently backs a standard stream.
    QueryCurrent,
    /// Duplicating a descriptor.
    Duplicate,
    /// Installing a descriptor into a standard stream's slot.
    Install,
}

/// A failed stream operation: which primitive failed, and the error code.
#[derive(Clone, Copy, Debug, PartialEq, Eq)]
pub struct OsError {
    /// The primitive that failed.
    pub op: StdioOp,
    /// The error code the descriptor layer reported.
    pub code: i32,
}

/// How a successful override of `stdio` by resource descriptor `file` relates
/// the table before (`pre`) to the table after (`post`) and the guard `g` it
/// produced: the stream's slot now refers to the resource's description, the
/// guard holds a fresh backup descriptor referring to what the slot held
/// before, and nothing else changed.
pub open spec fn override_ok(
    pre: FdTable,
    post: FdTable,
    file: int,
    stdio: Stdio,
    g: Guard,
) -> bool {
    let s = stdio.slot_spec();
    let b = g.backup_id();
    &&& g.stream() == stdio
    &&& g.is_active()
    &&& pre.is_open(s)
    &&& pre.is_open(file)
    &&& !pre.is_open(b)
    &&& forall|j: int| 0 <= j < b ==> pre.is_open(j)
    &&& post.slot_of(b) == pre.slot_of(s)
    &&& post.slot_of(s) == pre.slot_of(file)
    &&& same_slots_except2(pre, post, s, b)
    &&& same_files(pre, post)
}

/// How a failed override relates the tables and the error: the table is left
/// untouched, and the failing primitive tells exactly what was wrong — the
/// stream's slot was unset, or the resource descriptor was not open.
pub open spec fn override_err(
    pre: FdTable,
    post: FdTable,
    file: int,
    stdio: Stdio,
    e: OsError,
) -> bool {
    let s = stdio.slot_spec();
    &&& same_state(pre, post)
    &&& e.code == BAD_DESCRIPTOR
    &&& (e.op is QueryCurrent <==> !pre.is_open(s))
    &&& (e.op is Duplicate <==> pre.is_open(s) && !pre.is_open(file))
    &&& !(e.op is Install)
}

/// What releasing guard `g` does to the table: when the guard still holds its
/// backup and the backup descriptor is open, the backup is installed back
/// into the guard's stream slot and consumed; otherwise nothing changes.
/// File contents are never touched.
pub open spec fn release_effect(pre: FdTable, post: FdTable, g: Guard) -> bool {
    let s = g.stream().slot_spec();
    let b = g.backup_id();
    &&& same_files(pre, post)
    &&& if g.is_active() && pre.is_open(b) {
        if b == s {
            same_slots(pre, post)
        } else {
            &&& post.slot_of(s) == pre.slot_of(b)
            &&& !post.is_open(b)
            &&& same_slots_except2(pre, post, s, b)
        }
    } else {
        same_slots(pre, post)
    }
}

/// What forgetting guard `g` does to the table: the backup descriptor is
/// closed without being reinstalled, and nothing else changes — in
/// particular, no stream slot is written.
pub open spec fn forget_effect(pre: FdTable, post: FdTable, g: Guard) -> bool {
    &&& same_files(pre, post)
    &&& if g.is_active() {
        &&& !post.is_open(g.backup_id())
        &&& same_slots_except(pre, post, g.backup_id())
    } else {
        same_slots(pre, post)
    }
}

/// Overrides the standard stream `stdio` with a duplicate of descriptor
/// `file`.  Captures a duplicate of the stream's current slot as a backup,
/// duplicates the resource, installs the fresh duplicate into the slot, and
/// returns the guard that restores the backup.  If any step fails, what was
/// captured so far is released and the table is left untouched.
pub fn override_stdio(t: &mut FdTable, file: usize, stdio: Stdio) -> (r: Result<Guard, OsError>)
    requires
        old(t).wf(),
    ensures
        final(t).wf(),
        r is Ok <==> old(t).is_open(stdio.slot_spec()) && old(t).is_open(file as int),
        match r {
            Ok(g) => override_ok(*old(t), *final(t), file as int, stdio, g),
            Err(e) => override_err(*old(t), *final(t), file as int, stdio, e),
        },
{
    let slot: usize = match t.raw_id_of(stdio) {
        Ok(s) => s,
        Err(code) => {
            return Err(OsError { op: StdioOp::QueryCurrent, code });
        },
    };
    // A dangling resource descriptor must be rejected before the backup is
    // captured, or its number could be reused for the backup itself.
    if !t.is_open_fd(file) {
        return Err(OsError { op: StdioOp::Duplicate, code: BAD_DESCRIPTOR });
    }
    let backup: usize = match t.dup(slot) {
        Ok(b) => b,
        Err(code) => {
            return Err(OsError { op: StdioOp::Duplicate, code });
        },
    };
    let ghost t1 = *t;
    let fresh: usize = match t.dup(file) {
        Ok(f) => f,
        Err(code) => {
            let _ = t.close(backup);
            return Err(OsError { op: StdioOp::Duplicate, code });
        },
    };
    let ghost t2 = *t;
    match t.install(fresh, stdio) {
        Ok(u) => {},
        Err(code) => {
            let _ = t.close(fresh);
            let _ = t.close(backup);
            return Err(OsError { op: StdioOp::Install, code });
        },
    }
    proof {
        let pre = *old(t);
        let post = *t;
        let s = stdio.slot_spec();
        let b = backup as int;
        let fr = fresh as int;
        let fl = file as int;
        assert(t1.is_open(b) && !t1.is_open(fr));
        assert(t1.slot_of(s) == pre.slot_of(s));
        assert(t1.slot_of(fl) == pre.slot_of(fl));
        assert(t2.slot_of(fr) == t1.slot_of(fl));
        assert(t2.slot_of(b) == t1.slot_of(b));
        assert(post.slot_of(b) == t2.slot_of(b));
        assert(post.slot_of(s) == t2.slot_of(fr));
        assert(pre.slot_of(fr) == t1.slot_of(fr));
        assert forall|fd: int| fd != s && fd != b implies post.slot_of(fd) == pre.slot_of(fd) by {
            if fd == fr {
                assert(!post.is_open(fr));
            } else {
                assert(post.slot_of(fd) == t2.slot_of(fd));
                assert(t2.slot_of(fd) == t1.slot_of(fd));
                assert(t1.slot_of(fd) == pre.slot_of(fd));
            }
        }
        assert forall|f: int| #[trigger] post.file_data(f) == pre.file_data(f) by {
            assert(post.file_data(f) == t2.file_data(f));
            assert(t2.file_data(f) == t1.file_data(f));
            assert(t1.file_data(f) == pre.file_data(f));
        }
        assert forall|f: int| #[trigger] post.file_kind(f) == pre.file_kind(f) by {
            assert(post.file_kind(f) == t2.file_kind(f));
            assert(t2.file_kind(f) == t1.file_kind(f));
            assert(t1.file_kind(f) == pre.file_kind(f));
        }
    }
    Ok(Guard { stdio, backup: Some(OwnedFd { raw: backup }) })
}

/// Restores a replaced standard stream when released.  It owns the backup of
/// what the stream's slot held at override time; exactly one of release,
/// [`Guard::forget`] or [`Guard::into_inner`] consumes that backup, and a
/// release after the backup is gone is a no-op.
#[must_use]
#[derive(Debug)]
pub struct Guard {
    stdio: Stdio,
    backup: Option<OwnedFd>,
}

impl Guard {
    /// The stream this guard restores.
    pub closed spec fn stream(self) -> Stdio {
        self.stdio
    }

    /// Whether the guard still holds its backup.
    pub closed spec fn is_active(self) -> bool {
        self.backup is Some
    }

    /// The backup descriptor, meaningful while the guard is active.
    pub closed spec fn backup_id(self) -> int {
        self.backup->0.id()
    }

    /// Consume the guard without restoring the stream: the override becomes
    /// permanent, and the backup descriptor is closed without being
    /// reinstalled.
    pub fn forget(self, t: &mut FdTable)
        requires
            old(t).wf(),
        ensures
            final(t).wf(),
            forget_effect(*old(t), *final(t), self),
    {
        match self.backup {
            Some(b) => {
                let _ = t.close(b.raw);
            },
            None => {},
        }
    }

    /// Consume the guard, handing the backup out as an owned descriptor
    /// instead of restoring or closing it.
    pub fn into_inner(self) -> (r: OwnedFd)
        requires
            self.is_active(),
        ensures
            r.id() == self.backup_id(),
    {
        match self.backup {
            Some(b) => b,
            None => vstd::pervasive::unreached(),
        }
    }

    /// The backup's raw descriptor number, leaving the guard in place.
    pub fn borrow_inner(&self) -> (r: usize)
        requires
            self.is_active(),
        ensures
            r as int == self.backup_id(),
    {
        match &self.backup {
            Some(b) => b.as_raw(),
            None => vstd::pervasive::unreached(),
        }
    }

    /// Restore the stream now: reinstall the backup into the stream's slot
    /// and consume it.  A failure to reinstall is swallowed — restoration is
    /// a best-effort cleanup path — and once the backup is gone every further
    /// release is a no-op.
    pub fn release(&mut self, t: &mut FdTable)
        requires
            old(t).wf(),
        ensures
            final(t).wf(),
            !final(self).is_active(),
            final(self).stream() == old(self).stream(),
            release_effect(*old(t), *final(t), *old(self)),
    {
        match self.backup.take() {
            Some(b) => {
                let _ = t.install(b.raw, self.stdio);
            },
            None => {},
        }
    }
}

/// The capability of exposing a raw descriptor, extended with one override
/// operation per standard stream.  Any resource that exposes a descriptor —
/// a file, a pipe, the null sink — can redirect a stream to itself.
pub trait StdioOverride {
    /// The descriptor this resource exposes.
    spec fn fd_spec(&self) -> int;

    /// The raw descriptor value.
    fn as_fd(&self) -> (r: usize)
        ensures
            r as int == self.fd_spec(),
    ;

    /// Replace standard output with a duplicate of this resource.
    fn override_stdout(&self, t: &mut FdTable) -> (r: Result<Guard, OsError>)
        requires
            old(t).wf(),
        ensures
            final(t).wf(),
            r is Ok <==> old(t).is_open(Stdio::Stdout.slot_spec()) && old(t).is_open(
                self.fd_spec(),
            ),
            match r {
                Ok(g) => override_ok(*old(t), *final(t), self.fd_spec(), Stdio::Stdout, g),
                Err(e) => override_err(*old(t), *final(t), self.fd_spec(), Stdio::Stdout, e),
            },
    {
        override_stdio(t, self.as_fd(), Stdio::Stdout)
    }

    /// Replace standard error with a duplicate of this resource.
    fn override_stderr(&self, t: &mut FdTable) -> (r: Result<Guard, OsError>)
        requires
            old(t).wf(),
        ensures
            final(t).wf(),
            r is Ok <==> old(t).is_open(Stdio::Stderr.slot_spec()) && old(t).is_open(
                self.fd_spec(),
            ),
            match r {
                Ok(g) => override_ok(*old(t), *final(t), self.fd_spec(), Stdio::Stderr, g),
                Err(e) => override_err(*old(t), *final(t), self.fd_spec(), Stdio::Stderr, e),
            },
    {
        override_stdio(t, self.as_fd(), Stdio::Stderr)
    }

    /// Replace standard input with a duplicate of this resource.
    fn override_stdin(&self, t: &mut FdTable) -> (r: Result<Guard, OsError>)
        requires
            old(t).wf(),
        ensures
            final(t).wf(),
            r is Ok <==> old(t).is_open(Stdio::Stdin.slot_spec()) && old(t).is_open(
                self.fd_spec(),
            ),
            match r {
                Ok(g) => override_ok(*old(t), *final(t), self.fd_spec(), Stdio::Stdin, g),
                Err(e) => override_err(*old(t), *final(t), self.fd_spec(), Stdio::Stdin, e),
            },
    {
        override_stdio(t, self.as_fd(), Stdio::Stdin)
    }
}

impl StdioOverride for OwnedFd {
    open spec fn fd_spec(&self) -> int {
        self.id()
    }

    fn as_fd(&self) -> (r: usize) {
        self.raw
    }
}

/// Opens the discard sink: a description that accepts writes of any volume
/// and stores nothing.
pub fn null(t: &mut FdTable) -> (r: OwnedFd)
    requires
        old(t).wf(),
    ensures
        final(t).wf(),
        !old(t).is_open(r.id()),
        forall|j: int| 0 <= j < r.id() ==> old(t).is_open(j),
        final(t).slot_of(r.id()) == Some(old(t).file_count()),
        final(t).file_kind(old(t).file_count()) == Some(FileKind::Null),
        final(t).file_data(old(t).file_count()) == Seq::<u8>::empty(),
        final(t).file_count() == old(t).file_count() + 1,
        same_slots_except(*old(t), *final(t), r.id()),
        forall|f: int|
            f != old(t).file_count() ==> #[trigger] final(t).file_data(f) == old(t).file_data(f),
        forall|f: int|
            f != old(t).file_count() ==> #[trigger] final(t).file_kind(f) == old(t).file_kind(f),
{
    let fd: usize = t.open_file(FileKind::Null);
    OwnedFd { raw: fd }
}

} // verus!
