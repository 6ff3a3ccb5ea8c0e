//! The laws of the redirection protocol, proved from the effect relations
//! that the operations' contracts establish.
use vstd::prelude::*;

use crate::{forget_effect, override_ok, release_effect, Guard, Stdio};
use crate::fd_table::{same_files, same_slots, same_state, write_effect, FdTable, FileKind};

verus! {

/// Restore idempotence: after an override of `stdio` and a release of its
/// guard — with any descriptor-preserving activity in between — the stream's
/// slot refers to the description it referred to before the override, and
/// every file whose content the intervening activity left alone still reads
/// as it did before the override.
pub proof fn lemma_restore_round_trip(
    t0: FdTable,
    t1: FdTable,
    t2: FdTable,
    t3: FdTable,
    file: int,
    stdio: Stdio,
    g: Guard,
)
    requires
        override_ok(t0, t1, file, stdio, g),
        same_slots(t1, t2),
        release_effect(t2, t3, g),
    ensures
        t3.slot_of(stdio.slot_spec()) == t0.slot_of(stdio.slot_spec()),
        forall|f: int|
            #[trigger] t2.file_data(f) == t0.file_data(f) ==> t3.file_data(f) == t0.file_data(f),
{
    let s = stdio.slot_spec();
    let b = g.backup_id();
    assert(t2.slot_of(b) == t1.slot_of(b));
    assert(t2.is_open(b));
    assert(t3.slot_of(s) == t2.slot_of(b));
}

/// Exactly-once restoration: once a guard's backup is gone — after a release
/// or an extraction — a further release changes nothing at all.
pub proof fn lemma_release_exactly_once(t0: FdTable, t1: FdTable, g: Guard)
    requires
        !g.is_active(),
        release_effect(t0, t1, g),
    ensures
        same_state(t0, t1),
{
}

/// LIFO nesting: overriding the same stream twice (guard `g1`, then `g2`)
/// and releasing in reverse order (`g2`, then `g1`) restores the stream's
/// slot to what it was before the first override, and touches no file
/// content.
pub proof fn lemma_lifo_nesting(
    t0: FdTable,
    t1: FdTable,
    t2: FdTable,
    t3: FdTable,
    t4: FdTable,
    f1: int,
    f2: int,
    stdio: Stdio,
    g1: Guard,
    g2: Guard,
)
    requires
        override_ok(t0, t1, f1, stdio, g1),
        override_ok(t1, t2, f2, stdio, g2),
        release_effect(t2, t3, g2),
        release_effect(t3, t4, g1),
    ensures
        t4.slot_of(stdio.slot_spec()) == t0.slot_of(stdio.slot_spec()),
        same_files(t0, t4),
{
    let s = stdio.slot_spec();
    let b1 = g1.backup_id();
    let b2 = g2.backup_id();
    assert(t1.is_open(b1));
    assert(b1 != b2);
    assert(t2.slot_of(b1) == t0.slot_of(s));
    assert(t2.is_open(b2));
    assert(t3.slot_of(b1) == t2.slot_of(b1));
    assert(t3.is_open(b1));
    assert(t4.slot_of(s) == t3.slot_of(b1));
}

/// Forget permanence: forgetting a guard leaves the override in place — the
/// stream's slot still refers to the duplicate of the overriding resource —
/// and relinquishes the backup descriptor, so nothing this guard held can
/// restore the pre-override target afterwards.
pub proof fn lemma_forget_permanence(
    t0: FdTable,
    t1: FdTable,
    t2: FdTable,
    file: int,
    stdio: Stdio,
    g: Guard,
)
    requires
        override_ok(t0, t1, file, stdio, g),
        forget_effect(t1, t2, g),
    ensures
        t2.slot_of(stdio.slot_spec()) == t1.slot_of(stdio.slot_spec()),
        t2.slot_of(stdio.slot_spec()) == t0.slot_of(file),
        !t2.is_open(g.backup_id()),
{
}

/// Null sink unboundedness: a write of any volume through a descriptor backed
/// by a discard description succeeds, the description stores nothing, and no
/// descriptor changes.
pub proof fn lemma_null_sink_unbounded(
    t0: FdTable,
    t1: FdTable,
    fd: int,
    bytes: Seq<u8>,
    r: Result<(), i32>,
)
    requires
        write_effect(t0, t1, fd, bytes, r),
        t0.is_open(fd),
        t0.file_kind(t0.slot_of(fd)->0) == Some(FileKind::Null),
    ensures
        r is Ok,
        t1.file_data(t0.slot_of(fd)->0) == Seq::<u8>::empty(),
        same_slots(t0, t1),
{
}

/// Cross-stream independence: overriding one standard stream changes neither
/// the slot nor any file content of another standard stream, provided that
/// other stream's slot is open.  (When the other slot is closed, the fresh
/// backup may be allocated its descriptor number.)
pub proof fn lemma_cross_stream_independence(
    t0: FdTable,
    t1: FdTable,
    file: int,
    stdio: Stdio,
    other: Stdio,
    g: Guard,
)
    requires
        override_ok(t0, t1, file, stdio, g),
        other != stdio,
        t0.is_open(other.slot_spec()),
    ensures
        t1.slot_of(other.slot_spec()) == t0.slot_of(other.slot_spec()),
        forall|f: int| #[trigger] t1.file_data(f) == t0.file_data(f),
{
    assert(other.slot_spec() != stdio.slot_spec());
}

} // verus!
