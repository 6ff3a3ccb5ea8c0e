//! A model of the process-wide descriptor table.
//!
//! The three standard streams are descriptor slots 0, 1 and 2 of this table.
//! Each open slot refers to an open file description, which stores the bytes
//! written through any descriptor that refers to it — except a discard
//! description, which accepts writes and keeps nothing.  The operations mirror
//! the duplication and installation primitives that stream redirection is
//! built from: duplicating a descriptor, installing a descriptor into a
//! standard slot, closing, writing and reading.
use vstd::prelude::*;
use vstd::pervasive::VecAdditionalExecFns;

use crate::Stdio;

verus! {

/// The error code reported when an operation names a descriptor that is not open.
pub const BAD_DESCRIPTOR: i32 = 9;

/// What an open file description does with bytes written to it.
#[derive(Clone, Copy, Debug, PartialEq, Eq)]
pub enum FileKind {
    /// Stores every byte written, in order.
    Regular,
    /// Accepts every write and keeps nothing (a discard device).
    Null,
}

/// An open file description: the object a descriptor refers to.
#[derive(Debug)]
pub struct OpenFile {
    /// Whether writes are stored or discarded.
    pub kind: FileKind,
    /// The bytes stored so far; always empty for a discard description.
    pub data: Vec<u8>,
}

/// The descriptor table: maps descriptor numbers to open file descriptions.
#[derive(Debug)]
pub struct FdTable {
    files: Vec<OpenFile>,
    slots: Vec<Option<usize>>,
}

impl FdTable {
    /// The file description that descriptor `fd` refers to, if `fd` is open.
    pub closed spec fn slot_of(self, fd: int) -> Option<int> {
        if 0 <= fd < self.slots@.len() {
            match self.slots@[fd] {
                Some(f) => Some(f as int),
                None => None,
            }
        } else {
            None
        }
    }

    /// Whether descriptor `fd` is open.
    pub open spec fn is_open(self, fd: int) -> bool {
        self.slot_of(fd) is Some
    }

    /// How many file descriptions have been opened so far.
    pub closed spec fn file_count(self) -> int {
        self.files@.len() as int
    }

    /// The bytes stored in file description `f`.
    pub closed spec fn file_data(self, f: int) -> Seq<u8> {
        if 0 <= f < self.files@.len() {
            self.files@[f].data@
        } else {
            Seq::empty()
        }
    }

    /// The kind of file description `f`.
    pub closed spec fn file_kind(self, f: int) -> Option<FileKind> {
        if 0 <= f < self.files@.len() {
            Some(self.files@[f].kind)
        } else {
            None
        }
    }

    /// Well-formedness: slots refer to existing descriptions, the three
    /// standard slots exist, and a discard description stores nothing.
    pub closed spec fn wf(self) -> bool {
        &&& self.slots@.len() >= 3
        &&& forall|i: int|
            0 <= i < self.slots@.len() && self.slots@[i] is Some
                ==> (#[trigger] self.slots@[i])->0 < self.files@.len()
        &&& forall|f: int|
            0 <= f < self.files@.len() && (#[trigger] self.files@[f]).kind is Null
                ==> self.files@[f].data@.len() == 0
    }
}

/// The two tables hold the same file descriptions with the same contents.
pub open spec fn same_files(a: FdTable, b: FdTable) -> bool {
    &&& b.file_count() == a.file_count()
    &&& forall|f: int| #[trigger] b.file_data(f) == a.file_data(f)
    &&& forall|f: int| #[trigger] b.file_kind(f) == a.file_kind(f)
}

/// Every descriptor refers to the same description in both tables.
pub open spec fn same_slots(a: FdTable, b: FdTable) -> bool {
    forall|fd: int| #[trigger] b.slot_of(fd) == a.slot_of(fd)
}

/// Every descriptor but `x` refers to the same description in both tables.
pub open spec fn same_slots_except(a: FdTable, b: FdTable, x: int) -> bool {
    forall|fd: int| fd != x ==> #[trigger] b.slot_of(fd) == a.slot_of(fd)
}

/// Every descriptor but `x` and `y` refers to the same description in both tables.
pub open spec fn same_slots_except2(a: FdTable, b: FdTable, x: int, y: int) -> bool {
    forall|fd: int| fd != x && fd != y ==> #[trigger] b.slot_of(fd) == a.slot_of(fd)
}

/// Nothing observable changed between the two tables.
pub open spec fn same_state(a: FdTable, b: FdTable) -> bool {
    same_slots(a, b) && same_files(a, b)
}

/// How a write of `bytes` through descriptor `fd` relates the table before
/// (`pre`) to the table after (`post`) and its result: it succeeds exactly
/// when `fd` is open, appends to a regular description, leaves a discard
/// description empty whatever the volume written, and touches nothing else.
pub open spec fn write_effect(
    pre: FdTable,
    post: FdTable,
    fd: int,
    bytes: Seq<u8>,
    r: Result<(), i32>,
) -> bool {
    &&& same_slots(pre, post)
    &&& post.file_count() == pre.file_count()
    &&& forall|f: int| #[trigger] post.file_kind(f) == pre.file_kind(f)
    &&& (r is Ok <==> pre.is_open(fd))
    &&& match r {
        Ok(u) => {
            let f = pre.slot_of(fd)->0;
            &&& if pre.file_kind(f) == Some(FileKind::Null) {
                post.file_data(f) == Seq::<u8>::empty()
            } else {
                post.file_data(f) == pre.file_data(f) + bytes
            }
            &&& forall|g: int| g != f ==> #[trigger] post.file_data(g) == pre.file_data(g)
        },
        Err(code) => code == BAD_DESCRIPTOR && same_files(pre, post),
    }
}

/// Tables with equal slot vectors agree on every descriptor.
proof fn lemma_same_slots_from_eq(a: FdTable, b: FdTable)
    requires
        a.slots@ == b.slots@,
    ensures
        same_slots(a, b),
{
    assert forall|fd: int| #[trigger] b.slot_of(fd) == a.slot_of(fd) by {}
}

impl FdTable {
    /// A fresh table: the three standard streams, each backed by its own
    /// empty regular description, and no other descriptor open.
    pub fn new() -> (t: FdTable)
        ensures
            t.wf(),
            t.file_count() == 3,
            t.slot_of(0) == Some(0int),
            t.slot_of(1) == Some(1int),
            t.slot_of(2) == Some(2int),
            forall|fd: int| fd != 0 && fd != 1 && fd != 2 ==> !(#[trigger] t.is_open(fd)),
            forall|f: int| #[trigger] t.file_data(f) == Seq::<u8>::empty(),
            forall|f: int| 0 <= f < 3 ==> #[trigger] t.file_kind(f) == Some(FileKind::Regular),
    {
        let mut files: Vec<OpenFile> = Vec::new();
        files.push(OpenFile { kind: FileKind::Regular, data: Vec::new() });
        files.push(OpenFile { kind: FileKind::Regular, data: Vec::new() });
        files.push(OpenFile { kind: FileKind::Regular, data: Vec::new() });
        let mut slots: Vec<Option<usize>> = Vec::new();
        slots.push(Some(0));
        slots.push(Some(1));
        slots.push(Some(2));
        FdTable { files, slots }
    }

    /// Whether descriptor `fd` is open.
    pub fn is_open_fd(&self, fd: usize) -> (r: bool)
        ensures
            r == self.is_open(fd as int),
    {
        self.lookup(fd).is_some()
    }

    /// The description `fd` refers to, or `None` when `fd` is not open.
    fn lookup(&self, fd: usize) -> (r: Option<usize>)
        ensures
            match r {
                Some(f) => self.slot_of(fd as int) == Some(f as int),
                None => !self.is_open(fd as int),
            },
    {
        if fd < self.slots.len() {
            self.slots[fd]
        } else {
            None
        }
    }

    /// Allocates the lowest free descriptor and points it at description `f`.
    fn alloc_slot(&mut self, f: usize) -> (fd: usize)
        requires
            old(self).wf(),
            f < old(self).file_count(),
        ensures
            final(self).wf(),
            !old(self).is_open(fd as int),
            forall|j: int| 0 <= j < fd as int ==> old(self).is_open(j),
            final(self).slot_of(fd as int) == Some(f as int),
            same_slots_except(*old(self), *final(self), fd as int),
            same_files(*old(self), *final(self)),
    {
        let n: usize = self.slots.len();
        let mut i: usize = 0;
        while i < n
            invariant
                i <= n,
                n == self.slots@.len(),
                *self == *old(self),
                f < self.files@.len(),
                self.wf(),
                forall|j: int| 0 <= j < i as int ==> old(self).is_open(j),
            decreases n - i,
        {
            if self.slots[i].is_none() {
                self.slots.set(i, Some(f));
                return i;
            }
            i += 1;
        }
        self.slots.push(Some(f));
        n
    }

    /// Opens a fresh file description of the given kind, empty, on the lowest
    /// free descriptor.
    pub fn open_file(&mut self, kind: FileKind) -> (fd: usize)
        requires
            old(self).wf(),
        ensures
            final(self).wf(),
            !old(self).is_open(fd as int),
            forall|j: int| 0 <= j < fd as int ==> old(self).is_open(j),
            final(self).slot_of(fd as int) == Some(old(self).file_count()),
            final(self).file_count() == old(self).file_count() + 1,
            final(self).file_kind(old(self).file_count()) == Some(kind),
            final(self).file_data(old(self).file_count()) == Seq::<u8>::empty(),
            same_slots_except(*old(self), *final(self), fd as int),
            forall|f: int| f != old(self).file_count()
                ==> #[trigger] final(self).file_data(f) == old(self).file_data(f),
            forall|f: int| f != old(self).file_count()
                ==> #[trigger] final(self).file_kind(f) == old(self).file_kind(f),
    {
        let f: usize = self.files.len();
        self.files.push(OpenFile { kind, data: Vec::new() });
        let ghost mid = *self;
        let fd = self.alloc_slot(f);
        proof {
            lemma_same_slots_from_eq(*old(self), mid);
            assert forall|j: int| 0 <= j < fd as int implies old(self).is_open(j) by {
                assert(mid.is_open(j));
            }
        }
        fd
    }

    /// Duplicates descriptor `fd`: the lowest free descriptor comes to refer
    /// to the same description.  Fails when `fd` is not open.
    pub fn dup(&mut self, fd: usize) -> (r: Result<usize, i32>)
        requires
            old(self).wf(),
        ensures
            final(self).wf(),
            r is Ok <==> old(self).is_open(fd as int),
            match r {
                Ok(nfd) => {
                    &&& !old(self).is_open(nfd as int)
                    &&& forall|j: int| 0 <= j < nfd as int ==> old(self).is_open(j)
                    &&& final(self).slot_of(nfd as int) == old(self).slot_of(fd as int)
                    &&& same_slots_except(*old(self), *final(self), nfd as int)
                    &&& same_files(*old(self), *final(self))
                },
                Err(code) => code == BAD_DESCRIPTOR && *final(self) == *old(self),
            },
    {
        let f = match self.lookup(fd) {
            Some(f) => f,
            None => {
                return Err(BAD_DESCRIPTOR);
            },
        };
        Ok(self.alloc_slot(f))
    }

    /// Installs descriptor `fd` into the slot of the given standard stream,
    /// transferring ownership of `fd` to the slot: afterwards the slot refers
    /// to `fd`'s description and `fd` itself is no longer open (unless `fd`
    /// already was that slot).  Fails when `fd` is not open; the table is then
    /// unchanged.
    pub fn install(&mut self, fd: usize, stdio: Stdio) -> (r: Result<(), i32>)
        requires
            old(self).wf(),
        ensures
            final(self).wf(),
            r is Ok <==> old(self).is_open(fd as int),
            same_files(*old(self), *final(self)),
            match r {
                Ok(u) => {
                    let s = stdio.slot_spec();
                    if fd as int == s {
                        same_slots(*old(self), *final(self))
                    } else {
                        &&& final(self).slot_of(s) == old(self).slot_of(fd as int)
                        &&& !final(self).is_open(fd as int)
                        &&& same_slots_except2(*old(self), *final(self), s, fd as int)
                    }
                },
                Err(code) => code == BAD_DESCRIPTOR && same_slots(*old(self), *final(self)),
            },
    {
        let f = match self.lookup(fd) {
            Some(f) => f,
            None => {
                return Err(BAD_DESCRIPTOR);
            },
        };
        let s: usize = stdio.as_raw_fd();
        if fd == s {
            return Ok(());
        }
        self.slots.set(s, Some(f));
        self.slots.set(fd, None);
        Ok(())
    }

    /// Closes descriptor `fd`.  Fails when `fd` is not open.
    pub fn close(&mut self, fd: usize) -> (r: Result<(), i32>)
        requires
            old(self).wf(),
        ensures
            final(self).wf(),
            r is Ok <==> old(self).is_open(fd as int),
            !final(self).is_open(fd as int),
            same_slots_except(*old(self), *final(self), fd as int),
            same_files(*old(self), *final(self)),
            r is Err ==> *final(self) == *old(self),
            r is Err ==> r == Err::<(), i32>(BAD_DESCRIPTOR),
    {
        if self.lookup(fd).is_none() {
            return Err(BAD_DESCRIPTOR);
        }
        self.slots.set(fd, None);
        Ok(())
    }

    /// The descriptor currently backing the given standard stream: its slot
    /// number, provided the slot is open.  Fails when the stream is unset.
    pub fn raw_id_of(&self, stdio: Stdio) -> (r: Result<usize, i32>)
        ensures
            r is Ok <==> self.is_open(stdio.slot_spec()),
            match r {
                Ok(fd) => fd as int == stdio.slot_spec(),
                Err(code) => code == BAD_DESCRIPTOR,
            },
    {
        let s: usize = stdio.as_raw_fd();
        match self.lookup(s) {
            Some(_) => Ok(s),
            None => Err(BAD_DESCRIPTOR),
        }
    }

    /// Writes `bytes` through descriptor `fd`.  A regular description appends
    /// them to its stored data; a discard description accepts them and keeps
    /// nothing, whatever the volume.  Fails when `fd` is not open.
    pub fn write(&mut self, fd: usize, bytes: &[u8]) -> (r: Result<(), i32>)
        requires
            old(self).wf(),
        ensures
            final(self).wf(),
            write_effect(*old(self), *final(self), fd as int, bytes@, r),
            r is Err ==> *final(self) == *old(self),
    {
        let f = match self.lookup(fd) {
            Some(f) => f,
            None => {
                return Err(BAD_DESCRIPTOR);
            },
        };
        match self.files[f].kind {
            FileKind::Null => {
                proof {
                    assert(self.files@[f as int].data@.len() == 0);
                    assert(self.files@[f as int].data@ =~= Seq::<u8>::empty());
                }
                Ok(())
            },
            FileKind::Regular => {
                let n: usize = bytes.len();
                proof {
                    assert(self.files@[f as int].data@
                        =~= self.files@[f as int].data@ + bytes@.subrange(0, 0));
                }
                let mut j: usize = 0;
                while j < n
                    invariant
                        j <= n,
                        n == bytes@.len(),
                        f < self.files@.len(),
                        self.files@.len() == old(self).files@.len(),
                        self.slots@ == old(self).slots@,
                        self.files@[f as int].kind == old(self).files@[f as int].kind,
                        self.files@[f as int].data@
                            == old(self).files@[f as int].data@ + bytes@.subrange(0, j as int),
                        forall|i: int|
                            0 <= i < self.files@.len() && i != f as int
                                ==> self.files@[i] == old(self).files@[i],
                        old(self).wf(),
                    decreases n - j,
                {
                    let b: u8 = bytes[j];
                    self.files[f].data.push(b);
                    j += 1;
                }
                proof {
                    assert(bytes@.subrange(0, n as int) =~= bytes@);
                    lemma_same_slots_from_eq(*old(self), *self);
                    assert forall|g: int| #[trigger] self.file_kind(g) == old(self).file_kind(
                        g,
                    ) by {}
                    assert forall|g: int| g != f as int implies #[trigger] self.file_data(g)
                        == old(self).file_data(g) by {}
                }
                Ok(())
            },
        }
    }

    /// Reads the whole stored content of the description behind `fd`.
    /// Fails when `fd` is not open.
    pub fn read_all(&self, fd: usize) -> (r: Result<Vec<u8>, i32>)
        ensures
            r is Ok <==> self.is_open(fd as int),
            match r {
                Ok(v) => v@ == self.file_data(self.slot_of(fd as int)->0),
                Err(code) => code == BAD_DESCRIPTOR,
            },
    {
        let f = match self.lookup(fd) {
            Some(f) => f,
            None => {
                return Err(BAD_DESCRIPTOR);
            },
        };
        let mut out: Vec<u8> = Vec::new();
        if f >= self.files.len() {
            return Ok(out);
        }
        let n: usize = self.files[f].data.len();
        proof {
            assert(Seq::<u8>::empty() =~= self.files@[f as int].data@.subrange(0, 0));
        }
        let mut j: usize = 0;
        while j < n
            invariant
                j <= n,
                f < self.files@.len(),
                n == self.files@[f as int].data@.len(),
                out@ == self.files@[f as int].data@.subrange(0, j as int),
            decreases n - j,
        {
            out.push(self.files[f].data[j]);
            j += 1;
        }
        proof {
            assert(self.files@[f as int].data@.subrange(0, n as int) =~= self.files@[f as int].data@);
        }
        Ok(out)
    }
}

} // verus!
