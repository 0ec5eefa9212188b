//! Ownership of the resources an import creates or receives, so that a failed import gives
//! back everything exactly once: each file descriptor is either handed to the driver with a
//! memory import or closed by the engine, never both, and every memory allocation and the
//! image are released.
use vstd::prelude::*;

verus! {

/// Who is responsible for closing a plane's file descriptor.
#[derive(Clone, Copy, Debug, PartialEq, Eq, Structural)]
pub enum FdState {
    /// The engine holds it and must close it.
    Owned,
    /// A successful memory import handed it to the driver, which closes it with the memory.
    Transferred,
    /// The engine closed it.
    Closed,
}

/// One release step for the caller to perform.
#[derive(Clone, Copy, Debug, PartialEq, Eq, Structural)]
pub enum Cleanup {
    /// Free memory allocation `k`.
    FreeMemory(usize),
    /// Destroy the image.
    DestroyImage,
    /// Close the file descriptor of plane `i`.
    CloseFd(usize),
}

pub struct LedgerView {
    pub fds: Seq<FdState>,
    pub memories: Seq<bool>,
    pub image_live: bool,
}

/// The resources of one import in flight.
#[derive(Debug)]
pub struct ImportLedger {
    fds: Vec<FdState>,
    memories: Vec<bool>,
    image_live: bool,
}

impl View for ImportLedger {
    type V = LedgerView;

    closed spec fn view(&self) -> LedgerView {
        LedgerView { fds: self.fds@, memories: self.memories@, image_live: self.image_live }
    }
}

/// `CloseFd(i)` for each plane `i` whose descriptor the engine still owns, in plane order.
pub open spec fn closes(fds: Seq<FdState>) -> Seq<Cleanup>
    decreases fds.len(),
{
    if fds.len() == 0 {
        Seq::empty()
    } else {
        let r = closes(fds.drop_last());
        if fds.last() == FdState::Owned {
            r.push(Cleanup::CloseFd((fds.len() - 1) as usize))
        } else {
            r
        }
    }
}

/// `FreeMemory(k)` for each live allocation `k`, in allocation order.
pub open spec fn frees(memories: Seq<bool>) -> Seq<Cleanup>
    decreases memories.len(),
{
    if memories.len() == 0 {
        Seq::empty()
    } else {
        let r = frees(memories.drop_last());
        if memories.last() {
            r.push(Cleanup::FreeMemory((memories.len() - 1) as usize))
        } else {
            r
        }
    }
}

/// Everything that releasing the import performs: free the memory, destroy the image, close
/// the descriptors still owned.
pub open spec fn unwind_actions(v: LedgerView) -> Seq<Cleanup> {
    frees(v.memories) + (if v.image_live {
        seq![Cleanup::DestroyImage]
    } else {
        Seq::empty()
    }) + closes(v.fds)
}

/// The state after releasing: no live memory, no image, every owned descriptor closed.
pub open spec fn unwound(v: LedgerView) -> LedgerView {
    LedgerView {
        fds: v.fds.map_values(
            |s: FdState|
                if s == FdState::Owned {
                    FdState::Closed
                } else {
                    s
                },
        ),
        memories: Seq::new(v.memories.len(), |k: int| false),
        image_live: false,
    }
}

proof fn lemma_closes_shape(fds: Seq<FdState>)
    requires
        fds.len() <= usize::MAX,
    ensures
        forall|k: int|
            0 <= k < closes(fds).len() ==> {
                &&& #[trigger] closes(fds)[k] is CloseFd
                &&& 0 <= closes(fds)[k]->CloseFd_0 < fds.len()
                &&& fds[closes(fds)[k]->CloseFd_0 as int] == FdState::Owned
            },
        forall|a: int, b: int|
            0 <= a < b < closes(fds).len() ==> #[trigger] closes(fds)[a]->CloseFd_0
                < #[trigger] closes(fds)[b]->CloseFd_0,
        forall|i: int|
            0 <= i < fds.len() && fds[i] == FdState::Owned ==> #[trigger] closes(fds).contains(
                Cleanup::CloseFd(i as usize),
            ),
    decreases fds.len(),
{
    if fds.len() > 0 {
        let p = fds.drop_last();
        lemma_closes_shape(p);
        let r = closes(p);
        let c = closes(fds);
        assert forall|k: int| 0 <= k < c.len() implies {
            &&& #[trigger] c[k] is CloseFd
            &&& 0 <= c[k]->CloseFd_0 < fds.len()
            &&& fds[c[k]->CloseFd_0 as int] == FdState::Owned
        } by {
            if k < r.len() {
                assert(c[k] == r[k]);
                assert(p[r[k]->CloseFd_0 as int] == fds[r[k]->CloseFd_0 as int]);
            }
        }
        assert forall|a: int, b: int| 0 <= a < b < c.len() implies #[trigger] c[a]->CloseFd_0
            < #[trigger] c[b]->CloseFd_0 by {
            assert(c[a] == r[a]);
            if b < r.len() {
                assert(c[b] == r[b]);
            }
        }
        assert forall|i: int| 0 <= i < fds.len() && fds[i] == FdState::Owned implies #[trigger] closes(
            fds,
        ).contains(Cleanup::CloseFd(i as usize)) by {
            if i < fds.len() - 1 {
                assert(p[i] == fds[i]);
                assert(closes(p).contains(Cleanup::CloseFd(i as usize)));
                let k = choose|k: int| 0 <= k < r.len() && r[k] == Cleanup::CloseFd(i as usize);
                assert(closes(fds)[k] == r[k]);
            } else {
                assert(closes(fds)[r.len() as int] == Cleanup::CloseFd(i as usize));
            }
        }
    }
}

proof fn lemma_frees_shape(memories: Seq<bool>)
    requires
        memories.len() <= usize::MAX,
    ensures
        forall|k: int|
            0 <= k < frees(memories).len() ==> {
                &&& #[trigger] frees(memories)[k] is FreeMemory
                &&& 0 <= frees(memories)[k]->FreeMemory_0 < memories.len()
                &&& memories[frees(memories)[k]->FreeMemory_0 as int]
            },
        forall|a: int, b: int|
            0 <= a < b < frees(memories).len() ==> #[trigger] frees(memories)[a]->FreeMemory_0
                < #[trigger] frees(memories)[b]->FreeMemory_0,
        forall|k: int|
            0 <= k < memories.len() && memories[k] ==> #[trigger] frees(memories).contains(
                Cleanup::FreeMemory(k as usize),
            ),
    decreases memories.len(),
{
    if memories.len() > 0 {
        let p = memories.drop_last();
        lemma_frees_shape(p);
        let r = frees(p);
        let f = frees(memories);
        assert forall|k: int| 0 <= k < f.len() implies {
            &&& #[trigger] f[k] is FreeMemory
            &&& 0 <= f[k]->FreeMemory_0 < memories.len()
            &&& memories[f[k]->FreeMemory_0 as int]
        } by {
            if k < r.len() {
                assert(f[k] == r[k]);
                assert(p[r[k]->FreeMemory_0 as int] == memories[r[k]->FreeMemory_0 as int]);
            }
        }
        assert forall|a: int, b: int| 0 <= a < b < f.len() implies #[trigger] f[a]->FreeMemory_0
            < #[trigger] f[b]->FreeMemory_0 by {
            assert(f[a] == r[a]);
            if b < r.len() {
                assert(f[b] == r[b]);
            }
        }
        assert forall|k: int| 0 <= k < memories.len() && memories[k] implies #[trigger] frees(
            memories,
        ).contains(Cleanup::FreeMemory(k as usize)) by {
            if k < memories.len() - 1 {
                assert(p[k] == memories[k]);
                assert(frees(p).contains(Cleanup::FreeMemory(k as usize)));
                let j = choose|j: int| 0 <= j < r.len() && r[j] == Cleanup::FreeMemory(k as usize);
                assert(frees(memories)[j] == r[j]);
            } else {
                assert(frees(memories)[r.len() as int] == Cleanup::FreeMemory(k as usize));
            }
        }
    }
}

/// Releasing an import closes exactly the descriptors the engine still owns, frees exactly
/// the live allocations, destroys the image if it exists, and does no step twice. A
/// descriptor that a memory import took over is never closed by the engine.
pub proof fn lemma_unwind_releases_each_once(v: LedgerView)
    requires
        v.fds.len() <= usize::MAX,
        v.memories.len() <= usize::MAX,
    ensures
        forall|i: int|
            0 <= i < v.fds.len() ==> (unwind_actions(v).contains(Cleanup::CloseFd(i as usize))
                <==> v.fds[i] == FdState::Owned),
        forall|k: int|
            0 <= k < v.memories.len() ==> (unwind_actions(v).contains(
                Cleanup::FreeMemory(k as usize),
            ) <==> v.memories[k]),
        unwind_actions(v).contains(Cleanup::DestroyImage) <==> v.image_live,
        unwind_actions(v).no_duplicates(),
{
    lemma_closes_shape(v.fds);
    lemma_frees_shape(v.memories);
    let f = frees(v.memories);
    let m: Seq<Cleanup> = if v.image_live {
        seq![Cleanup::DestroyImage]
    } else {
        Seq::empty()
    };
    let c = closes(v.fds);
    let u = unwind_actions(v);
    assert(u == f + m + c);
    assert forall|a: int| 0 <= a < u.len() implies (a < f.len() ==> u[a] == f[a]) && (f.len() <= a
        < f.len() + m.len() ==> u[a] == m[a - f.len()]) && (f.len() + m.len() <= a ==> u[a]
        == c[a - f.len() - m.len()]) by {}
    assert forall|i: int| 0 <= i < v.fds.len() implies (u.contains(Cleanup::CloseFd(i as usize))
        <==> v.fds[i] == FdState::Owned) by {
        if u.contains(Cleanup::CloseFd(i as usize)) {
            let a = choose|a: int| 0 <= a < u.len() && u[a] == Cleanup::CloseFd(i as usize);
            let b = a - f.len() - m.len();
            assert(c[b] is CloseFd);
        }
        if v.fds[i] == FdState::Owned {
            assert(c.contains(Cleanup::CloseFd(i as usize)));
            let b = choose|b: int| 0 <= b < c.len() && c[b] == Cleanup::CloseFd(i as usize);
            assert(u[b + f.len() + m.len()] == c[b]);
        }
    }
    assert forall|k: int| 0 <= k < v.memories.len() implies (u.contains(
        Cleanup::FreeMemory(k as usize),
    ) <==> v.memories[k]) by {
        if u.contains(Cleanup::FreeMemory(k as usize)) {
            let a = choose|a: int| 0 <= a < u.len() && u[a] == Cleanup::FreeMemory(k as usize);
            if a >= f.len() + m.len() {
                assert(c[a - f.len() - m.len()] is CloseFd);
            }
            assert(f[a] is FreeMemory);
        }
        if v.memories[k] {
            assert(f.contains(Cleanup::FreeMemory(k as usize)));
            let b = choose|b: int| 0 <= b < f.len() && f[b] == Cleanup::FreeMemory(k as usize);
            assert(u[b] == f[b]);
        }
    }
    if u.contains(Cleanup::DestroyImage) {
        let a = choose|a: int| 0 <= a < u.len() && u[a] == Cleanup::DestroyImage;
        if a < f.len() {
            assert(f[a] is FreeMemory);
        } else if a >= f.len() + m.len() {
            assert(c[a - f.len() - m.len()] is CloseFd);
        }
    }
    if v.image_live {
        assert(u[f.len() as int] == Cleanup::DestroyImage);
    }
    assert forall|a: int, b: int| 0 <= a < u.len() && 0 <= b < u.len() && a != b implies u[a]
        != u[b] by {
        if a < f.len() && b < f.len() {
            if a < b {
                assert(f[a]->FreeMemory_0 < f[b]->FreeMemory_0);
            } else {
                assert(f[b]->FreeMemory_0 < f[a]->FreeMemory_0);
            }
        } else if a >= f.len() + m.len() && b >= f.len() + m.len() {
            let a2 = a - f.len() - m.len();
            let b2 = b - f.len() - m.len();
            if a2 < b2 {
                assert(c[a2]->CloseFd_0 < c[b2]->CloseFd_0);
            } else {
                assert(c[b2]->CloseFd_0 < c[a2]->CloseFd_0);
            }
        } else {
            if a < f.len() {
                assert(f[a] is FreeMemory);
            }
            if b < f.len() {
                assert(f[b] is FreeMemory);
            }
            if a >= f.len() + m.len() {
                assert(c[a - f.len() - m.len()] is CloseFd);
            }
            if b >= f.len() + m.len() {
                assert(c[b - f.len() - m.len()] is CloseFd);
            }
        }
    }
}

impl ImportLedger {
    /// A ledger for an import of `fd_count` planes and `allocation_count` memory allocations:
    /// every descriptor owned, nothing created yet.
    pub fn new(fd_count: usize, allocation_count: usize) -> (r: Self)
        ensures
            r@.fds == Seq::new(fd_count as nat, |i: int| FdState::Owned),
            r@.memories == Seq::new(allocation_count as nat, |k: int| false),
            !r@.image_live,
    {
        let mut fds: Vec<FdState> = Vec::new();
        let mut i: usize = 0;
        while i < fd_count
            invariant
                i <= fd_count,
                fds@ == Seq::new(i as nat, |j: int| FdState::Owned),
            decreases fd_count - i,
        {
            fds.push(FdState::Owned);
            i += 1;
            assert(fds@ =~= Seq::new(i as nat, |j: int| FdState::Owned));
        }
        let mut memories: Vec<bool> = Vec::new();
        let mut k: usize = 0;
        while k < allocation_count
            invariant
                k <= allocation_count,
                memories@ == Seq::new(k as nat, |j: int| false),
            decreases allocation_count - k,
        {
            memories.push(false);
            k += 1;
            assert(memories@ =~= Seq::new(k as nat, |j: int| false));
        }
        ImportLedger { fds, memories, image_live: false }
    }

    /// Records that the image was created.
    pub fn image_created(&mut self)
        ensures
            final(self)@.fds == old(self)@.fds,
            final(self)@.memories == old(self)@.memories,
            final(self)@.image_live,
    {
        self.image_live = true;
    }

    /// Records that allocation `alloc` imported the descriptor of plane `fd`: the driver now
    /// owns that descriptor.
    pub fn memory_imported(&mut self, alloc: usize, fd: usize)
        requires
            alloc < old(self)@.memories.len(),
            !old(self)@.memories[alloc as int],
            fd < old(self)@.fds.len(),
            old(self)@.fds[fd as int] == FdState::Owned,
        ensures
            final(self)@.fds == old(self)@.fds.update(fd as int, FdState::Transferred),
            final(self)@.memories == old(self)@.memories.update(alloc as int, true),
            final(self)@.image_live == old(self)@.image_live,
    {
        self.fds.set(fd, FdState::Transferred);
        self.memories.set(alloc, true);
    }

    /// Releases everything: returns the steps to perform, which [`lemma_unwind_releases_each_once`]
    /// describes, and records them as done.
    pub fn unwind(&mut self) -> (r: Vec<Cleanup>)
        ensures
            r@ == unwind_actions(old(self)@),
            final(self)@ == unwound(old(self)@),
    {
        let mut out: Vec<Cleanup> = Vec::new();
        let ghost mems = self.memories@;
        let mut k: usize = 0;
        while k < self.memories.len()
            invariant
                k <= self.memories@.len(),
                self.memories@.len() == mems.len(),
                forall|j: int| k <= j < mems.len() ==> self.memories@[j] == mems[j],
                forall|j: int| 0 <= j < k ==> !self.memories@[j],
                out@ == frees(mems.subrange(0, k as int)),
                self.fds@ == old(self)@.fds,
                self.image_live == old(self)@.image_live,
                mems == old(self)@.memories,
            decreases mems.len() - k,
        {
            assert(mems.subrange(0, k + 1).drop_last() =~= mems.subrange(0, k as int));
            if self.memories[k] {
                out.push(Cleanup::FreeMemory(k));
                self.memories.set(k, false);
            }
            k += 1;
        }
        assert(mems.subrange(0, mems.len() as int) =~= mems);
        assert(self.memories@ =~= Seq::new(mems.len(), |j: int| false));
        let ghost before_image = out@;
        if self.image_live {
            out.push(Cleanup::DestroyImage);
            self.image_live = false;
        }
        let ghost fds = self.fds@;
        let ghost middle = out@.subrange(before_image.len() as int, out@.len() as int);
        assert(middle =~= if old(self)@.image_live {
            seq![Cleanup::DestroyImage]
        } else {
            Seq::<Cleanup>::empty()
        });
        let mut i: usize = 0;
        while i < self.fds.len()
            invariant
                i <= self.fds@.len(),
                self.fds@.len() == fds.len(),
                fds == old(self)@.fds,
                forall|j: int| i <= j < fds.len() ==> self.fds@[j] == fds[j],
                forall|j: int|
                    0 <= j < i ==> self.fds@[j] == (if fds[j] == FdState::Owned {
                        FdState::Closed
                    } else {
                        fds[j]
                    }),
                out@ == before_image + middle + closes(fds.subrange(0, i as int)),
                before_image == frees(mems),
                mems == old(self)@.memories,
                self.memories@ =~= Seq::new(mems.len(), |j: int| false),
                !self.image_live,
            decreases fds.len() - i,
        {
            assert(fds.subrange(0, i + 1).drop_last() =~= fds.subrange(0, i as int));
            if self.fds[i] == FdState::Owned {
                out.push(Cleanup::CloseFd(i));
                self.fds.set(i, FdState::Closed);
            }
            i += 1;
        }
        assert(fds.subrange(0, fds.len() as int) =~= fds);
        assert(self.fds@ =~= unwound(old(self)@).fds);
        out
    }

    /// Ends a successful import: closes the descriptors that no memory import took over. The
    /// memory and the image stay alive for the texture, which releases them with [`Self::unwind`].
    pub fn finish(&mut self) -> (r: Vec<Cleanup>)
        ensures
            r@ == closes(old(self)@.fds),
            final(self)@.fds == unwound(old(self)@).fds,
            final(self)@.memories == old(self)@.memories,
            final(self)@.image_live == old(self)@.image_live,
    {
        let mut out: Vec<Cleanup> = Vec::new();
        let ghost fds = self.fds@;
        let mut i: usize = 0;
        while i < self.fds.len()
            invariant
                i <= self.fds@.len(),
                self.fds@.len() == fds.len(),
                fds == old(self)@.fds,
                forall|j: int| i <= j < fds.len() ==> self.fds@[j] == fds[j],
                forall|j: int|
                    0 <= j < i ==> self.fds@[j] == (if fds[j] == FdState::Owned {
                        FdState::Closed
                    } else {
                        fds[j]
                    }),
                out@ == closes(fds.subrange(0, i as int)),
                self.memories@ == old(self)@.memories,
                self.image_live == old(self)@.image_live,
            decreases fds.len() - i,
        {
            assert(fds.subrange(0, i + 1).drop_last() =~= fds.subrange(0, i as int));
            if self.fds[i] == FdState::Owned {
                out.push(Cleanup::CloseFd(i));
                self.fds.set(i, FdState::Closed);
            }
            i += 1;
        }
        assert(fds.subrange(0, fds.len() as int) =~= fds);
        assert(self.fds@ =~= unwound(old(self)@).fds);
        out
    }
}

} // verus!
