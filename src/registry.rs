//! The imported-texture registry: texture handles mapped to import state. Submissions wait
//! as `UnImported` until the render thread drains them, imports them and puts the results
//! back as `Imported`.
use crate::dmatex::Dmatex;
use crate::import::{placeholder_descriptor, placeholder_of, DmatexUsage, TextureDescription};
use vstd::prelude::*;

verus! {

/// A single-shot release notification for the producer of a buffer: whoever takes the
/// callback out is the only one who can run it.
pub struct DropCallback<F>(pub Option<F>);

impl<F> DropCallback<F> {
    /// Takes the callback out, leaving none behind, so that a second take finds nothing.
    pub fn take(&mut self) -> (r: Option<F>)
        ensures
            r == old(self).0,
            final(self).0 is None,
    {
        self.0.take()
    }
}

/// Import state of one texture handle.
pub enum DmaImage<C, T> {
    UnImported(Dmatex, DropCallback<C>, DmatexUsage),
    Imported(T),
}

/// A submission handed out for import.
pub struct PendingImport<C> {
    pub id: u64,
    pub buf: Dmatex,
    pub on_drop: DropCallback<C>,
    pub usage: DmatexUsage,
}

/// What a drain hands out.
pub struct Drained<C> {
    /// The submissions of live handles, to import now.
    pub to_import: Vec<PendingImport<C>>,
    /// The submissions of handles that are gone: release their descriptors and callbacks.
    pub discarded: Vec<PendingImport<C>>,
}

/// The entry that putting a new state under `id` replaces.
pub open spec fn replaced<C, T>(m: Map<u64, DmaImage<C, T>>, id: u64) -> Option<DmaImage<C, T>> {
    if m.contains_key(id) {
        Some(m[id])
    } else {
        None
    }
}

/// Texture handles (by id) and their import state.
pub struct ImportedDmatexs<C, T> {
    entries: Vec<(u64, DmaImage<C, T>)>,
}

pub open spec fn keys_unique<C, T>(s: Seq<(u64, DmaImage<C, T>)>) -> bool {
    forall|i: int, j: int| 0 <= i < j < s.len() ==> #[trigger] s[i].0 != #[trigger] s[j].0
}

pub open spec fn entries_map<C, T>(s: Seq<(u64, DmaImage<C, T>)>) -> Map<u64, DmaImage<C, T>> {
    Map::new(
        |k: u64| exists|i: int| 0 <= i < s.len() && #[trigger] s[i].0 == k,
        |k: u64| s[choose|i: int| 0 <= i < s.len() && #[trigger] s[i].0 == k].1,
    )
}

proof fn lemma_entries_map_at<C, T>(s: Seq<(u64, DmaImage<C, T>)>, i: int)
    requires
        keys_unique(s),
        0 <= i < s.len(),
    ensures
        entries_map(s).contains_key(s[i].0),
        entries_map(s)[s[i].0] == s[i].1,
{
    let k = s[i].0;
    assert(exists|j: int| 0 <= j < s.len() && #[trigger] s[j].0 == k);
    let j = choose|j: int| 0 <= j < s.len() && #[trigger] s[j].0 == k;
    if j != i {
        if j < i {
            assert(s[j].0 != s[i].0);
        } else {
            assert(s[i].0 != s[j].0);
        }
    }
}

/// The handles whose submission waits for import and is still alive.
pub open spec fn is_pending<C, T>(m: Map<u64, DmaImage<C, T>>, alive: Set<u64>, k: u64) -> bool {
    m.contains_key(k) && alive.contains(k) && m[k] is UnImported
}

/// What a drain keeps: the imported entries of handles still alive.
pub open spec fn retained<C, T>(m: Map<u64, DmaImage<C, T>>, alive: Set<u64>) -> Map<
    u64,
    DmaImage<C, T>,
> {
    Map::new(|k: u64| m.contains_key(k) && alive.contains(k) && m[k] is Imported, |k: u64| m[k])
}

/// Draining hands every pending submission out at once, so a second drain, whatever was
/// imported in between and whichever handles are alive then, hands out nothing.
pub proof fn lemma_drain_idempotent<C, T>(
    m: Map<u64, DmaImage<C, T>>,
    alive1: Set<u64>,
    later: Map<u64, DmaImage<C, T>>,
    alive2: Set<u64>,
)
    requires
        forall|k: u64|
            #[trigger] later.contains_key(k) ==> later[k] is Imported || (retained(
                m,
                alive1,
            ).contains_key(k) && later[k] == retained(m, alive1)[k]),
    ensures
        forall|k: u64| !#[trigger] is_pending(later, alive2, k),
        forall|k: u64| !#[trigger] is_pending(retained(m, alive1), alive2, k),
{
}

/// `r` holds each pending submission of `m` (under `alive`) once, and nothing else.
pub open spec fn handed_out<C, T>(
    m: Map<u64, DmaImage<C, T>>,
    alive: Set<u64>,
    r: Seq<PendingImport<C>>,
) -> bool {
    &&& forall|j: int|
        0 <= j < r.len() ==> {
            &&& is_pending(m, alive, #[trigger] r[j].id)
            &&& m[r[j].id] == DmaImage::<C, T>::UnImported(r[j].buf, r[j].on_drop, r[j].usage)
        }
    &&& forall|k: u64| is_pending(m, alive, k) ==> exists|j: int| 0 <= j < r.len() && #[trigger] r[j].id == k
    &&& forall|a: int, b: int| 0 <= a < b < r.len() ==> #[trigger] r[a].id != #[trigger] r[b].id
}

fn contains_id(v: &Vec<u64>, id: u64) -> (r: bool)
    ensures
        r == v@.to_set().contains(id),
{
    let mut q: usize = 0;
    while q < v.len()
        invariant
            q <= v@.len(),
            forall|x: int| 0 <= x < q ==> v@[x] != id,
        decreases v@.len() - q,
    {
        if v[q] == id {
            assert(v@.to_set().contains(v@[q as int]));
            return true;
        }
        q += 1;
    }
    assert(!v@.contains(id));
    false
}

proof fn lemma_entries_map_push<C, T>(s: Seq<(u64, DmaImage<C, T>)>, k: u64, v: DmaImage<C, T>)
    requires
        keys_unique(s),
        !entries_map(s).contains_key(k),
    ensures
        keys_unique(s.push((k, v))),
        entries_map(s.push((k, v))) == entries_map(s).insert(k, v),
{
    let t = s.push((k, v));
    assert forall|a: int, b: int| 0 <= a < b < t.len() implies #[trigger] t[a].0
        != #[trigger] t[b].0 by {
        assert(s[a].0 == t[a].0);
        if b == s.len() {
            assert(entries_map(s).contains_key(s[a].0));
        } else {
            assert(s[b].0 == t[b].0);
        }
    }
    assert forall|x: u64| #[trigger] entries_map(t).contains_key(x) == entries_map(s).insert(
        k,
        v,
    ).contains_key(x) by {
        if exists|j: int| 0 <= j < s.len() && #[trigger] s[j].0 == x {
            let j = choose|j: int| 0 <= j < s.len() && #[trigger] s[j].0 == x;
            assert(t[j].0 == x);
        }
        if x == k {
            assert(t[s.len() as int].0 == x);
        }
        if exists|j: int| 0 <= j < t.len() && #[trigger] t[j].0 == x {
            let j = choose|j: int| 0 <= j < t.len() && #[trigger] t[j].0 == x;
            if j < s.len() {
                assert(s[j].0 == x);
            }
        }
    }
    assert forall|x: u64| #[trigger]
        entries_map(t).contains_key(x) implies entries_map(t)[x] == entries_map(s).insert(k, v)[x] by {
        let j = choose|j: int| 0 <= j < t.len() && #[trigger] t[j].0 == x;
        lemma_entries_map_at(t, j);
        if j < s.len() {
            assert(s[j] == t[j]);
            lemma_entries_map_at(s, j);
        }
    }
    assert(entries_map(t) =~= entries_map(s).insert(k, v));
}

/// The entries a drain keeps, in their order.
spec fn kept_seq<C, T>(s: Seq<(u64, DmaImage<C, T>)>, live: Set<u64>) -> Seq<(u64, DmaImage<C, T>)>
    decreases s.len(),
{
    if s.len() == 0 {
        Seq::empty()
    } else {
        let r = kept_seq(s.drop_last(), live);
        if live.contains(s.last().0) && s.last().1 is Imported {
            r.push(s.last())
        } else {
            r
        }
    }
}

/// The submissions a drain hands out, in their order.
spec fn handed_seq<C, T>(s: Seq<(u64, DmaImage<C, T>)>, live: Set<u64>) -> Seq<PendingImport<C>>
    decreases s.len(),
{
    if s.len() == 0 {
        Seq::empty()
    } else {
        let r = handed_seq(s.drop_last(), live);
        let e = s.last();
        if live.contains(e.0) && e.1 is UnImported {
            r.push(
                PendingImport {
                    id: e.0,
                    buf: e.1->UnImported_0,
                    on_drop: e.1->UnImported_1,
                    usage: e.1->UnImported_2,
                },
            )
        } else {
            r
        }
    }
}

proof fn lemma_entries_map_drop_last<C, T>(s: Seq<(u64, DmaImage<C, T>)>)
    requires
        keys_unique(s),
        s.len() > 0,
    ensures
        keys_unique(s.drop_last()),
        !entries_map(s.drop_last()).contains_key(s.last().0),
        entries_map(s) == entries_map(s.drop_last()).insert(s.last().0, s.last().1),
{
    let p = s.drop_last();
    assert forall|a: int, b: int| 0 <= a < b < p.len() implies #[trigger] p[a].0
        != #[trigger] p[b].0 by {
        assert(p[a] == s[a] && p[b] == s[b]);
    }
    if entries_map(p).contains_key(s.last().0) {
        let j = choose|j: int| 0 <= j < p.len() && #[trigger] p[j].0 == s.last().0;
        assert(s[j].0 == s[s.len() - 1].0);
    }
    lemma_entries_map_push(p, s.last().0, s.last().1);
    assert(p.push(s.last()) =~= s);
}

proof fn lemma_kept_seq<C, T>(s: Seq<(u64, DmaImage<C, T>)>, live: Set<u64>)
    requires
        keys_unique(s),
    ensures
        keys_unique(kept_seq(s, live)),
        entries_map(kept_seq(s, live)) == retained(entries_map(s), live),
    decreases s.len(),
{
    if s.len() == 0 {
        assert(entries_map(kept_seq(s, live)) =~= retained(entries_map(s), live));
    } else {
        let p = s.drop_last();
        lemma_entries_map_drop_last(s);
        lemma_kept_seq(p, live);
        let e = s.last();
        let m = entries_map(p);
        if live.contains(e.0) && e.1 is Imported {
            lemma_entries_map_push(kept_seq(p, live), e.0, e.1);
            assert(retained(m.insert(e.0, e.1), live) =~= retained(m, live).insert(e.0, e.1));
        } else {
            assert(retained(m.insert(e.0, e.1), live) =~= retained(m, live));
        }
    }
}

proof fn lemma_handed_seq<C, T>(s: Seq<(u64, DmaImage<C, T>)>, live: Set<u64>)
    requires
        keys_unique(s),
    ensures
        handed_out(entries_map(s), live, handed_seq(s, live)),
    decreases s.len(),
{
    let h = handed_seq(s, live);
    let m = entries_map(s);
    if s.len() > 0 {
        let p = s.drop_last();
        lemma_entries_map_drop_last(s);
        lemma_handed_seq(p, live);
        let e = s.last();
        let m0 = entries_map(p);
        let h0 = handed_seq(p, live);
        assert forall|j: int| 0 <= j < h0.len() implies #[trigger] h0[j].id != e.0 by {
            assert(is_pending(m0, live, h0[j].id));
        }
        assert forall|j: int| 0 <= j < h.len() implies {
            &&& is_pending(m, live, #[trigger] h[j].id)
            &&& m[h[j].id] == DmaImage::<C, T>::UnImported(h[j].buf, h[j].on_drop, h[j].usage)
        } by {
            if j < h0.len() {
                assert(h[j] == h0[j]);
                assert(is_pending(m0, live, h0[j].id));
            }
        }
        assert forall|k: u64| is_pending(m, live, k) implies exists|j: int|
            0 <= j < h.len() && #[trigger] h[j].id == k by {
            if k == e.0 {
                assert(h[h0.len() as int].id == k);
            } else {
                assert(is_pending(m0, live, k));
                let j = choose|j: int| 0 <= j < h0.len() && #[trigger] h0[j].id == k;
                assert(h[j] == h0[j]);
            }
        }
        assert forall|a: int, b: int| 0 <= a < b < h.len() implies #[trigger] h[a].id
            != #[trigger] h[b].id by {
            assert(h[a] == h0[a]);
            if b < h0.len() {
                assert(h[b] == h0[b]);
            }
        }
    }
}

/// The keys of the imported entries, in their order.
spec fn imported_keys<C, T>(s: Seq<(u64, DmaImage<C, T>)>) -> Seq<u64>
    decreases s.len(),
{
    if s.len() == 0 {
        Seq::empty()
    } else if s.last().1 is Imported {
        imported_keys(s.drop_last()).push(s.last().0)
    } else {
        imported_keys(s.drop_last())
    }
}

proof fn lemma_imported_keys<C, T>(s: Seq<(u64, DmaImage<C, T>)>)
    requires
        keys_unique(s),
    ensures
        imported_keys(s).no_duplicates(),
        forall|k: u64|
            imported_keys(s).contains(k) <==> (entries_map(s).contains_key(k)
                && entries_map(s)[k] is Imported),
    decreases s.len(),
{
    if s.len() > 0 {
        let p = s.drop_last();
        lemma_entries_map_drop_last(s);
        lemma_imported_keys(p);
        let r0 = imported_keys(p);
        let r = imported_keys(s);
        let e = s.last();
        if e.1 is Imported {
            assert(!r0.contains(e.0));
            assert forall|a: int, b: int| 0 <= a < r.len() && 0 <= b < r.len() && a != b implies r[a]
                != r[b] by {
                if a < r0.len() && b < r0.len() {
                    assert(r[a] == r0[a] && r[b] == r0[b]);
                } else if a < r0.len() {
                    assert(r[a] == r0[a]);
                } else if b < r0.len() {
                    assert(r[b] == r0[b]);
                }
            }
        }
        assert forall|k: u64| r.contains(k) <==> (entries_map(s).contains_key(k)
            && entries_map(s)[k] is Imported) by {
            if r.contains(k) && k != e.0 {
                let a = choose|a: int| 0 <= a < r.len() && r[a] == k;
                if a < r0.len() {
                    assert(r0[a] == k);
                    assert(r0.contains(k));
                } else {
                    assert(e.1 is Imported);
                }
            }
            if entries_map(s).contains_key(k) && entries_map(s)[k] is Imported {
                if k == e.0 {
                    assert(r[r.len() - 1] == k);
                } else {
                    assert(entries_map(p).contains_key(k) && entries_map(p)[k] is Imported);
                    assert(r0.contains(k));
                    let a = choose|a: int| 0 <= a < r0.len() && r0[a] == k;
                    assert(r[a] == k);
                }
            }
        }
    }
}

/// A submission is handed out by the next drain while its handle lives; once its import is
/// recorded, the handle resolves to the imported texture. Until then the handle shows the
/// placeholder, of the descriptor's size.
pub proof fn lemma_submit_drain_resolve<C, T>(
    m: Map<u64, DmaImage<C, T>>,
    id: u64,
    buf: Dmatex,
    on_drop: Option<C>,
    usage: DmatexUsage,
    alive: Set<u64>,
    tex: T,
)
    requires
        alive.contains(id),
    ensures
        ({
            let submitted = m.insert(id, DmaImage::UnImported(buf, DropCallback(on_drop), usage));
            let imported = retained(submitted, alive).insert(id, DmaImage::Imported(tex));
            &&& is_pending(submitted, alive, id)
            &&& !(submitted[id] is Imported)
            &&& placeholder_of(buf).width == buf.res.x
            &&& placeholder_of(buf).height == buf.res.y
            &&& imported.contains_key(id)
            &&& imported[id] == DmaImage::<C, T>::Imported(tex)
        }),
{
}

impl<C, T> View for ImportedDmatexs<C, T> {
    type V = Map<u64, DmaImage<C, T>>;

    closed spec fn view(&self) -> Map<u64, DmaImage<C, T>> {
        entries_map(self.entries@)
    }
}

impl<C, T> ImportedDmatexs<C, T> {
    pub closed spec fn wf(&self) -> bool {
        keys_unique(self.entries@)
    }

    pub fn new() -> (r: Self)
        ensures
            r.wf(),
            r@ == Map::<u64, DmaImage<C, T>>::empty(),
    {
        let r = ImportedDmatexs { entries: Vec::new() };
        assert(r@ =~= Map::<u64, DmaImage<C, T>>::empty());
        r
    }

    fn index_of(&self, id: u64) -> (r: Option<usize>)
        requires
            self.wf(),
        ensures
            match r {
                Some(i) => i < self.entries@.len() && self.entries@[i as int].0 == id,
                None => !self@.contains_key(id),
            },
    {
        let mut i: usize = 0;
        while i < self.entries.len()
            invariant
                i <= self.entries@.len(),
                forall|j: int| 0 <= j < i ==> self.entries@[j].0 != id,
            decreases self.entries@.len() - i,
        {
            if self.entries[i].0 == id {
                return Some(i);
            }
            i += 1;
        }
        None
    }

    /// Puts `state` under `id`, replacing what was there.
    fn put(&mut self, id: u64, state: DmaImage<C, T>) -> (r: Option<DmaImage<C, T>>)
        requires
            old(self).wf(),
        ensures
            final(self).wf(),
            final(self)@ == old(self)@.insert(id, state),
            r == replaced(old(self)@, id),
    {
        let ghost s = self.entries@;
        match self.index_of(id) {
            Some(i) => {
                let previous = self.entries.remove(i);
                self.entries.insert(i, (id, state));
                let ghost t = self.entries@;
                assert(t =~= s.update(i as int, (id, state)));
                proof {
                    lemma_entries_map_at(s, i as int);
                }
                assert forall|a: int, b: int| 0 <= a < b < t.len() implies #[trigger] t[a].0
                    != #[trigger] t[b].0 by {
                    assert(s[a].0 == t[a].0 && s[b].0 == t[b].0);
                }
                assert forall|k: u64| #[trigger] entries_map(t).contains_key(k) == entries_map(
                    s,
                ).insert(id, state).contains_key(k) by {
                    if exists|j: int| 0 <= j < s.len() && #[trigger] s[j].0 == k {
                        let j = choose|j: int| 0 <= j < s.len() && #[trigger] s[j].0 == k;
                        assert(t[j].0 == k);
                    }
                    if exists|j: int| 0 <= j < t.len() && #[trigger] t[j].0 == k {
                        let j = choose|j: int| 0 <= j < t.len() && #[trigger] t[j].0 == k;
                        assert(s[j].0 == k);
                    }
                }
                assert forall|k: u64| #[trigger]
                    entries_map(t).contains_key(k) implies entries_map(t)[k] == entries_map(
                    s,
                ).insert(id, state)[k] by {
                    let j = choose|j: int| 0 <= j < t.len() && #[trigger] t[j].0 == k;
                    lemma_entries_map_at(t, j);
                    if k != id {
                        lemma_entries_map_at(s, j);
                    }
                }
                assert(entries_map(t) =~= entries_map(s).insert(id, state));
                Some(previous.1)
            },
            None => {
                proof {
                    lemma_entries_map_push(s, id, state);
                }
                self.entries.push((id, state));
                None
            },
        }
    }

    /// Submits `buf` for import under handle `id`. Returns the placeholder texture that stands
    /// for it until the import (a format that cannot be imported is only found out when the
    /// import is tried), and the entry it replaced, whose descriptors and callback the caller
    /// must release.
    pub fn set(
        &mut self,
        id: u64,
        buf: Dmatex,
        usage: DmatexUsage,
        on_drop: Option<C>,
    ) -> (r: (TextureDescription, Option<DmaImage<C, T>>))
        requires
            old(self).wf(),
        ensures
            final(self).wf(),
            r.0 == placeholder_of(buf),
            r.1 == replaced(old(self)@, id),
            final(self)@ == old(self)@.insert(
                id,
                DmaImage::UnImported(buf, DropCallback(on_drop), usage),
            ),
    {
        let desc = placeholder_descriptor(&buf);
        let previous = self.put(id, DmaImage::UnImported(buf, DropCallback(on_drop), usage));
        (desc, previous)
    }

    /// Records `tex` as the imported texture of handle `id`. Returns the entry it replaced,
    /// which the caller must release.
    pub fn insert_imported_dmatex(&mut self, id: u64, tex: T) -> (r: Option<DmaImage<C, T>>)
        requires
            old(self).wf(),
        ensures
            final(self).wf(),
            final(self)@ == old(self)@.insert(id, DmaImage::Imported(tex)),
            r == replaced(old(self)@, id),
    {
        self.put(id, DmaImage::Imported(tex))
    }

    /// Hands out every submission that waits for import: those whose handle is in `alive` to be
    /// imported, the others to be released (their descriptors closed, their callbacks run).
    /// Drops the imported textures of handles not in `alive`. Afterwards only the imported
    /// textures of live handles remain, so each submission is handed out once.
    pub fn drain(&mut self, alive: &Vec<u64>) -> (r: Drained<C>)
        requires
            old(self).wf(),
        ensures
            final(self).wf(),
            final(self)@ == retained(old(self)@, alive@.to_set()),
            handed_out(old(self)@, alive@.to_set(), r.to_import@),
            handed_out(old(self)@, alive@.to_set().complement(), r.discarded@),
            forall|k: u64|
                #[trigger] old(self)@.contains_key(k) && old(self)@[k] is UnImported ==> (exists|j: int|
                    0 <= j < r.to_import@.len() && #[trigger] r.to_import@[j].id == k) != (exists|
                    j: int,
                |
                    0 <= j < r.discarded@.len() && #[trigger] r.discarded@[j].id == k),
    {
        let ghost orig = self.entries@;
        let ghost live = alive@.to_set();
        let ghost dead = live.complement();
        let mut rest: Vec<(u64, DmaImage<C, T>)> = Vec::new();
        std::mem::swap(&mut self.entries, &mut rest);
        let mut out: Vec<PendingImport<C>> = Vec::new();
        let mut dropped: Vec<PendingImport<C>> = Vec::new();
        let ghost mut i: int = 0;
        while rest.len() > 0
            invariant
                keys_unique(orig),
                entries_map(orig) == old(self)@,
                0 <= i <= orig.len(),
                rest@ == orig.subrange(i, orig.len() as int),
                live == alive@.to_set(),
                dead == live.complement(),
                self.entries@ == kept_seq(orig.subrange(0, i), live),
                out@ == handed_seq(orig.subrange(0, i), live),
                dropped@ == handed_seq(orig.subrange(0, i), dead),
            decreases rest@.len(),
        {
            let (id, state) = rest.remove(0);
            proof {
                assert(orig.subrange(0, i + 1).drop_last() =~= orig.subrange(0, i));
                assert(orig.subrange(0, i + 1).last() == orig[i]);
            }
            let found = contains_id(alive, id);
            proof {
                assert(dead.contains(id) == !found);
            }
            match state {
                DmaImage::Imported(t) => {
                    if found {
                        self.entries.push((id, DmaImage::Imported(t)));
                    }
                },
                DmaImage::UnImported(buf, on_drop, usage) => {
                    if found {
                        out.push(PendingImport { id, buf, on_drop, usage });
                    } else {
                        dropped.push(PendingImport { id, buf, on_drop, usage });
                    }
                },
            }
            proof {
                i = i + 1;
                assert(rest@ =~= orig.subrange(i, orig.len() as int));
            }
        }
        proof {
            assert(orig.subrange(0, orig.len() as int) =~= orig);
            lemma_kept_seq(orig, live);
            lemma_handed_seq(orig, live);
            lemma_handed_seq(orig, dead);
            let m = old(self)@;
            assert forall|k: u64| #[trigger] m.contains_key(k) && m[k] is UnImported implies (exists|
                j: int,
            |
                0 <= j < out@.len() && #[trigger] out@[j].id == k) != (exists|j: int|
                0 <= j < dropped@.len() && #[trigger] dropped@[j].id == k) by {
                if live.contains(k) {
                    assert(is_pending(m, live, k));
                    if exists|j: int| 0 <= j < dropped@.len() && #[trigger] dropped@[j].id == k {
                        let j = choose|j: int| 0 <= j < dropped@.len() && #[trigger] dropped@[j].id == k;
                        assert(is_pending(m, dead, dropped@[j].id));
                    }
                } else {
                    assert(is_pending(m, dead, k));
                    if exists|j: int| 0 <= j < out@.len() && #[trigger] out@[j].id == k {
                        let j = choose|j: int| 0 <= j < out@.len() && #[trigger] out@[j].id == k;
                        assert(is_pending(m, live, out@[j].id));
                    }
                }
            }
        }
        Drained { to_import: out, discarded: dropped }
    }

    /// The handles whose import is done: the images a queue-ownership barrier covers.
    pub fn imported_ids(&self) -> (r: Vec<u64>)
        requires
            self.wf(),
        ensures
            forall|k: u64| r@.contains(k) <==> (self@.contains_key(k) && self@[k] is Imported),
            r@.no_duplicates(),
    {
        let ghost s = self.entries@;
        let mut r: Vec<u64> = Vec::new();
        let mut i: usize = 0;
        while i < self.entries.len()
            invariant
                s == self.entries@,
                i <= s.len(),
                r@ == imported_keys(s.subrange(0, i as int)),
            decreases s.len() - i,
        {
            proof {
                assert(s.subrange(0, i + 1).drop_last() =~= s.subrange(0, i as int));
            }
            match &self.entries[i].1 {
                DmaImage::Imported(_) => r.push(self.entries[i].0),
                DmaImage::UnImported(..) => {},
            }
            i += 1;
        }
        proof {
            assert(s.subrange(0, s.len() as int) =~= s);
            lemma_imported_keys(s);
        }
        r
    }

    /// The imported texture of handle `id`, if its import is done.
    pub fn get_imported(&self, id: u64) -> (r: Option<&T>)
        requires
            self.wf(),
        ensures
            match r {
                Some(t) => self@.contains_key(id) && self@[id] == DmaImage::<C, T>::Imported(*t),
                None => !(self@.contains_key(id) && self@[id] is Imported),
            },
    {
        match self.index_of(id) {
            Some(i) => {
                proof {
                    lemma_entries_map_at(self.entries@, i as int);
                }
                match &self.entries[i].1 {
                    DmaImage::Imported(t) => Some(t),
                    DmaImage::UnImported(..) => None,
                }
            },
            None => None,
        }
    }
}

} // verus!
