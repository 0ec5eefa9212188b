//! The order of the graphics calls of one import, as a state machine: the caller asks for
//! the next action, performs it and reports how it went. The session keeps the ledger of
//! what was created and which descriptors the driver took over, so that whatever fails, the
//! release steps are exact.
use crate::import::{ImportError, ImportPlan, MemoryLayout};
use crate::ledger::{closes, unwind_actions, unwound, Cleanup, FdState, ImportLedger, LedgerView};
use vstd::prelude::*;

verus! {

/// What the caller does next.
#[derive(Debug, Clone, Copy, PartialEq, Eq)]
pub enum ImportAction {
    /// Create the image that the plan describes.
    CreateImage,
    /// Import the descriptor of plane `plane` as memory allocation `allocation`, choosing its
    /// memory type from the allocation's requirements.
    ImportMemory { allocation: usize, plane: usize },
    /// Bind the allocations to the image.
    BindMemory,
    /// Everything is in place: end the session.
    Done,
    /// A step failed: end the session and release what it hands back.
    Failed(ImportError),
}

/// The plane whose descriptor allocation `k` imports.
pub open spec fn plane_of(memory: MemoryLayout, k: int) -> int {
    match memory {
        MemoryLayout::Disjoint => k,
        MemoryLayout::Combined => 0,
    }
}

/// Whether plane `i`'s descriptor went to the driver with one of the first `k` allocations.
pub open spec fn taken_over(memory: MemoryLayout, k: int, i: int) -> bool {
    match memory {
        MemoryLayout::Disjoint => i < k,
        MemoryLayout::Combined => 0 < k && i == 0,
    }
}

/// The ledger once the first `k` allocations succeeded.
pub open spec fn ledger_after(
    memory: MemoryLayout,
    planes: nat,
    allocations: nat,
    image_live: bool,
    k: int,
) -> LedgerView {
    LedgerView {
        fds: Seq::new(
            planes,
            |i: int|
                if taken_over(memory, k, i) {
                    FdState::Transferred
                } else {
                    FdState::Owned
                },
        ),
        memories: Seq::new(allocations, |j: int| j < k),
        image_live,
    }
}

/// One import in progress.
#[derive(Debug)]
pub struct ImportSession {
    memory: MemoryLayout,
    planes: usize,
    allocations: usize,
    action: ImportAction,
    ledger: ImportLedger,
}

impl ImportSession {
    pub closed spec fn spec_action(&self) -> ImportAction {
        self.action
    }

    pub closed spec fn spec_memory(&self) -> MemoryLayout {
        self.memory
    }

    pub closed spec fn spec_allocations(&self) -> nat {
        self.allocations as nat
    }

    pub closed spec fn ledger_view(&self) -> LedgerView {
        self.ledger@
    }

    pub closed spec fn wf(&self) -> bool {
        &&& self.planes >= 1
        &&& self.allocations == match self.memory {
            MemoryLayout::Disjoint => self.planes,
            MemoryLayout::Combined => 1,
        }
        &&& match self.action {
            ImportAction::CreateImage => self.ledger@ == ledger_after(
                self.memory,
                self.planes as nat,
                self.allocations as nat,
                false,
                0,
            ),
            ImportAction::ImportMemory { allocation, plane } => {
                &&& allocation < self.allocations
                &&& plane == plane_of(self.memory, allocation as int)
                &&& self.ledger@ == ledger_after(
                    self.memory,
                    self.planes as nat,
                    self.allocations as nat,
                    true,
                    allocation as int,
                )
            },
            ImportAction::BindMemory | ImportAction::Done => self.ledger@ == ledger_after(
                self.memory,
                self.planes as nat,
                self.allocations as nat,
                true,
                self.allocations as int,
            ),
            ImportAction::Failed(_) => forall|i: int|
                0 <= i < self.ledger@.fds.len() ==> #[trigger] self.ledger@.fds[i]
                    != FdState::Closed,
        }
        &&& self.ledger@.fds.len() == self.planes
        &&& self.ledger@.memories.len() == self.allocations
    }

    /// A session for carrying out `plan`; the first action creates the image.
    pub fn new(plan: &ImportPlan) -> (r: Self)
        requires
            plan.planes@.len() >= 1,
        ensures
            r.wf(),
            r.spec_action() == ImportAction::CreateImage,
            r.spec_memory() == plan.memory,
            r.spec_allocations() == plan.allocation_count(),
            r.ledger_view() == ledger_after(
                plan.memory,
                plan.planes@.len(),
                plan.allocation_count(),
                false,
                0,
            ),
    {
        let allocations = plan.allocations();
        let ledger = ImportLedger::new(plan.planes.len(), allocations);
        let r = ImportSession {
            memory: plan.memory,
            planes: plan.planes.len(),
            allocations,
            action: ImportAction::CreateImage,
            ledger,
        };
        assert(r.ledger@.fds =~= ledger_after(
            plan.memory,
            plan.planes@.len(),
            plan.allocation_count(),
            false,
            0,
        ).fds);
        assert(r.ledger@.memories =~= ledger_after(
            plan.memory,
            plan.planes@.len(),
            plan.allocation_count(),
            false,
            0,
        ).memories);
        r
    }

    /// The next thing to do.
    pub fn action(&self) -> (r: ImportAction)
        ensures
            r == self.spec_action(),
    {
        self.action
    }

    /// Reports how the current action went and moves on. A failure, or a report once the
    /// session is done or failed, leaves the ledger as it is.
    pub fn report(&mut self, outcome: Result<(), ImportError>)
        requires
            old(self).wf(),
        ensures
            final(self).wf(),
            final(self).spec_memory() == old(self).spec_memory(),
            final(self).spec_allocations() == old(self).spec_allocations(),
            match (old(self).spec_action(), outcome) {
                (ImportAction::Done, _) | (ImportAction::Failed(_), _) => final(self).spec_action()
                    == old(self).spec_action() && final(self).ledger_view() == old(self).ledger_view(),
                (_, Err(e)) => final(self).spec_action() == ImportAction::Failed(e)
                    && final(self).ledger_view() == old(self).ledger_view(),
                (ImportAction::CreateImage, Ok(())) => final(self).spec_action()
                    == ImportAction::ImportMemory { allocation: 0, plane: 0 },
                (ImportAction::ImportMemory { allocation, plane }, Ok(())) => {
                    &&& final(self).ledger_view().fds == old(self).ledger_view().fds.update(
                        plane as int,
                        FdState::Transferred,
                    )
                    &&& final(self).spec_action() == if allocation + 1 < old(self).spec_allocations() {
                        ImportAction::ImportMemory {
                            allocation: (allocation + 1) as usize,
                            plane: plane_of(old(self).spec_memory(), allocation + 1) as usize,
                        }
                    } else {
                        ImportAction::BindMemory
                    }
                },
                (ImportAction::BindMemory, Ok(())) => final(self).spec_action()
                    == ImportAction::Done,
            },
    {
        match self.action {
            ImportAction::Done | ImportAction::Failed(_) => {},
            _ => {
                match outcome {
                    Err(e) => {
                        self.action = ImportAction::Failed(e);
                    },
                    Ok(()) => {
                        match self.action {
                            ImportAction::CreateImage => {
                                self.ledger.image_created();
                                self.action = ImportAction::ImportMemory { allocation: 0, plane: 0 };
                                assert(self.ledger@.fds =~= ledger_after(
                                    self.memory,
                                    self.planes as nat,
                                    self.allocations as nat,
                                    true,
                                    0,
                                ).fds);
                                assert(self.ledger@.memories =~= ledger_after(
                                    self.memory,
                                    self.planes as nat,
                                    self.allocations as nat,
                                    true,
                                    0,
                                ).memories);
                            },
                            ImportAction::ImportMemory { allocation, plane } => {
                                self.ledger.memory_imported(allocation, plane);
                                let ghost next = ledger_after(
                                    self.memory,
                                    self.planes as nat,
                                    self.allocations as nat,
                                    true,
                                    allocation + 1,
                                );
                                assert(self.ledger@.fds =~= next.fds);
                                assert(self.ledger@.memories =~= next.memories);
                                if allocation + 1 < self.allocations {
                                    let k = allocation + 1;
                                    let p = match self.memory {
                                        MemoryLayout::Disjoint => k,
                                        MemoryLayout::Combined => 0,
                                    };
                                    self.action = ImportAction::ImportMemory { allocation: k, plane: p };
                                } else {
                                    self.action = ImportAction::BindMemory;
                                }
                            },
                            ImportAction::BindMemory => {
                                self.action = ImportAction::Done;
                            },
                            _ => {},
                        }
                    },
                }
            },
        }
    }

    /// Ends the session. When every step succeeded: `Ok` with the steps that close the
    /// descriptors no allocation took over, and the ledger that releases the memory and the
    /// image when the texture goes. Otherwise: `Err` with the steps that release everything.
    pub fn end(self) -> (r: Result<(Vec<Cleanup>, ImportLedger), Vec<Cleanup>>)
        requires
            self.wf(),
        ensures
            match r {
                Ok((steps, ledger)) => {
                    &&& self.spec_action() == ImportAction::Done
                    &&& steps@ == closes(self.ledger_view().fds)
                    &&& ledger@.fds == unwound(self.ledger_view()).fds
                    &&& ledger@.memories == self.ledger_view().memories
                    &&& ledger@.image_live == self.ledger_view().image_live
                },
                Err(steps) => self.spec_action() != ImportAction::Done && steps@ == unwind_actions(
                    self.ledger_view(),
                ),
            },
    {
        let mut ledger = self.ledger;
        match self.action {
            ImportAction::Done => {
                let steps = ledger.finish();
                Ok((steps, ledger))
            },
            _ => Err(ledger.unwind()),
        }
    }
}

/// Ending a session that did not finish releases exactly what it made: every live
/// allocation and the image once, and it closes exactly the descriptors that no allocation
/// took over, each once; afterwards the engine owns no descriptor.
pub proof fn lemma_failed_session_releases_once(s: ImportSession)
    requires
        s.wf(),
    ensures
        ({
            let v = s.ledger_view();
            let steps = unwind_actions(v);
            &&& steps.no_duplicates()
            &&& forall|i: int|
                0 <= i < v.fds.len() ==> (steps.contains(Cleanup::CloseFd(i as usize))
                    <==> v.fds[i] == FdState::Owned)
            &&& forall|k: int|
                0 <= k < v.memories.len() ==> (steps.contains(Cleanup::FreeMemory(k as usize))
                    <==> v.memories[k])
            &&& steps.contains(Cleanup::DestroyImage) <==> v.image_live
            &&& forall|i: int| 0 <= i < v.fds.len() ==> #[trigger] unwound(v).fds[i] != FdState::Owned
        }),
{
    crate::ledger::lemma_unwind_releases_each_once(s.ledger_view());
}

/// A successful session hands each plane's descriptor to the driver or closes it, and never
/// both; with disjoint memory every descriptor goes to the driver, with combined memory the
/// first one does and the others are closed.
pub proof fn lemma_done_session_places_every_fd(
    memory: MemoryLayout,
    planes: nat,
    allocations: nat,
)
    requires
        planes >= 1,
        allocations == match memory {
            MemoryLayout::Disjoint => planes,
            MemoryLayout::Combined => 1,
        },
    ensures
        ({
            let v = ledger_after(memory, planes, allocations, true, allocations as int);
            &&& forall|i: int|
                0 <= i < planes ==> (#[trigger] v.fds[i] == FdState::Transferred) == (
                memory == MemoryLayout::Disjoint || i == 0)
            &&& forall|i: int|
                0 <= i < planes ==> #[trigger] unwound(v).fds[i] != FdState::Owned
            &&& forall|k: int| 0 <= k < allocations ==> #[trigger] v.memories[k]
        }),
{
}

} // verus!
