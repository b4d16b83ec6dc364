//! The cell lifecycle, stated as a state machine and proved.
//!
//! A copy-on-write handle is, underneath, an owning reference into a heap
//! cell that carries the pointee together with a strong and a weak count.
//! This module states that discipline mathematically: a store of cells under
//! identities that are never reused, owning and observing handles as bound
//! identities, and one spec function per operation of the handle types. The
//! proof functions at the end are the laws of the library: cloning aliases,
//! exclusive access diverges exactly when the cell is shared, a cell whose
//! last owner is gone never comes back, and observers upgrade exactly while
//! an owner is left.

use vstd::prelude::*;

verus! {

/// One heap cell: the pointee together with its two reference counts.
pub struct CellModel<V> {
    /// The pointee. It is destroyed the moment `strong` reaches zero, and is
    /// meaningful only while `strong >= 1`.
    pub value: V,
    /// The number of live owning handles bound to this cell.
    pub strong: nat,
    /// The number of live observing handles bound to this cell.
    pub weak: nat,
}

/// The heap: every cell that still occupies storage, under an identity that
/// is handed out once and never reused.
pub struct StoreModel<V> {
    /// The live cells by identity.
    pub cells: Map<nat, CellModel<V>>,
    /// The identity the next fresh cell will take.
    pub next: nat,
}

/// An owning handle: it keeps the pointee of the cell it is bound to alive.
pub struct HandleModel {
    /// The identity of the cell this handle is bound to.
    pub cell: nat,
}

/// An observing handle: it watches a cell without keeping the pointee alive,
/// and may try to upgrade to an owning handle.
pub struct ObserverModel {
    /// The identity of the cell this observer is bound to.
    pub cell: nat,
}

/// Every cell identity in use lies below `next`: fresh identities are fresh.
pub open spec fn store_inv<V>(s: StoreModel<V>) -> bool {
    forall|i: nat| s.cells.dom().contains(i) ==> i < s.next
}

/// `h` is a live owning handle in `s`: its cell occupies storage and, as an
/// owner exists, the strong count is at least one.
pub open spec fn owns<V>(s: StoreModel<V>, h: HandleModel) -> bool {
    s.cells.dom().contains(h.cell) && s.cells[h.cell].strong >= 1
}

/// `o` is a live observing handle in `s`: its cell still occupies storage
/// and the weak count records it.
pub open spec fn observes<V>(s: StoreModel<V>, o: ObserverModel) -> bool {
    s.cells.dom().contains(o.cell) && s.cells[o.cell].weak >= 1
}

/// The cell identity `i` carries no live pointee in `s`: either its storage
/// is reclaimed, or the last owner is gone and the pointee destroyed.
pub open spec fn cell_dead<V>(s: StoreModel<V>, i: nat) -> bool {
    !s.cells.dom().contains(i) || s.cells[i].strong == 0
}

/// What an owning handle reads: the pointee of its cell.
pub open spec fn reads<V>(s: StoreModel<V>, h: HandleModel) -> V
    recommends
        owns(s, h),
{
    s.cells[h.cell].value
}

/// Constructing a handle from a bare value: a fresh cell under a fresh
/// identity, one owner, no observers.
pub open spec fn construct<V>(s: StoreModel<V>, value: V) -> (StoreModel<V>, HandleModel) {
    (
        StoreModel {
            cells: s.cells.insert(s.next, CellModel { value, strong: 1nat, weak: 0nat }),
            next: s.next + 1,
        },
        HandleModel { cell: s.next },
    )
}

/// Cloning an owning handle: the new handle is bound to the very same cell,
/// whose strong count goes up by one; the pointee is not duplicated.
pub open spec fn clone_handle<V>(s: StoreModel<V>, h: HandleModel) -> (StoreModel<V>, HandleModel)
    recommends
        owns(s, h),
{
    let c = s.cells[h.cell];
    (
        StoreModel {
            cells: s.cells.insert(h.cell, CellModel { value: c.value, strong: c.strong + 1, weak: c.weak }),
            next: s.next,
        },
        HandleModel { cell: h.cell },
    )
}

/// Forced duplication: the pointee is cloned into a fresh cell with one
/// owner and no observers, whatever the sharing state of the old cell.
pub open spec fn clone_unique<V>(s: StoreModel<V>, h: HandleModel) -> (StoreModel<V>, HandleModel)
    recommends
        owns(s, h),
{
    let c = s.cells[h.cell];
    (
        StoreModel {
            cells: s.cells.insert(s.next, CellModel { value: c.value, strong: 1nat, weak: 0nat }),
            next: s.next + 1,
        },
        HandleModel { cell: s.next },
    )
}

/// Mutation the pointee permits of itself through a shared view: the cell's
/// pointee changes in place; no count moves, no handle is rebound, and no
/// divergence can occur, because the wrapper never sees this write.
pub open spec fn interior_write<V>(s: StoreModel<V>, h: HandleModel, value: V) -> StoreModel<V>
    recommends
        owns(s, h),
{
    let c = s.cells[h.cell];
    StoreModel {
        cells: s.cells.insert(h.cell, CellModel { value, strong: c.strong, weak: c.weak }),
        next: s.next,
    }
}

/// An exclusive-access request followed by a write of `value`. On a sole
/// owner the write lands in the existing cell, whatever the weak count. On a
/// shared cell the pointee diverges: the writer is rebound to a fresh cell
/// holding the written value, and the old cell loses one owner.
pub open spec fn mutable_access<V>(s: StoreModel<V>, h: HandleModel, value: V) -> (
    StoreModel<V>,
    HandleModel,
)
    recommends
        owns(s, h),
{
    let c = s.cells[h.cell];
    if c.strong == 1 {
        (
            StoreModel {
                cells: s.cells.insert(h.cell, CellModel { value, strong: c.strong, weak: c.weak }),
                next: s.next,
            },
            HandleModel { cell: h.cell },
        )
    } else {
        (
            StoreModel {
                cells: s.cells.insert(
                    h.cell,
                    CellModel { value: c.value, strong: (c.strong - 1) as nat, weak: c.weak },
                ).insert(s.next, CellModel { value, strong: 1nat, weak: 0nat }),
                next: s.next + 1,
            },
            HandleModel { cell: s.next },
        )
    }
}

/// Dropping an owning handle: one owner fewer; when the last owner and the
/// last observer are both gone, the cell's storage is reclaimed.
pub open spec fn drop_handle<V>(s: StoreModel<V>, h: HandleModel) -> StoreModel<V>
    recommends
        owns(s, h),
{
    let c = s.cells[h.cell];
    if c.strong == 1 && c.weak == 0 {
        StoreModel { cells: s.cells.remove(h.cell), next: s.next }
    } else {
        StoreModel {
            cells: s.cells.insert(
                h.cell,
                CellModel { value: c.value, strong: (c.strong - 1) as nat, weak: c.weak },
            ),
            next: s.next,
        }
    }
}

/// Deriving an observer from an owning handle: the weak count goes up by
/// one; the strong count is untouched.
pub open spec fn downgrade<V>(s: StoreModel<V>, h: HandleModel) -> (StoreModel<V>, ObserverModel)
    recommends
        owns(s, h),
{
    let c = s.cells[h.cell];
    (
        StoreModel {
            cells: s.cells.insert(h.cell, CellModel { value: c.value, strong: c.strong, weak: c.weak + 1 }),
            next: s.next,
        },
        ObserverModel { cell: h.cell },
    )
}

/// Dropping an observing handle: one observer fewer; a cell whose owners are
/// already gone is reclaimed with its last observer.
pub open spec fn drop_observer<V>(s: StoreModel<V>, o: ObserverModel) -> StoreModel<V>
    recommends
        observes(s, o),
{
    let c = s.cells[o.cell];
    if c.strong == 0 && c.weak == 1 {
        StoreModel { cells: s.cells.remove(o.cell), next: s.next }
    } else {
        StoreModel {
            cells: s.cells.insert(
                o.cell,
                CellModel { value: c.value, strong: c.strong, weak: (c.weak - 1) as nat },
            ),
            next: s.next,
        }
    }
}

/// An observer's attempt to become an owner: it succeeds exactly while some
/// owner still keeps the pointee alive, and then counts as one more owner.
pub open spec fn upgrade<V>(s: StoreModel<V>, o: ObserverModel) -> (
    StoreModel<V>,
    Option<HandleModel>,
) {
    if s.cells.dom().contains(o.cell) && s.cells[o.cell].strong >= 1 {
        let c = s.cells[o.cell];
        (
            StoreModel {
                cells: s.cells.insert(o.cell, CellModel { value: c.value, strong: c.strong + 1, weak: c.weak }),
                next: s.next,
            },
            Some(HandleModel { cell: o.cell }),
        )
    } else {
        (s, None)
    }
}

/// Moving the pointee out: it succeeds exactly when the caller's handle is
/// the sole owner and no observer is left, and then consumes the cell; on
/// failure nothing moves and the handle stays bound and live.
pub open spec fn try_take<V>(s: StoreModel<V>, h: HandleModel) -> (StoreModel<V>, Option<V>)
    recommends
        owns(s, h),
{
    let c = s.cells[h.cell];
    if c.strong == 1 && c.weak == 0 {
        (StoreModel { cells: s.cells.remove(h.cell), next: s.next }, Some(c.value))
    } else {
        (s, None)
    }
}

/// Moving the pointee out with a fallback: where `try_take` would succeed
/// the pointee itself is moved; otherwise a copy of it is handed out and the
/// consumed handle releases its ownership.
pub open spec fn take_or_clone<V>(s: StoreModel<V>, h: HandleModel) -> (StoreModel<V>, V)
    recommends
        owns(s, h),
{
    let c = s.cells[h.cell];
    if c.strong == 1 && c.weak == 0 {
        (StoreModel { cells: s.cells.remove(h.cell), next: s.next }, c.value)
    } else {
        (drop_handle(s, h), c.value)
    }
}

/// One transition of the store: every operation the handle types offer, with
/// the inputs it takes.
pub enum StepModel<V> {
    /// A handle is constructed from a bare value.
    Construct { value: V },
    /// An owning handle is cloned.
    CloneHandle { h: HandleModel },
    /// The pointee behind a handle is duplicated into a fresh cell.
    CloneUnique { h: HandleModel },
    /// The pointee changes itself in place through a shared view.
    InteriorWrite { h: HandleModel, value: V },
    /// A handle requests exclusive access and writes.
    MutableAccess { h: HandleModel, value: V },
    /// An owning handle is dropped.
    DropHandle { h: HandleModel },
    /// An observer is derived from an owning handle.
    Downgrade { h: HandleModel },
    /// An observing handle is dropped.
    DropObserver { o: ObserverModel },
    /// An observer attempts to become an owner.
    Upgrade { o: ObserverModel },
    /// A handle attempts to move the pointee out.
    TryTake { h: HandleModel },
    /// A handle moves the pointee out, or hands out a copy.
    TakeOrClone { h: HandleModel },
}

/// Whether the step's inputs are live in `s`: handles own their cells,
/// observers are counted. An upgrade attempt is always allowed, even through
/// a stale observer: failing is its answer, not a fault.
pub open spec fn step_enabled<V>(s: StoreModel<V>, step: StepModel<V>) -> bool {
    match step {
        StepModel::Construct { value } => true,
        StepModel::CloneHandle { h } => owns(s, h),
        StepModel::CloneUnique { h } => owns(s, h),
        StepModel::InteriorWrite { h, value } => owns(s, h),
        StepModel::MutableAccess { h, value } => owns(s, h),
        StepModel::DropHandle { h } => owns(s, h),
        StepModel::Downgrade { h } => owns(s, h),
        StepModel::DropObserver { o } => observes(s, o),
        StepModel::Upgrade { o } => true,
        StepModel::TryTake { h } => owns(s, h),
        StepModel::TakeOrClone { h } => owns(s, h),
    }
}

/// The store a step leaves behind.
pub open spec fn apply<V>(s: StoreModel<V>, step: StepModel<V>) -> StoreModel<V>
    recommends
        step_enabled(s, step),
{
    match step {
        StepModel::Construct { value } => construct(s, value).0,
        StepModel::CloneHandle { h } => clone_handle(s, h).0,
        StepModel::CloneUnique { h } => clone_unique(s, h).0,
        StepModel::InteriorWrite { h, value } => interior_write(s, h, value),
        StepModel::MutableAccess { h, value } => mutable_access(s, h, value).0,
        StepModel::DropHandle { h } => drop_handle(s, h),
        StepModel::Downgrade { h } => downgrade(s, h).0,
        StepModel::DropObserver { o } => drop_observer(s, o),
        StepModel::Upgrade { o } => upgrade(s, o).0,
        StepModel::TryTake { h } => try_take(s, h).0,
        StepModel::TakeOrClone { h } => take_or_clone(s, h).0,
    }
}

/// No step invents a cell identity: fresh identities stay fresh, so an
/// identity once retired can never be handed out again.
pub proof fn lemma_step_preserves_inv<V>(s: StoreModel<V>, step: StepModel<V>)
    requires
        store_inv(s),
        step_enabled(s, step),
    ensures
        store_inv(apply(s, step)),
        s.next <= apply(s, step).next,
{
}

/// Once a cell is dead — its storage reclaimed, or its last owner gone — no
/// step brings it back: the pointee under that identity is gone for good.
pub proof fn lemma_dead_cells_stay_dead<V>(s: StoreModel<V>, step: StepModel<V>, i: nat)
    requires
        store_inv(s),
        step_enabled(s, step),
        i < s.next,
        cell_dead(s, i),
    ensures
        cell_dead(apply(s, step), i),
{
}

/// Constructing a handle yields the sole owner of a fresh, unobserved cell,
/// reading back exactly the value put in; no existing cell is touched.
pub proof fn lemma_construct<V>(s: StoreModel<V>, value: V)
    requires
        store_inv(s),
    ensures
        ({
            let (s2, h) = construct(s, value);
            &&& owns(s2, h)
            &&& reads(s2, h) == value
            &&& s2.cells[h.cell].strong == 1
            &&& s2.cells[h.cell].weak == 0
            &&& !s.cells.dom().contains(h.cell)
            &&& forall|i: nat| i != h.cell ==> s2.cells.dom().contains(i) == s.cells.dom().contains(i)
            &&& forall|i: nat| i != h.cell && s.cells.dom().contains(i) ==> s2.cells[i] == s.cells[i]
            &&& store_inv(s2)
        }),
{
}

/// Cloning aliases and never duplicates: the clone is bound to the very same
/// cell as the original — identical underlying address — both read the same
/// pointee, and the only change of state is one more owner on that cell.
pub proof fn lemma_clone_aliases<V>(s: StoreModel<V>, h: HandleModel)
    requires
        store_inv(s),
        owns(s, h),
    ensures
        ({
            let (s2, h2) = clone_handle(s, h);
            &&& h2.cell == h.cell
            &&& owns(s2, h)
            &&& owns(s2, h2)
            &&& reads(s2, h2) == reads(s, h)
            &&& reads(s2, h) == reads(s, h)
            &&& s2.cells[h.cell].strong == s.cells[h.cell].strong + 1
            &&& s2.cells[h.cell].weak == s.cells[h.cell].weak
            &&& store_inv(s2)
        }),
{
}

/// Self-mutation through a shared view does not diverge: after the pointee
/// changes itself in place, a sibling handle is still bound to the same cell
/// as the writer — same address — and both read the written value.
pub proof fn lemma_interior_write_keeps_aliases<V>(
    s: StoreModel<V>,
    h1: HandleModel,
    h2: HandleModel,
    value: V,
)
    requires
        store_inv(s),
        owns(s, h1),
        owns(s, h2),
        h2.cell == h1.cell,
    ensures
        ({
            let s2 = interior_write(s, h1, value);
            &&& owns(s2, h1)
            &&& owns(s2, h2)
            &&& reads(s2, h1) == value
            &&& reads(s2, h2) == value
            &&& reads(s2, h1) == reads(s2, h2)
            &&& s2.cells[h1.cell].strong == s.cells[h1.cell].strong
            &&& s2.cells[h1.cell].weak == s.cells[h1.cell].weak
            &&& store_inv(s2)
        }),
{
}

/// Exclusive mutation on a shared cell diverges: the writer is rebound to a
/// fresh cell — its address changes — while a sibling keeps its old cell and
/// its old pointee; where the written value differs from the old one, the
/// two handles now read different values.
pub proof fn lemma_mutable_access_shared_diverges<V>(
    s: StoreModel<V>,
    h1: HandleModel,
    h2: HandleModel,
    value: V,
)
    requires
        store_inv(s),
        owns(s, h1),
        owns(s, h2),
        h2.cell == h1.cell,
        s.cells[h1.cell].strong >= 2,
    ensures
        ({
            let (s2, h1b) = mutable_access(s, h1, value);
            &&& h1b.cell != h1.cell
            &&& h1b.cell != h2.cell
            &&& owns(s2, h1b)
            &&& owns(s2, h2)
            &&& reads(s2, h1b) == value
            &&& reads(s2, h2) == reads(s, h2)
            &&& value != reads(s, h2) ==> reads(s2, h1b) != reads(s2, h2)
            &&& s2.cells[h1b.cell].strong == 1
            &&& s2.cells[h1b.cell].weak == 0
            &&& s2.cells[h2.cell].strong == s.cells[h2.cell].strong - 1
            &&& store_inv(s2)
        }),
{
}

/// Exclusive mutation on a sole owner stays in place, whatever the weak
/// count: the handle keeps its cell — its address never changes — the write
/// lands in that cell, and the cell stays uniquely owned.
pub proof fn lemma_mutable_access_unique_in_place<V>(s: StoreModel<V>, h: HandleModel, value: V)
    requires
        store_inv(s),
        owns(s, h),
        s.cells[h.cell].strong == 1,
    ensures
        ({
            let (s2, h2) = mutable_access(s, h, value);
            &&& h2 == h
            &&& owns(s2, h2)
            &&& reads(s2, h2) == value
            &&& s2.cells[h2.cell].strong == 1
            &&& s2.cells[h2.cell].weak == s.cells[h.cell].weak
            &&& store_inv(s2)
        }),
{
}

/// Whatever the sharing state, the cell an exclusive-access request leaves
/// the writer bound to is uniquely owned. With the lemma above, this is why
/// only the first of any run of exclusive accesses can move a handle: every
/// later one finds a sole owner and stays in place.
pub proof fn lemma_mutable_access_leaves_unique<V>(s: StoreModel<V>, h: HandleModel, value: V)
    requires
        store_inv(s),
        owns(s, h),
    ensures
        ({
            let (s2, h2) = mutable_access(s, h, value);
            &&& owns(s2, h2)
            &&& reads(s2, h2) == value
            &&& s2.cells[h2.cell].strong == 1
            &&& store_inv(s2)
        }),
{
}

/// Dropping an owning handle moves the cell one step down its lifecycle: a
/// shared cell stays alive with one owner fewer — from two owners it is
/// unique again — the last owner's drop destroys the pointee for good, and
/// the storage itself is reclaimed once no observer is left either.
pub proof fn lemma_drop_handle<V>(s: StoreModel<V>, h: HandleModel)
    requires
        store_inv(s),
        owns(s, h),
    ensures
        ({
            let s2 = drop_handle(s, h);
            &&& (s.cells[h.cell].strong >= 2 ==> owns(s2, h) && reads(s2, h) == reads(s, h)
                && s2.cells[h.cell].strong == s.cells[h.cell].strong - 1)
            &&& (s.cells[h.cell].strong == 1 ==> cell_dead(s2, h.cell))
            &&& (s.cells[h.cell].strong == 1 && s.cells[h.cell].weak == 0
                ==> !s2.cells.dom().contains(h.cell))
            &&& store_inv(s2)
        }),
{
}

/// Deriving an observer touches no owner: the cell keeps its pointee and its
/// strong count, and one more observer is recorded on it.
pub proof fn lemma_downgrade<V>(s: StoreModel<V>, h: HandleModel)
    requires
        store_inv(s),
        owns(s, h),
    ensures
        ({
            let (s2, o) = downgrade(s, h);
            &&& o.cell == h.cell
            &&& observes(s2, o)
            &&& owns(s2, h)
            &&& reads(s2, h) == reads(s, h)
            &&& s2.cells[h.cell].strong == s.cells[h.cell].strong
            &&& s2.cells[h.cell].weak == s.cells[h.cell].weak + 1
            &&& store_inv(s2)
        }),
{
}

/// A run of exclusive accesses: each write goes through `mutable_access` on
/// the handle the previous one left behind.
pub open spec fn mutable_access_run<V>(s: StoreModel<V>, h: HandleModel, writes: Seq<V>) -> (
    StoreModel<V>,
    HandleModel,
)
    decreases writes.len(),
{
    if writes.len() == 0 {
        (s, h)
    } else {
        let (s2, h2) = mutable_access(s, h, writes[0]);
        mutable_access_run(s2, h2, writes.subrange(1, writes.len() as int))
    }
}

/// Exclusive mutation on a sole owner never moves it: any number of
/// exclusive accesses in a row leave the handle bound to the very cell it
/// started with — its address never changes — and the cell uniquely owned.
pub proof fn lemma_mutable_access_unique_never_moves<V>(
    s: StoreModel<V>,
    h: HandleModel,
    writes: Seq<V>,
)
    requires
        store_inv(s),
        owns(s, h),
        s.cells[h.cell].strong == 1,
    ensures
        ({
            let (s2, h2) = mutable_access_run(s, h, writes);
            &&& h2 == h
            &&& owns(s2, h2)
            &&& s2.cells[h.cell].strong == 1
            &&& store_inv(s2)
        }),
    decreases writes.len(),
{
    if writes.len() > 0 {
        lemma_mutable_access_unique_in_place(s, h, writes[0]);
        let (s2, h2) = mutable_access(s, h, writes[0]);
        lemma_mutable_access_unique_never_moves(s2, h2, writes.subrange(1, writes.len() as int));
    }
}

/// The move out of a cell succeeds exactly on a sole, unobserved owner, and
/// yields exactly the pointee; on failure the store — and with it the handle,
/// still bound, still live — is left exactly as it was.
pub proof fn lemma_try_take_iff<V>(s: StoreModel<V>, h: HandleModel)
    requires
        store_inv(s),
        owns(s, h),
    ensures
        ({
            let (s2, r) = try_take(s, h);
            &&& (r is Some <==> (s.cells[h.cell].strong == 1 && s.cells[h.cell].weak == 0))
            &&& (r is Some ==> r == Some(reads(s, h)) && !s2.cells.dom().contains(h.cell)
                && cell_dead(s2, h.cell))
            &&& (r is None ==> s2 == s && owns(s2, h) && reads(s2, h) == reads(s, h))
            &&& store_inv(s2)
        }),
{
}

/// An observer bound to a dead cell never upgrades: the attempt yields
/// nothing and changes nothing. With [`lemma_dead_cells_stay_dead`], the
/// failure is permanent: no later step revives the cell.
pub proof fn lemma_dead_observer_never_upgrades<V>(s: StoreModel<V>, o: ObserverModel)
    requires
        cell_dead(s, o.cell),
    ensures
        upgrade(s, o).1 is None,
        upgrade(s, o).0 == s,
{
}

/// Observer invalidation on move-out: once a sole, unobserved owner moves
/// the pointee out, any observer bound to that cell fails to upgrade, now
/// and — by [`lemma_dead_cells_stay_dead`] — forever after.
pub proof fn lemma_take_invalidates_observers<V>(
    s: StoreModel<V>,
    h: HandleModel,
    o: ObserverModel,
)
    requires
        store_inv(s),
        owns(s, h),
        s.cells[h.cell].strong == 1,
        s.cells[h.cell].weak == 0,
        o.cell == h.cell,
    ensures
        ({
            let (s2, r) = try_take(s, h);
            &&& r == Some(reads(s, h))
            &&& cell_dead(s2, o.cell)
            &&& upgrade(s2, o).1 is None
        }),
{
}

/// The fallback move always yields the pointee: where the cell was solely
/// owned and unobserved it is consumed outright; anywhere else the consumed
/// handle just releases its ownership and a copy of the pointee comes back.
pub proof fn lemma_take_or_clone<V>(s: StoreModel<V>, h: HandleModel)
    requires
        store_inv(s),
        owns(s, h),
    ensures
        ({
            let (s2, v) = take_or_clone(s, h);
            &&& v == reads(s, h)
            &&& (s.cells[h.cell].strong == 1 && s.cells[h.cell].weak == 0
                ==> !s2.cells.dom().contains(h.cell))
            &&& (s.cells[h.cell].strong >= 2 ==> s2.cells[h.cell].strong
                == s.cells[h.cell].strong - 1)
            &&& store_inv(s2)
        }),
{
}

/// Upgrade semantics: an observer's attempt succeeds exactly while some
/// owner still keeps the cell alive; then the new handle owns that very cell
/// and reads its pointee, while a failed attempt changes nothing.
pub proof fn lemma_upgrade_iff_owner<V>(s: StoreModel<V>, o: ObserverModel)
    requires
        store_inv(s),
    ensures
        ({
            let (s2, r) = upgrade(s, o);
            &&& (r is Some <==> (s.cells.dom().contains(o.cell) && s.cells[o.cell].strong >= 1))
            &&& (match r {
                Some(h) => {
                    &&& h.cell == o.cell
                    &&& owns(s2, h)
                    &&& reads(s2, h) == s.cells[o.cell].value
                    &&& s2.cells[o.cell].strong == s.cells[o.cell].strong + 1
                },
                None => s2 == s,
            })
            &&& store_inv(s2)
        }),
{
}

/// Observer survival while a sibling owner exists: as long as some owning
/// handle is bound to the observed cell, the observer's upgrade succeeds.
pub proof fn lemma_observer_survives_sibling<V>(
    s: StoreModel<V>,
    o: ObserverModel,
    h: HandleModel,
)
    requires
        store_inv(s),
        owns(s, h),
        o.cell == h.cell,
    ensures
        upgrade(s, o).1 is Some,
{
}

/// Move round-trip: constructing a handle from a value and at once moving
/// the pointee back out yields exactly that value, and leaves every cell of
/// the store as it was.
pub proof fn lemma_construct_take_round_trip<V>(s: StoreModel<V>, value: V)
    requires
        store_inv(s),
    ensures
        ({
            let (s1, h) = construct(s, value);
            let (s2, r) = try_take(s1, h);
            &&& r == Some(value)
            &&& s2.cells =~= s.cells
        }),
{
}

} // verus!
