use vstd::prelude::*;
use crate::surface::{
    handle_usable, surface_ids, without_window, NativeHandle, Surface, SurfaceCreationError,
    SurfaceRegistry, WindowAttributes, WindowId,
};

verus! {

/// The windowing layer reports that a window now exists.
#[derive(Clone, Copy, Debug, PartialEq, Eq, Structural)]
pub struct WindowCreatedEvent {
    pub window_id: WindowId,
}

/// The windowing layer reports that a window is to close.
#[derive(Clone, Copy, Debug, PartialEq, Eq, Structural)]
pub struct CloseRequestedEvent {
    pub window_id: WindowId,
}

/// What the windowing layer knows of one window.
#[derive(Clone, Copy, Debug, PartialEq, Eq, Structural)]
pub struct WindowRecord {
    pub id: WindowId,
    pub attributes: WindowAttributes,
    pub handle: NativeHandle,
}

/// Why a window notification could not be turned into a surface.
#[derive(Clone, Copy, Debug, PartialEq, Eq, Structural)]
pub enum LifecycleError {
    /// The windowing layer has no attributes or handle for the window.
    MissingWindowData(WindowId),
    /// The registry refused to create the window's surface.
    SurfaceCreation(WindowId, SurfaceCreationError),
}

/// Window identities of a sequence of records, in order.
pub open spec fn record_ids(s: Seq<WindowRecord>) -> Seq<WindowId> {
    s.map_values(|x: WindowRecord| x.id)
}

/// The windows known to the windowing layer, at most one record per window.
pub struct WindowTable {
    records: Vec<WindowRecord>,
}

impl View for WindowTable {
    type V = Seq<WindowRecord>;

    closed spec fn view(&self) -> Seq<WindowRecord> {
        self.records@
    }
}

/// The record of window `id` in `s`, if there is one.
pub open spec fn record_of(s: Seq<WindowRecord>, id: WindowId) -> Option<WindowRecord>
    decreases s.len(),
{
    if s.len() == 0 {
        None
    } else if s.last().id == id {
        Some(s.last())
    } else {
        record_of(s.drop_last(), id)
    }
}

impl WindowTable {
    pub open spec fn wf(&self) -> bool {
        record_ids(self@).no_duplicates()
    }

    /// A table of no windows.
    pub fn new() -> (r: WindowTable)
        ensures
            r.wf(),
            r@ == Seq::<WindowRecord>::empty(),
    {
        WindowTable { records: Vec::new() }
    }

    /// Records what is known of a window, replacing an earlier record of it.
    pub fn insert(&mut self, record: WindowRecord)
        requires
            old(self).wf(),
        ensures
            final(self).wf(),
            record_of(final(self)@, record.id) == Some(record),
            forall|w: WindowId| w != record.id ==> record_of(final(self)@, w) == record_of(old(self)@, w),
    {
        let ghost before = self@;
        let mut i: usize = 0;
        while i < self.records.len()
            invariant
                i <= self@.len(),
                self@ == before,
                before == old(self)@,
                record_ids(before).no_duplicates(),
                forall|j: int| 0 <= j < i ==> self@[j].id != record.id,
            decreases self@.len() - i,
        {
            if self.records[i].id == record.id {
                self.records.set(i, record);
                proof {
                    assert(self@ =~= before.update(i as int, record));
                    assert(record_ids(self@) =~= record_ids(before));
                    lemma_record_of_update(before, i as int, record);
                }
                return;
            }
            i = i + 1;
        }
        self.records.push(record);
        proof {
            assert(record_ids(self@) =~= record_ids(before).push(record.id));
            assert(self@.drop_last() =~= before);
            assert forall|j: int| 0 <= j < record_ids(before).len() implies record_ids(before)[j]
                != record.id by {
                assert(before[j].id == record_ids(before)[j]);
            }
        }
    }

    /// What the windowing layer knows of window `id`.
    pub fn lookup(&self, id: WindowId) -> (r: Option<WindowRecord>)
        ensures
            r == record_of(self@, id),
    {
        let mut i: usize = self.records.len();
        assert(self@.subrange(0, i as int) =~= self@);
        while i > 0
            invariant
                i <= self@.len(),
                record_of(self@, id) == record_of(self@.subrange(0, i as int), id),
            decreases i,
        {
            let rec = self.records[i - 1];
            let ghost pre = self@.subrange(0, i as int);
            assert(pre.drop_last() =~= self@.subrange(0, i - 1));
            if rec.id == id {
                return Some(rec);
            }
            i = i - 1;
        }
        None
    }
}

proof fn lemma_record_of_update(s: Seq<WindowRecord>, i: int, r: WindowRecord)
    requires
        0 <= i < s.len(),
        s[i].id == r.id,
        record_ids(s).no_duplicates(),
    ensures
        record_of(s.update(i, r), r.id) == Some(r),
        forall|w: WindowId| w != r.id ==> record_of(s.update(i, r), w) == record_of(s, w),
    decreases s.len(),
{
    let t = s.update(i, r);
    if i == s.len() - 1 {
        assert(t.drop_last() =~= s.drop_last());
        assert(t.last() == r);
    } else {
        assert(t.drop_last() =~= s.drop_last().update(i, r));
        assert(record_ids(s)[s.len() - 1] != record_ids(s)[i]);
        assert(t.last() == s.last());
        assert(s.last().id != r.id);
        assert(record_ids(s.drop_last()) =~= record_ids(s).drop_last());
        lemma_record_of_update(s.drop_last(), i, r);
    }
    assert forall|w: WindowId| w != r.id implies record_of(t, w) == record_of(s, w) by {
        if i == s.len() - 1 {
            assert(s.last().id == r.id);
        } else {
            assert(record_of(t.drop_last(), w) == record_of(s.drop_last(), w));
        }
    }
}

/// Registry contents and outcome of handling one window-created notification.
pub open spec fn created_step(reg: Seq<Surface>, recs: Seq<WindowRecord>, id: WindowId) -> (
    Seq<Surface>,
    Result<(), LifecycleError>,
) {
    match record_of(recs, id) {
        None => (reg, Err(LifecycleError::MissingWindowData(id))),
        Some(w) => if surface_ids(reg).contains(id) {
            (reg, Err(LifecycleError::SurfaceCreation(id, SurfaceCreationError::AlreadyExists)))
        } else if !handle_usable(w.handle) {
            (reg, Err(LifecycleError::SurfaceCreation(id, SurfaceCreationError::InvalidHandle)))
        } else {
            (reg.push(Surface { window: id, attributes: w.attributes, handle: w.handle }), Ok(()))
        },
    }
}

/// Registry contents after handling `events` in order.
pub open spec fn after_created(
    reg: Seq<Surface>,
    recs: Seq<WindowRecord>,
    events: Seq<WindowCreatedEvent>,
) -> Seq<Surface>
    decreases events.len(),
{
    if events.len() == 0 {
        reg
    } else {
        created_step(after_created(reg, recs, events.drop_last()), recs, events.last().window_id).0
    }
}

/// Outcome of each of `events`, handled in order.
pub open spec fn created_results(
    reg: Seq<Surface>,
    recs: Seq<WindowRecord>,
    events: Seq<WindowCreatedEvent>,
) -> Seq<Result<(), LifecycleError>>
    decreases events.len(),
{
    if events.len() == 0 {
        Seq::empty()
    } else {
        created_results(reg, recs, events.drop_last()).push(
            created_step(
                after_created(reg, recs, events.drop_last()),
                recs,
                events.last().window_id,
            ).1,
        )
    }
}

/// Registry contents after handling close notifications for `events` in order.
pub open spec fn after_closed(reg: Seq<Surface>, events: Seq<CloseRequestedEvent>) -> Seq<Surface>
    decreases events.len(),
{
    if events.len() == 0 {
        reg
    } else {
        without_window(after_closed(reg, events.drop_last()), events.last().window_id)
    }
}

/// How many of `events`, handled in order, found a surface to destroy.
pub open spec fn closed_count(reg: Seq<Surface>, events: Seq<CloseRequestedEvent>) -> nat
    decreases events.len(),
{
    if events.len() == 0 {
        0
    } else {
        closed_count(reg, events.drop_last()) + if surface_ids(
            after_closed(reg, events.drop_last()),
        ).contains(events.last().window_id) {
            1nat
        } else {
            0nat
        }
    }
}

/// Creates a surface for each window-created notification, in arrival order,
/// from what the windowing layer knows of the window.
///
/// Returns one outcome per notification: a window the windowing layer cannot
/// resolve, or one the registry refuses, fails on its own and the rest go on.
pub fn u_create_surface(
    events: &Vec<WindowCreatedEvent>,
    windows: &WindowTable,
    registry: &mut SurfaceRegistry,
) -> (r: Vec<Result<(), LifecycleError>>)
    requires
        old(registry).wf(),
    ensures
        final(registry).wf(),
        final(registry)@ == after_created(old(registry)@, windows@, events@),
        r@ == created_results(old(registry)@, windows@, events@),
{
    let mut results: Vec<Result<(), LifecycleError>> = Vec::new();
    let mut i: usize = 0;
    while i < events.len()
        invariant
            i <= events@.len(),
            registry.wf(),
            registry@ == after_created(old(registry)@, windows@, events@.subrange(0, i as int)),
            results@ == created_results(old(registry)@, windows@, events@.subrange(0, i as int)),
        decreases events@.len() - i,
    {
        let id = events[i].window_id;
        let ghost prefix = events@.subrange(0, i + 1);
        assert(prefix.drop_last() =~= events@.subrange(0, i as int));
        let res = match windows.lookup(id) {
            None => Err(LifecycleError::MissingWindowData(id)),
            Some(w) => match registry.create(id, w.attributes, w.handle) {
                Ok(()) => Ok(()),
                Err(e) => Err(LifecycleError::SurfaceCreation(id, e)),
            },
        };
        results.push(res);
        i = i + 1;
    }
    assert(events@.subrange(0, events@.len() as int) =~= events@);
    results
}

/// Destroys the surface of each window whose close was requested, in arrival
/// order; a window without a surface is passed over.
///
/// Returns the number of surfaces destroyed.
pub fn u_destroy_surface(events: &Vec<CloseRequestedEvent>, registry: &mut SurfaceRegistry) -> (r:
    usize)
    requires
        old(registry).wf(),
    ensures
        final(registry).wf(),
        final(registry)@ == after_closed(old(registry)@, events@),
        r == closed_count(old(registry)@, events@),
{
    let mut destroyed: usize = 0;
    let mut i: usize = 0;
    while i < events.len()
        invariant
            i <= events@.len(),
            destroyed <= i,
            destroyed == closed_count(old(registry)@, events@.subrange(0, i as int)),
            registry.wf(),
            registry@ == after_closed(old(registry)@, events@.subrange(0, i as int)),
        decreases events@.len() - i,
    {
        let ghost prefix = events@.subrange(0, i + 1);
        assert(prefix.drop_last() =~= events@.subrange(0, i as int));
        if registry.destroy(events[i].window_id).is_some() {
            destroyed = destroyed + 1;
        }
        i = i + 1;
    }
    assert(events@.subrange(0, events@.len() as int) =~= events@);
    destroyed
}

} // verus!
