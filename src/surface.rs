use vstd::prelude::*;

verus! {

/// Stable identity of a window, unique for the window's lifetime.
pub type WindowId = u64;

/// Windowing platform that a native handle belongs to.
#[derive(Clone, Copy, Debug, PartialEq, Eq, Structural)]
pub enum Platform {
    Win32,
    Xlib,
    Wayland,
    AppKit,
    Unsupported,
}

/// A native window handle as handed over by the windowing layer.
#[derive(Clone, Copy, Debug, PartialEq, Eq, Structural)]
pub struct NativeHandle {
    pub platform: Platform,
    pub raw: u64,
}

/// Size and scale of a window, as needed to configure its surface.
#[derive(Clone, Copy, Debug, PartialEq, Eq, Structural)]
pub struct WindowAttributes {
    pub width: u32,
    pub height: u32,
    /// Scale factor in percent (100 is unscaled).
    pub scale_percent: u32,
}

/// A presentation surface bound to exactly one window.
#[derive(Clone, Copy, Debug, PartialEq, Eq, Structural)]
pub struct Surface {
    pub window: WindowId,
    pub attributes: WindowAttributes,
    pub handle: NativeHandle,
}

/// Why a surface could not be created.
#[derive(Clone, Copy, Debug, PartialEq, Eq, Structural)]
pub enum SurfaceCreationError {
    /// The native handle is null or of a platform the backend cannot present to.
    InvalidHandle,
    /// A surface already exists for the window.
    AlreadyExists,
}

/// A handle the graphics backend can build a surface on.
pub open spec fn handle_usable(h: NativeHandle) -> bool {
    h.platform != Platform::Unsupported && h.raw != 0
}

impl NativeHandle {
    /// Whether the backend can build a surface on this handle.
    pub fn is_usable(&self) -> (r: bool)
        ensures
            r == handle_usable(*self),
    {
        self.raw != 0 && !matches!(self.platform, Platform::Unsupported)
    }
}

/// Window identities of a sequence of surfaces, in order.
pub open spec fn surface_ids(s: Seq<Surface>) -> Seq<WindowId> {
    s.map_values(|x: Surface| x.window)
}

/// The surfaces of `s` that do not belong to window `id`, in order.
pub open spec fn without_window(s: Seq<Surface>, id: WindowId) -> Seq<Surface>
    decreases s.len(),
{
    if s.len() == 0 {
        s
    } else if s.last().window == id {
        without_window(s.drop_last(), id)
    } else {
        without_window(s.drop_last(), id).push(s.last())
    }
}

proof fn lemma_without_absent(s: Seq<Surface>, id: WindowId)
    requires
        !surface_ids(s).contains(id),
    ensures
        without_window(s, id) == s,
    decreases s.len(),
{
    if s.len() > 0 {
        assert(surface_ids(s)[s.len() - 1] == s.last().window);
        assert forall|j: int| 0 <= j < s.len() - 1 implies surface_ids(s.drop_last())[j] != id by {
            assert(surface_ids(s)[j] == surface_ids(s.drop_last())[j]);
        }
        lemma_without_absent(s.drop_last(), id);
        assert(s.drop_last().push(s.last()) =~= s);
    }
}

proof fn lemma_remove_is_without(s: Seq<Surface>, k: int, id: WindowId)
    requires
        surface_ids(s).no_duplicates(),
        0 <= k < s.len(),
        s[k].window == id,
    ensures
        s.remove(k) == without_window(s, id),
    decreases s.len(),
{
    let n = s.len() - 1;
    let d = s.drop_last();
    assert(surface_ids(d) =~= surface_ids(s).drop_last());
    if k == n {
        assert forall|j: int| 0 <= j < d.len() implies surface_ids(d)[j] != id by {
            assert(surface_ids(s)[j] == d[j].window);
            assert(surface_ids(s)[k] == id);
        }
        lemma_without_absent(d, id);
        assert(s.remove(k) =~= d);
    } else {
        assert(surface_ids(s)[n] != surface_ids(s)[k]);
        lemma_remove_is_without(d, k, id);
        assert(s.remove(k) =~= d.remove(k).push(s.last()));
    }
}

/// Owner of all live surfaces, at most one per window.
pub struct SurfaceRegistry {
    surfaces: Vec<Surface>,
}

impl View for SurfaceRegistry {
    type V = Seq<Surface>;

    /// The live surfaces, in creation order.
    closed spec fn view(&self) -> Seq<Surface> {
        self.surfaces@
    }
}

impl SurfaceRegistry {
    /// No window has two surfaces.
    pub open spec fn wf(&self) -> bool {
        surface_ids(self@).no_duplicates()
    }

    /// Whether a live surface exists for window `id`.
    pub open spec fn has(&self, id: WindowId) -> bool {
        surface_ids(self@).contains(id)
    }

    /// At most one live surface per window: two distinct entries of a
    /// well-formed registry belong to distinct windows.
    pub proof fn lemma_one_surface_per_window(&self, i: int, j: int)
        requires
            self.wf(),
            0 <= i < self@.len(),
            0 <= j < self@.len(),
            i != j,
        ensures
            self@[i].window != self@[j].window,
    {
        assert(surface_ids(self@)[i] == self@[i].window);
        assert(surface_ids(self@)[j] == self@[j].window);
    }

    /// An empty registry.
    pub fn new() -> (r: SurfaceRegistry)
        ensures
            r.wf(),
            r@ == Seq::<Surface>::empty(),
    {
        SurfaceRegistry { surfaces: Vec::new() }
    }

    /// Number of live surfaces.
    pub fn len(&self) -> (r: usize)
        ensures
            r == self@.len(),
    {
        self.surfaces.len()
    }

    /// Position of the surface of window `id`, if it has one.
    fn position(&self, id: WindowId) -> (r: Option<usize>)
        ensures
            match r {
                Some(i) => i < self@.len() && self@[i as int].window == id && self.has(id),
                None => !self.has(id),
            },
    {
        let mut i: usize = 0;
        while i < self.surfaces.len()
            invariant
                i <= self@.len(),
                forall|j: int| 0 <= j < i ==> self@[j].window != id,
            decreases self@.len() - i,
        {
            if self.surfaces[i].window == id {
                assert(surface_ids(self@)[i as int] == id);
                return Some(i);
            }
            i = i + 1;
        }
        proof {
            if self.has(id) {
                let k = choose|k: int| 0 <= k < surface_ids(self@).len() && surface_ids(self@)[k] == id;
                assert(self@[k].window == id);
            }
        }
        None
    }

    /// Whether window `id` has a live surface.
    pub fn contains(&self, id: WindowId) -> (r: bool)
        ensures
            r == self.has(id),
    {
        self.position(id).is_some()
    }

    /// The surface of window `id`, if one is live.
    pub fn get(&self, id: WindowId) -> (r: Option<&Surface>)
        ensures
            r is Some <==> self.has(id),
            r matches Some(s) ==> s.window == id && self@.contains(*s),
    {
        match self.position(id) {
            Some(i) => Some(&self.surfaces[i]),
            None => None,
        }
    }

    /// The surface at creation-order position `i`.
    pub fn at(&self, i: usize) -> (r: &Surface)
        requires
            i < self@.len(),
        ensures
            *r == self@[i as int],
    {
        &self.surfaces[i]
    }

    /// Creates the surface of window `id` on `handle`, sized by `attributes`.
    ///
    /// Fails, leaving the registry as it was, when the window already has a
    /// surface or the handle cannot be presented to.
    pub fn create(&mut self, id: WindowId, attributes: WindowAttributes, handle: NativeHandle) -> (r:
        Result<(), SurfaceCreationError>)
        requires
            old(self).wf(),
        ensures
            final(self).wf(),
            old(self).has(id) ==> r == Err::<(), _>(SurfaceCreationError::AlreadyExists),
            !old(self).has(id) && !handle_usable(handle) ==> r == Err::<(), _>(
                SurfaceCreationError::InvalidHandle,
            ),
            r is Ok <==> !old(self).has(id) && handle_usable(handle),
            r is Ok ==> final(self)@ == old(self)@.push(
                (Surface { window: id, attributes, handle }),
            ),
            r is Err ==> final(self)@ == old(self)@,
    {
        if self.contains(id) {
            return Err(SurfaceCreationError::AlreadyExists);
        }
        if !handle.is_usable() {
            return Err(SurfaceCreationError::InvalidHandle);
        }
        let s = Surface { window: id, attributes, handle };
        let ghost before = self@;
        self.surfaces.push(s);
        proof {
            assert(surface_ids(self@) =~= surface_ids(before).push(id));
        }
        Ok(())
    }

    /// Removes and returns the surface of window `id`; does nothing when there is none.
    pub fn destroy(&mut self, id: WindowId) -> (r: Option<Surface>)
        requires
            old(self).wf(),
        ensures
            final(self).wf(),
            !final(self).has(id),
            r is Some <==> old(self).has(id),
            final(self)@ == without_window(old(self)@, id),
            !old(self).has(id) ==> final(self)@ == old(self)@,
            r matches Some(s) ==> s.window == id && old(self)@.contains(s),
            forall|w: WindowId| w != id ==> (final(self).has(w) <==> old(self).has(w)),
    {
        match self.position(id) {
            None => {
                proof {
                    lemma_without_absent(self@, id);
                }
                None
            },
            Some(i) => {
                let ghost before = self@;
                proof {
                    lemma_remove_is_without(before, i as int, id);
                }
                let s = self.surfaces.remove(i);
                proof {
                    let ids = surface_ids(before);
                    assert(ids[i as int] == id);
                    assert(surface_ids(self@) =~= ids.remove(i as int));
                    assert forall|w: WindowId| w != id implies (self.has(w) <==> surface_ids(
                        before,
                    ).contains(w)) by {
                        if self.has(w) {
                            let k = choose|k: int| 0 <= k < surface_ids(self@).len() && surface_ids(self@)[k] == w;
                            if k < i {
                                assert(ids[k] == w);
                            } else {
                                assert(ids[k + 1] == w);
                            }
                        }
                        if ids.contains(w) {
                            let k = choose|k: int| 0 <= k < ids.len() && ids[k] == w;
                            assert(k != i);
                            if k < i {
                                assert(surface_ids(self@)[k] == w);
                            } else {
                                assert(surface_ids(self@)[k - 1] == w);
                            }
                        }
                    }
                    if self.has(id) {
                        let k = choose|k: int| 0 <= k < surface_ids(self@).len() && surface_ids(self@)[k] == id;
                        if k < i {
                            assert(ids[k] == id);
                        } else {
                            assert(ids[k + 1] == id);
                        }
                    }
                }
                Some(s)
            },
        }
    }
}

} // verus!
