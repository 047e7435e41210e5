use vstd::prelude::*;
use vstd::string::StringExecFns;
use crate::catalog::{content_url_of, descriptor_in, DescriptorModel, WindowCatalog, WindowDescriptor};
use crate::keyed::{
    keys_unique, lemma_map_of_contains, lemma_map_of_push, lemma_map_of_remove,
    lemma_map_of_value, map_of,
};

verus! {

/// Why a window operation did not complete.
#[derive(Clone, Copy, Debug, PartialEq, Eq, Structural)]
pub enum WindowError {
    CreateFailed,
    ShowFailed,
    FocusFailed,
    CloseFailed,
    NotFound,
}

/// One live window: its logical identifier and the token of the native window.
#[derive(Debug)]
pub struct RegistryEntry {
    pub id: String,
    pub handle: u64,
}

/// What the windowing layer is asked to do for an open-or-focus request.
#[derive(Debug)]
pub enum OpenStep {
    /// Show and focus the live window with this handle.
    Focus { handle: u64 },
    /// Build a new window from this descriptor, loading `url`.
    Create { descriptor: WindowDescriptor, url: String },
}

/// The authoritative map from window identifier to live window handle.
pub struct WindowRegistry {
    entries: Vec<RegistryEntry>,
}

/// The handle of the live window for `id`, if any.
pub open spec fn lookup(live: Map<Seq<char>, u64>, id: Seq<char>) -> Option<u64> {
    if live.contains_key(id) {
        Some(live[id])
    } else {
        None
    }
}

/// `step` is what an open-or-focus request for `id` asks of the windowing layer: focus
/// the live window, or create one from the catalog's descriptor (or the fallback).
pub open spec fn is_open_step(
    live: Map<Seq<char>, u64>,
    ws: Seq<DescriptorModel>,
    id: Seq<char>,
    step: OpenStep,
) -> bool {
    match step {
        OpenStep::Focus { handle } => lookup(live, id) == Some(handle),
        OpenStep::Create { descriptor, url } => lookup(live, id) is None && descriptor@
            == descriptor_in(ws, id) && url@ == content_url_of(descriptor@),
    }
}

/// The live windows once an open-or-focus request for `id` has run, where `created` is
/// what a creation, if one was needed, gave.
pub open spec fn after_open(live: Map<Seq<char>, u64>, id: Seq<char>, created: Option<u64>) -> Map<
    Seq<char>,
    u64,
> {
    if live.contains_key(id) {
        live
    } else {
        after_create(live, id, created)
    }
}

/// The live windows once a creation for `id` has been attempted.
pub open spec fn after_create(live: Map<Seq<char>, u64>, id: Seq<char>, created: Option<u64>) -> Map<
    Seq<char>,
    u64,
> {
    match created {
        Some(h) => live.insert(id, h),
        None => live,
    }
}

/// The live windows once a close of `id` has been attempted.
pub open spec fn after_close(live: Map<Seq<char>, u64>, id: Seq<char>, closed: bool) -> Map<
    Seq<char>,
    u64,
> {
    if closed {
        live.remove(id)
    } else {
        live
    }
}

/// What a creation attempt reports.
pub open spec fn create_result(created: Option<u64>) -> Result<u64, WindowError> {
    match created {
        Some(h) => Ok(h),
        None => Err(WindowError::CreateFailed),
    }
}

/// What showing and then focusing a live window reports.
pub open spec fn focus_result(shown: bool, focused: bool) -> Result<(), WindowError> {
    if !shown {
        Err(WindowError::ShowFailed)
    } else if !focused {
        Err(WindowError::FocusFailed)
    } else {
        Ok(())
    }
}

/// What a close request resolves to before the windowing layer is asked.
pub open spec fn close_target(live: Map<Seq<char>, u64>, id: Seq<char>) -> Result<u64, WindowError> {
    match lookup(live, id) {
        Some(h) => Ok(h),
        None => Err(WindowError::NotFound),
    }
}

/// What a close attempt on a live window reports.
pub open spec fn close_result(closed: bool) -> Result<(), WindowError> {
    if closed {
        Ok(())
    } else {
        Err(WindowError::CloseFailed)
    }
}

/// The result of showing and then focusing an existing window.
pub fn focus_outcome(shown: bool, focused: bool) -> (r: Result<(), WindowError>)
    ensures
        r == focus_result(shown, focused),
{
    if !shown {
        Err(WindowError::ShowFailed)
    } else if !focused {
        Err(WindowError::FocusFailed)
    } else {
        Ok(())
    }
}

impl WindowRegistry {
    /// The entries as identifier-handle pairs, in insertion order.
    pub closed spec fn pairs(&self) -> Seq<(Seq<char>, u64)> {
        self.entries@.map_values(|e: RegistryEntry| (e.id@, e.handle))
    }

    /// At most one entry per identifier.
    pub closed spec fn wf(&self) -> bool {
        keys_unique(self.pairs())
    }

    pub fn new() -> (r: WindowRegistry)
        ensures
            r.wf(),
            r@ == Map::<Seq<char>, u64>::empty(),
    {
        let r = WindowRegistry { entries: Vec::new() };
        assert(r.pairs() =~= Seq::<(Seq<char>, u64)>::empty());
        r
    }

    fn index_of(&self, id: &str) -> (r: Option<usize>)
        requires
            self.wf(),
        ensures
            match r {
                Some(i) => i < self.pairs().len() && self.pairs()[i as int].0 == id@
                    && lookup(self@, id@) == Some(self.pairs()[i as int].1),
                None => lookup(self@, id@) is None,
            },
    {
        let key = String::from_str(id);
        let n = self.entries.len();
        let mut i: usize = 0;
        while i < n
            invariant
                n == self.pairs().len(),
                i <= n,
                key@ == id@,
                self.wf(),
                forall|j: int| 0 <= j < i ==> self.pairs()[j].0 != id@,
            decreases n - i,
        {
            if self.entries[i].id == key {
                proof {
                    lemma_map_of_value(self.pairs(), i as int);
                }
                return Some(i);
            }
            i = i + 1;
        }
        proof {
            lemma_map_of_contains(self.pairs(), id@);
        }
        None
    }

    /// The handle of the live window for `id`, if there is one.
    pub fn handle_of(&self, id: &str) -> (r: Option<u64>)
        requires
            self.wf(),
        ensures
            r == lookup(self@, id@),
    {
        match self.index_of(id) {
            Some(i) => Some(self.entries[i].handle),
            None => None,
        }
    }

    /// Whether a live window is registered for `id`.
    pub fn contains(&self, id: &str) -> (r: bool)
        requires
            self.wf(),
        ensures
            r == self@.contains_key(id@),
    {
        self.index_of(id).is_some()
    }

    /// Decides how to open `id`: focus its live window, or create one from the catalog's
    /// descriptor (the fallback descriptor when the catalog has none).
    pub fn open_or_focus(&self, id: &str, catalog: &WindowCatalog) -> (r: OpenStep)
        requires
            self.wf(),
        ensures
            is_open_step(self@, catalog@, id@, r),
    {
        match self.handle_of(id) {
            Some(handle) => OpenStep::Focus { handle },
            None => {
                let descriptor = catalog.resolve_or_fallback(id);
                let url = descriptor.content_url();
                OpenStep::Create { descriptor, url }
            },
        }
    }

    /// Records the outcome of a creation for `id`: the new window's handle, or `None`
    /// when the windowing layer refused it (then nothing is registered).
    pub fn finish_create(&mut self, id: &str, created: Option<u64>) -> (r: Result<u64, WindowError>)
        requires
            old(self).wf(),
            !old(self)@.contains_key(id@),
        ensures
            final(self).wf(),
            final(self)@ == after_create(old(self)@, id@, created),
            r == create_result(created),
    {
        match created {
            Some(handle) => {
                proof {
                    lemma_map_of_contains(self.pairs(), id@);
                }
                let ghost before = self.pairs();
                self.entries.push(RegistryEntry { id: String::from_str(id), handle });
                proof {
                    assert(self.pairs() =~= before.push((id@, handle)));
                    lemma_map_of_push(before, id@, handle);
                    assert forall|i: int, j: int|
                        0 <= i < j < self.pairs().len() implies self.pairs()[i].0
                        != self.pairs()[j].0 by {
                        if j == before.len() {
                            assert(before[i].0 != id@);
                        }
                    }
                }
                Ok(handle)
            },
            None => Err(WindowError::CreateFailed),
        }
    }

    fn remove_at(&mut self, i: usize)
        requires
            old(self).wf(),
            i < old(self).pairs().len(),
        ensures
            final(self).wf(),
            final(self)@ == old(self)@.remove(old(self).pairs()[i as int].0),
    {
        let ghost before = self.pairs();
        self.entries.remove(i);
        proof {
            assert(self.pairs() =~= before.remove(i as int));
            lemma_map_of_remove(before, i as int);
        }
    }

    /// Which window a close of `id` applies to: `NotFound` when none is live.
    pub fn close(&self, id: &str) -> (r: Result<u64, WindowError>)
        requires
            self.wf(),
        ensures
            r == close_target(self@, id@),
    {
        match self.handle_of(id) {
            Some(h) => Ok(h),
            None => Err(WindowError::NotFound),
        }
    }

    /// Records the outcome of closing the live window for `id`: on success the entry
    /// goes, on failure it stays.
    pub fn finish_close(&mut self, id: &str, closed: bool) -> (r: Result<(), WindowError>)
        requires
            old(self).wf(),
            old(self)@.contains_key(id@),
        ensures
            final(self).wf(),
            final(self)@ == after_close(old(self)@, id@, closed),
            r == close_result(closed),
    {
        if closed {
            self.remove_on_destroyed(id);
            Ok(())
        } else {
            Err(WindowError::CloseFailed)
        }
    }

    /// Forgets the window for `id`, which the windowing layer reported destroyed;
    /// nothing happens when none is registered.
    pub fn remove_on_destroyed(&mut self, id: &str)
        requires
            old(self).wf(),
        ensures
            final(self).wf(),
            final(self)@ == old(self)@.remove(id@),
    {
        match self.index_of(id) {
            Some(i) => self.remove_at(i),
            None => {
                assert(self@ =~= self@.remove(id@));
            },
        }
    }

    /// The identifiers of all live windows, each once.
    pub fn list(&self) -> (r: Vec<String>)
        requires
            self.wf(),
        ensures
            forall|k: Seq<char>| self@.contains_key(k) <==> exists|i: int| 0 <= i < r@.len() && r@[i]@ == k,
            forall|i: int, j: int| 0 <= i < j < r@.len() ==> r@[i]@ != r@[j]@,
    {
        let mut r: Vec<String> = Vec::new();
        let n = self.entries.len();
        let mut i: usize = 0;
        while i < n
            invariant
                n == self.pairs().len(),
                i <= n,
                r@.len() == i,
                forall|j: int| 0 <= j < i ==> r@[j]@ == self.pairs()[j].0,
            decreases n - i,
        {
            r.push(self.entries[i].id.clone());
            i = i + 1;
        }
        proof {
            assert forall|k: Seq<char>| self@.contains_key(k) <==> exists|i: int| 0 <= i < r@.len() && r@[i]@ == k by {
                lemma_map_of_contains(self.pairs(), k);
                if self@.contains_key(k) {
                    let j = choose|j: int| 0 <= j < self.pairs().len() && self.pairs()[j].0 == k;
                    assert(r@[j]@ == k);
                }
                if exists|i: int| 0 <= i < r@.len() && r@[i]@ == k {
                    let j = choose|j: int| 0 <= j < r@.len() && r@[j]@ == k;
                    assert(self.pairs()[j].0 == k);
                }
            }
        }
        r
    }
}

impl View for WindowRegistry {
    type V = Map<Seq<char>, u64>;

    open spec fn view(&self) -> Map<Seq<char>, u64> {
        map_of(self.pairs())
    }
}

} // verus!
