use vstd::prelude::*;
use vstd::string::StringExecFns;
use crate::catalog::{DescriptorModel, WindowCatalog};
use crate::registry::{
    after_close, after_create, close_result, close_target, create_result, is_open_step, OpenStep,
    WindowError, WindowRegistry,
};
use crate::shortcuts::{after_register, register_result, Chord, ShortcutError, ShortcutTable};

verus! {

/// A notification for the event sink: an event name and the window identifier it is about.
#[derive(Debug)]
pub struct LifecycleEvent {
    pub name: String,
    pub id: String,
}

impl View for LifecycleEvent {
    type V = (Seq<char>, Seq<char>);

    open spec fn view(&self) -> (Seq<char>, Seq<char>) {
        (self.name@, self.id@)
    }
}

/// The event published when the window `id` is destroyed.
pub open spec fn closed_event(id: Seq<char>) -> (Seq<char>, Seq<char>) {
    ("window-closed"@, id)
}

/// What a window manager holds, as mathematical values.
pub struct ManagerModel {
    /// Live windows: identifier to handle.
    pub live: Map<Seq<char>, u64>,
    /// Shortcut bindings: chord to window identifier.
    pub bound: Map<Chord, Seq<char>>,
    /// Events waiting to be handed to the event sink, oldest first.
    pub events: Seq<(Seq<char>, Seq<char>)>,
    /// The window catalog.
    pub catalog: Seq<DescriptorModel>,
}

/// The window registry, the shortcut table and the lifecycle notifier behind one owner,
/// so that one lock around it serialises every mutation.
///
/// The windowing layer works outside: a request returns the step to perform (create,
/// focus, close), and the caller reports what that step gave back through the matching
/// `finish_` method.
pub struct WindowManager {
    catalog: WindowCatalog,
    registry: WindowRegistry,
    shortcuts: ShortcutTable,
    outbox: Vec<LifecycleEvent>,
}

impl View for WindowManager {
    type V = ManagerModel;

    closed spec fn view(&self) -> ManagerModel {
        ManagerModel {
            live: self.registry@,
            bound: self.shortcuts@,
            events: self.outbox@.map_values(|e: LifecycleEvent| e@),
            catalog: self.catalog@,
        }
    }
}

impl WindowManager {
    /// One entry per live identifier and one binding per chord.
    pub closed spec fn wf(&self) -> bool {
        self.registry.wf() && self.shortcuts.wf()
    }

    /// A manager over `catalog` with no live window, no binding and no pending event.
    pub fn new(catalog: WindowCatalog) -> (r: WindowManager)
        ensures
            r.wf(),
            r@.live == Map::<Seq<char>, u64>::empty(),
            r@.bound == Map::<Chord, Seq<char>>::empty(),
            r@.events == Seq::<(Seq<char>, Seq<char>)>::empty(),
            r@.catalog == catalog@,
    {
        let r = WindowManager {
            catalog,
            registry: WindowRegistry::new(),
            shortcuts: ShortcutTable::new(),
            outbox: Vec::new(),
        };
        assert(r@.events =~= Seq::<(Seq<char>, Seq<char>)>::empty());
        r
    }

    /// The step that opens or focuses `id`.
    pub fn open_or_focus(&self, id: &str) -> (r: OpenStep)
        requires
            self.wf(),
        ensures
            is_open_step(self@.live, self@.catalog, id@, r),
    {
        self.registry.open_or_focus(id, &self.catalog)
    }

    /// Records the outcome of the creation that `open_or_focus` asked for.
    pub fn finish_create(&mut self, id: &str, created: Option<u64>) -> (r: Result<u64, WindowError>)
        requires
            old(self).wf(),
            !old(self)@.live.contains_key(id@),
        ensures
            final(self).wf(),
            final(self)@ == (ManagerModel {
                live: after_create(old(self)@.live, id@, created),
                ..old(self)@
            }),
            r == create_result(created),
    {
        self.registry.finish_create(id, created)
    }

    /// The handle of the window that a close of `id` applies to; `NotFound` when none is live.
    pub fn close(&self, id: &str) -> (r: Result<u64, WindowError>)
        requires
            self.wf(),
        ensures
            r == close_target(self@.live, id@),
    {
        self.registry.close(id)
    }

    /// Records the outcome of closing the live window for `id`.
    pub fn finish_close(&mut self, id: &str, closed: bool) -> (r: Result<(), WindowError>)
        requires
            old(self).wf(),
            old(self)@.live.contains_key(id@),
        ensures
            final(self).wf(),
            final(self)@ == (ManagerModel {
                live: after_close(old(self)@.live, id@, closed),
                ..old(self)@
            }),
            r == close_result(closed),
    {
        self.registry.finish_close(id, closed)
    }

    /// The identifiers of all live windows, each once.
    pub fn list(&self) -> (r: Vec<String>)
        requires
            self.wf(),
        ensures
            forall|k: Seq<char>|
                self@.live.contains_key(k) <==> exists|i: int| 0 <= i < r@.len() && r@[i]@ == k,
            forall|i: int, j: int| 0 <= i < j < r@.len() ==> r@[i]@ != r@[j]@,
    {
        self.registry.list()
    }

    /// Binds `chord` to open or focus `target`; `DuplicateChord` when it is bound already.
    pub fn register_shortcut(&mut self, chord: Chord, target: &str) -> (r: Result<(), ShortcutError>)
        requires
            old(self).wf(),
        ensures
            final(self).wf(),
            final(self)@ == (ManagerModel {
                bound: after_register(old(self)@.bound, chord, target@),
                ..old(self)@
            }),
            r == register_result(old(self)@.bound, chord),
    {
        self.shortcuts.register(chord, target)
    }

    /// Removes the binding of `chord`; `NotBound` when there is none.
    pub fn unregister_shortcut(&mut self, chord: Chord) -> (r: Result<(), ShortcutError>)
        requires
            old(self).wf(),
        ensures
            final(self).wf(),
            final(self)@ == (ManagerModel { bound: old(self)@.bound.remove(chord), ..old(self)@ }),
            r is Ok <==> old(self)@.bound.contains_key(chord),
            r is Err ==> r == Err::<(), ShortcutError>(ShortcutError::NotBound),
    {
        self.shortcuts.unregister(chord)
    }

    /// Whether `chord` is bound.
    pub fn is_shortcut_registered(&self, chord: Chord) -> (r: bool)
        requires
            self.wf(),
        ensures
            r == self@.bound.contains_key(chord),
    {
        self.shortcuts.is_registered(chord)
    }

    /// Dispatches a pressed chord: the window identifier it is bound to with the
    /// open-or-focus step for that window, or `None` when it is bound to none (the trigger
    /// is dropped).
    pub fn on_trigger(&self, chord: Chord) -> (r: Option<(String, OpenStep)>)
        requires
            self.wf(),
        ensures
            match r {
                Some((target, step)) => self@.bound.contains_key(chord) && self@.bound[chord]
                    == target@ && is_open_step(self@.live, self@.catalog, target@, step),
                None => !self@.bound.contains_key(chord),
            },
    {
        match self.shortcuts.resolve(chord) {
            Some(target) => {
                let step = self.registry.open_or_focus(target.as_str(), &self.catalog);
                Some((target, step))
            },
            None => None,
        }
    }

    /// Whether a live window is registered for `id`.
    pub fn is_open(&self, id: &str) -> (r: bool)
        requires
            self.wf(),
        ensures
            r == self@.live.contains_key(id@),
    {
        self.registry.contains(id)
    }

    /// Handles the windowing layer's report that the window `id` was destroyed: first the
    /// registry forgets it, then one `window-closed` event for `id` is queued.
    pub fn on_window_destroyed(&mut self, id: &str)
        requires
            old(self).wf(),
        ensures
            final(self).wf(),
            final(self)@ == (ManagerModel {
                live: old(self)@.live.remove(id@),
                events: old(self)@.events.push(closed_event(id@)),
                ..old(self)@
            }),
    {
        self.registry.remove_on_destroyed(id);
        let event = LifecycleEvent { name: String::from_str("window-closed"), id: String::from_str(id) };
        self.outbox.push(event);
        assert(self@.events =~= old(self)@.events.push(closed_event(id@)));
    }

    /// Hands over the queued events, oldest first, and empties the queue.
    pub fn take_events(&mut self) -> (r: Vec<LifecycleEvent>)
        requires
            old(self).wf(),
        ensures
            final(self).wf(),
            r@.map_values(|e: LifecycleEvent| e@) == old(self)@.events,
            final(self)@ == (ManagerModel { events: Seq::empty(), ..old(self)@ }),
    {
        let mut r: Vec<LifecycleEvent> = Vec::new();
        std::mem::swap(&mut r, &mut self.outbox);
        assert(self@.events =~= Seq::<(Seq<char>, Seq<char>)>::empty());
        r
    }
}

} // verus!
