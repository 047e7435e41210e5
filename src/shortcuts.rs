use vstd::prelude::*;
use vstd::string::StringExecFns;
use crate::keyed::{
    keys_unique, lemma_map_of_contains, lemma_map_of_push, lemma_map_of_remove,
    lemma_map_of_value, map_of,
};

verus! {

/// A modifier set plus one base key, compared by value. `primary` is the platform's
/// main modifier: meta on one platform, ctrl on another.
#[derive(Clone, Copy, Debug, PartialEq, Eq, Structural)]
pub struct Chord {
    pub primary: bool,
    pub alt: bool,
    pub shift: bool,
    /// An ASCII upper-case letter or digit.
    pub key: u8,
}

/// Why a shortcut table operation was rejected.
#[derive(Clone, Copy, Debug, PartialEq, Eq, Structural)]
pub enum ShortcutError {
    DuplicateChord,
    NotBound,
}

/// The normal form of a base key (ASCII codes: `0`-`9` are 48-57, `A`-`Z` 65-90,
/// `a`-`z` 97-122): digits and upper-case letters as they are,
/// lower-case letters folded to upper case, anything else refused.
pub open spec fn normal_key(b: u8) -> Option<u8> {
    if (48 <= b <= 57) || (65 <= b <= 90) {
        Some(b)
    } else if 97 <= b <= 122 {
        Some((b - 32) as u8)
    } else {
        None
    }
}

/// What registering a binding for `chord` reports.
pub open spec fn register_result(bound: Map<Chord, Seq<char>>, chord: Chord) -> Result<(), ShortcutError> {
    if bound.contains_key(chord) {
        Err(ShortcutError::DuplicateChord)
    } else {
        Ok(())
    }
}

/// The bindings once `chord` has been offered for `target`: an existing binding is kept.
pub open spec fn after_register(bound: Map<Chord, Seq<char>>, chord: Chord, target: Seq<char>) -> Map<
    Chord,
    Seq<char>,
> {
    if bound.contains_key(chord) {
        bound
    } else {
        bound.insert(chord, target)
    }
}

impl Chord {
    /// The chord of the given modifiers and key; `None` when the key is not an ASCII
    /// letter or digit.
    pub fn new(primary: bool, alt: bool, shift: bool, key: u8) -> (r: Option<Chord>)
        ensures
            match normal_key(key) {
                Some(k) => r == Some(Chord { primary, alt, shift, key: k }),
                None => r is None,
            },
    {
        if (48 <= key && key <= 57) || (65 <= key && key <= 90) {
            Some(Chord { primary, alt, shift, key })
        } else if 97 <= key && key <= 122 {
            Some(Chord { primary, alt, shift, key: key - 32 })
        } else {
            None
        }
    }
}

/// One binding: pressing `chord` opens or focuses the window `target`.
#[derive(Debug)]
pub struct Binding {
    pub chord: Chord,
    pub target: String,
}

/// The bindings from chords to window identifiers, at most one per chord.
pub struct ShortcutTable {
    bindings: Vec<Binding>,
}

impl ShortcutTable {
    /// The bindings as chord-target pairs, in insertion order.
    pub closed spec fn pairs(&self) -> Seq<(Chord, Seq<char>)> {
        self.bindings@.map_values(|b: Binding| (b.chord, b.target@))
    }

    /// At most one binding per chord.
    pub closed spec fn wf(&self) -> bool {
        keys_unique(self.pairs())
    }

    pub fn new() -> (r: ShortcutTable)
        ensures
            r.wf(),
            r@ == Map::<Chord, Seq<char>>::empty(),
    {
        let r = ShortcutTable { bindings: Vec::new() };
        assert(r.pairs() =~= Seq::<(Chord, Seq<char>)>::empty());
        r
    }

    fn index_of(&self, chord: Chord) -> (r: Option<usize>)
        requires
            self.wf(),
        ensures
            match r {
                Some(i) => i < self.pairs().len() && self.pairs()[i as int].0 == chord
                    && self@.contains_key(chord) && self@[chord] == self.pairs()[i as int].1,
                None => !self@.contains_key(chord),
            },
    {
        let n = self.bindings.len();
        let mut i: usize = 0;
        while i < n
            invariant
                n == self.pairs().len(),
                i <= n,
                self.wf(),
                forall|j: int| 0 <= j < i ==> self.pairs()[j].0 != chord,
            decreases n - i,
        {
            if self.bindings[i].chord == chord {
                proof {
                    lemma_map_of_value(self.pairs(), i as int);
                }
                return Some(i);
            }
            i = i + 1;
        }
        proof {
            lemma_map_of_contains(self.pairs(), chord);
        }
        None
    }

    /// Binds `chord` to `target`. A chord that is already bound, to any target, is
    /// refused with `DuplicateChord` and its binding stays as it was.
    pub fn register(&mut self, chord: Chord, target: &str) -> (r: Result<(), ShortcutError>)
        requires
            old(self).wf(),
        ensures
            final(self).wf(),
            r == register_result(old(self)@, chord),
            final(self)@ == after_register(old(self)@, chord, target@),
    {
        match self.index_of(chord) {
            Some(_) => Err(ShortcutError::DuplicateChord),
            None => {
                proof {
                    lemma_map_of_contains(self.pairs(), chord);
                }
                let ghost before = self.pairs();
                self.bindings.push(Binding { chord, target: String::from_str(target) });
                proof {
                    assert(self.pairs() =~= before.push((chord, target@)));
                    lemma_map_of_push(before, chord, target@);
                    assert forall|i: int, j: int|
                        0 <= i < j < self.pairs().len() implies self.pairs()[i].0
                        != self.pairs()[j].0 by {
                        if j == before.len() {
                            assert(before[i].0 != chord);
                        }
                    }
                }
                Ok(())
            },
        }
    }

    /// Removes the binding of `chord`; `NotBound` when there is none.
    pub fn unregister(&mut self, chord: Chord) -> (r: Result<(), ShortcutError>)
        requires
            old(self).wf(),
        ensures
            final(self).wf(),
            final(self)@ == old(self)@.remove(chord),
            r is Ok <==> old(self)@.contains_key(chord),
            r is Err ==> r == Err::<(), ShortcutError>(ShortcutError::NotBound),
    {
        match self.index_of(chord) {
            Some(i) => {
                let ghost before = self.pairs();
                self.bindings.remove(i);
                proof {
                    assert(self.pairs() =~= before.remove(i as int));
                    lemma_map_of_remove(before, i as int);
                }
                Ok(())
            },
            None => {
                assert(self@ =~= self@.remove(chord));
                Err(ShortcutError::NotBound)
            },
        }
    }

    /// The window that `chord` is bound to, if any.
    pub fn resolve(&self, chord: Chord) -> (r: Option<String>)
        requires
            self.wf(),
        ensures
            match r {
                Some(t) => self@.contains_key(chord) && self@[chord] == t@,
                None => !self@.contains_key(chord),
            },
    {
        match self.index_of(chord) {
            Some(i) => Some(self.bindings[i].target.clone()),
            None => None,
        }
    }

    /// Whether `chord` is bound.
    pub fn is_registered(&self, chord: Chord) -> (r: bool)
        requires
            self.wf(),
        ensures
            r == self@.contains_key(chord),
    {
        self.index_of(chord).is_some()
    }
}

impl View for ShortcutTable {
    type V = Map<Chord, Seq<char>>;

    open spec fn view(&self) -> Map<Chord, Seq<char>> {
        map_of(self.pairs())
    }
}

} // verus!
