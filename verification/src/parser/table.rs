//! The declarations of one kind that a document type definition holds, each
//! under the name it declares.

use vstd::prelude::*;
use vstd::std_specs::cmp::PartialEqSpecImpl;
use crate::repr::Repr;
use crate::text::same_text;
use crate::parser::xml::{DTDDecl, DeclView};

verus! {

/// Declarations keyed by name. No name occurs twice. Two tables are equal
/// if they hold the same declarations under the same names, in whatever
/// order these were recorded.
#[derive(Debug)]
pub struct DeclTable {
    entries: Vec<(String, DTDDecl)>,
}

impl PartialEq for DeclTable {
    fn eq(&self, other: &DeclTable) -> (r: bool) {
        let r = self.within(other) && other.within(self);
        proof {
            if r {
                assert(self@.dom() =~= other@.dom());
                assert(self@ =~= other@);
            }
        }
        r
    }
}

impl PartialEqSpecImpl for DeclTable {
    open spec fn obeys_eq_spec() -> bool {
        true
    }

    open spec fn eq_spec(&self, other: &DeclTable) -> bool {
        self@ == other@
    }
}

impl Clone for DeclTable {
    fn clone(&self) -> (t: DeclTable)
        ensures
            t@ == self@,
    {
        self.duplicate()
    }
}

impl DeclTable {
    /// No two entries have the same name.
    #[verifier::type_invariant]
    closed spec fn wf(&self) -> bool {
        forall|i: int, j: int|
            0 <= i < j < self.entries@.len() ==> self.entries@[i].0@ != self.entries@[j].0@
    }

    /// Whether entry `i` is the one for `name`.
    spec fn holds(&self, i: int, name: Seq<char>) -> bool {
        0 <= i < self.entries@.len() && self.entries@[i].0@ == name
    }

    /// The declarations, by name.
    pub closed spec fn view(&self) -> Map<Seq<char>, DeclView> {
        Map::new(
            |name: Seq<char>| exists|i: int| self.holds(i, name),
            |name: Seq<char>| self.entries@[choose|i: int| self.holds(i, name)].1.repr(),
        )
    }

    /// A table without declarations.
    pub fn new() -> (t: DeclTable)
        ensures
            t@ == Map::<Seq<char>, DeclView>::empty(),
    {
        let t = DeclTable { entries: Vec::new() };
        proof {
            assert(t@ =~= Map::<Seq<char>, DeclView>::empty());
        }
        t
    }

    /// The index of the entry for `name`, if there is one.
    fn position(&self, name: &String) -> (r: Option<usize>)
        ensures
            match r {
                Some(i) => self.holds(i as int, name@),
                None => forall|i: int| !self.holds(i, name@),
            },
    {
        let mut i: usize = 0;
        while i < self.entries.len()
            invariant
                i <= self.entries.len(),
                forall|j: int| 0 <= j < i ==> !self.holds(j, name@),
            decreases self.entries.len() - i,
        {
            if same_text(&self.entries[i].0, name) {
                return Some(i);
            }
            i = i + 1;
        }
        None
    }

    /// Whether `other` holds every declaration of `self`, under the same name.
    fn within(&self, other: &DeclTable) -> (r: bool)
        ensures
            r == (forall|name: Seq<char>| #[trigger]
                self@.contains_key(name) ==> other@.contains_key(name) && other@[name]
                    == self@[name]),
    {
        proof {
            use_type_invariant(self);
        }
        let mut i: usize = 0;
        while i < self.entries.len()
            invariant
                i <= self.entries@.len(),
                self.wf(),
                forall|j: int|
                    0 <= j < i ==> other@.contains_key(#[trigger] self.entries@[j].0@)
                        && other@[self.entries@[j].0@] == self.entries@[j].1.repr(),
            decreases self.entries@.len() - i,
        {
            let ghost name = self.entries@[i as int].0@;
            proof {
                assert(self.holds(i as int, name));
                let c = choose|j: int| self.holds(j, name);
                assert(c == i);
            }
            let same = match other.get(&self.entries[i].0) {
                Some(d) => d.same_as(&self.entries[i].1),
                None => false,
            };
            if !same {
                proof {
                    assert(self@.contains_key(name));
                }
                return false;
            }
            i = i + 1;
        }
        proof {
            assert forall|name: Seq<char>| #[trigger]
                self@.contains_key(name) implies other@.contains_key(name) && other@[name]
                == self@[name] by {
                let c = choose|j: int| self.holds(j, name);
                assert(self.holds(c, name));
            }
        }
        true
    }

    /// The declaration under `name`, if there is one.
    pub fn get(&self, name: &String) -> (r: Option<&DTDDecl>)
        ensures
            match r {
                Some(d) => self@.contains_key(name@) && self@[name@] == d.repr(),
                None => !self@.contains_key(name@),
            },
    {
        proof {
            use_type_invariant(self);
        }
        match self.position(name) {
            Some(i) => {
                proof {
                    let c = choose|j: int| self.holds(j, name@);
                    assert(c == i);
                }
                Some(&self.entries[i].1)
            },
            None => None,
        }
    }

    /// The table with `decl` under `name`, in place of what was there.
    pub fn insert(self, name: String, decl: DTDDecl) -> (t: DeclTable)
        ensures
            t@ == self@.insert(name@, decl.repr()),
    {
        proof {
            use_type_invariant(&self);
        }
        let found = self.position(&name);
        let mut entries = self.entries;
        let ghost at: int;
        match found {
            Some(i) => {
                entries.set(i, (name, decl));
                proof {
                    at = i as int;
                }
            },
            None => {
                entries.push((name, decl));
                proof {
                    at = entries@.len() - 1;
                    assert forall|i: int|
                        0 <= i < self.entries@.len() implies self.entries@[i].0@ != name@ by {
                        assert(!self.holds(i, name@));
                    }
                }
            },
        }
        proof {
            assert(entries@[at] == (name, decl));
            assert forall|i: int| 0 <= i < entries@.len() && i != at implies entries@[i]
                == self.entries@[i] && self.entries@[i].0@ != name@ by {
                if self.holds(at, name@) {
                    assert(self.entries@[i].0@ != self.entries@[at].0@);
                }
            }
        }
        let t = DeclTable { entries };
        proof {
            assert(t.holds(at, name@));
            let j = choose|j: int| t.holds(j, name@);
            assert(j == at);
            let after = self@.insert(name@, decl.repr());
            assert forall|k: Seq<char>| #[trigger] t@.dom().contains(k) == after.dom().contains(k)
                && (t@.dom().contains(k) ==> t@[k] == after[k]) by {
                if k != name@ {
                    if self@.dom().contains(k) {
                        let i = choose|i: int| self.holds(i, k);
                        assert(t.holds(i, k));
                        let j = choose|j: int| t.holds(j, k);
                        assert(j == i);
                    }
                    if t@.dom().contains(k) {
                        let j = choose|j: int| t.holds(j, k);
                        assert(self.holds(j, k));
                    }
                }
            }
            assert(t@.dom() =~= after.dom());
            assert(t@ =~= after);
        }
        t
    }

    /// A copy that holds the same declarations.
    pub fn duplicate(&self) -> (t: DeclTable)
        ensures
            t@ == self@,
    {
        proof {
            use_type_invariant(self);
        }
        let mut entries: Vec<(String, DTDDecl)> = Vec::new();
        let mut i: usize = 0;
        while i < self.entries.len()
            invariant
                i <= self.entries.len(),
                entries@.len() == i,
                forall|j: int|
                    0 <= j < i ==> entries@[j].0@ == self.entries@[j].0@ && entries@[j].1.repr()
                        == self.entries@[j].1.repr(),
            decreases self.entries.len() - i,
        {
            entries.push((self.entries[i].0.clone(), self.entries[i].1.duplicate()));
            i = i + 1;
        }
        let t = DeclTable { entries };
        proof {
            assert(t@.dom() =~= self@.dom()) by {
                assert forall|k: Seq<char>| t@.contains_key(k) <==> self@.contains_key(k) by {
                    if self@.contains_key(k) {
                        let i = choose|i: int| self.holds(i, k);
                        assert(t.holds(i, k));
                    }
                    if t@.contains_key(k) {
                        let j = choose|j: int| t.holds(j, k);
                        assert(self.holds(j, k));
                    }
                }
            }
            assert forall|k: Seq<char>| (t@.contains_key(k) <==> self@.contains_key(k)) && (
            t@.contains_key(k) ==> t@[k] == self@[k]) by {
                if self@.contains_key(k) {
                    let i = choose|i: int| self.holds(i, k);
                    assert(t.holds(i, k));
                }
                if t@.contains_key(k) {
                    let j = choose|j: int| t.holds(j, k);
                    assert(self.holds(j, k));
                    let i = choose|i: int| self.holds(i, k);
                    assert(t.holds(i, k));
                    assert(i == j);
                }
            }
            assert(t@ =~= self@);
        }
        t
    }
}

} // verus!
