//! The local variable scope of one function-checking pass.
//!
//! A mutable mapping from identifier to type, created per function, populated
//! with the parameters, mutated while the body is walked, and discarded at
//! function exit. It is modelled as a `Map<Seq<char>, SpecType>`; the
//! entries carry each name at most once.

use vstd::prelude::*;

use crate::ast::{Ident, Type};
use crate::model::{view_type, SpecType};

verus! {

/// One bound name and its type.
pub struct Binding {
    pub name: Ident,
    pub typ: Type,
}

/// The scope: a mapping from identifier to type, local to one function
/// body's checking pass.
pub struct Scope {
    entries: Vec<Binding>,
}

/// The mapping a sequence of bindings denotes; a later entry for the same
/// name would win, but well-formed scopes carry each name once.
pub open spec fn bindings_map(s: Seq<Binding>) -> Map<Seq<char>, SpecType>
    decreases s,
{
    if s.len() == 0 {
        Map::empty()
    } else {
        bindings_map(s.drop_last()).insert(s.last().name@, view_type(s.last().typ))
    }
}

/// A well-formed binding sequence names each variable at most once.
pub open spec fn bindings_wf(s: Seq<Binding>) -> bool {
    forall|i: int, j: int| 0 <= i < j < s.len() ==> s[i].name@ != s[j].name@
}

/// The denoted map contains exactly the bound names, each at its binding's
/// type.
pub proof fn lemma_bindings_map(s: Seq<Binding>)
    ensures
        forall|k: Seq<char>|
            #[trigger] bindings_map(s).contains_key(k) <==> exists|i: int|
                0 <= i < s.len() && s[i].name@ == k,
        bindings_wf(s) ==> forall|i: int|
            0 <= i < s.len() ==> bindings_map(s)[#[trigger] s[i].name@] == view_type(s[i].typ),
    decreases s,
{
    if s.len() > 0 {
        lemma_bindings_map(s.drop_last());
        assert forall|k: Seq<char>| #[trigger]
            bindings_map(s).contains_key(k) implies exists|i: int|
            0 <= i < s.len() && s[i].name@ == k by {
            if k == s.last().name@ {
                assert(s[s.len() - 1].name@ == k);
            } else {
                let i = choose|i: int| 0 <= i < s.drop_last().len() && s.drop_last()[i].name@ == k;
                assert(s[i].name@ == k);
            }
        }
        assert forall|k: Seq<char>| (exists|i: int|
            0 <= i < s.len() && s[i].name@ == k) implies #[trigger]
            bindings_map(s).contains_key(k) by {
            let i = choose|i: int| 0 <= i < s.len() && s[i].name@ == k;
            if i < s.len() - 1 {
                assert(s.drop_last()[i].name@ == k);
            }
        }
        if bindings_wf(s) {
            assert forall|i: int| 0 <= i < s.len() implies bindings_map(s)[#[trigger] s[i].name@]
                == view_type(s[i].typ) by {
                if i < s.len() - 1 {
                    assert(s[i].name@ != s.last().name@);
                    assert(s.drop_last()[i].name@ == s[i].name@);
                }
            }
        }
    }
}

impl Scope {
    /// Each name is bound at most once.
    pub closed spec fn wf(self) -> bool {
        bindings_wf(self.entries@)
    }

    /// The mapping this scope denotes.
    pub closed spec fn as_map(self) -> Map<Seq<char>, SpecType> {
        bindings_map(self.entries@)
    }

    /// An empty scope.
    pub fn new() -> (s: Scope)
        ensures
            s.wf(),
            s.as_map() == Map::<Seq<char>, SpecType>::empty(),
    {
        Scope { entries: Vec::new() }
    }

    /// Empties the scope; every binding is dropped.
    pub fn clear(&mut self)
        ensures
            final(self).wf(),
            final(self).as_map() == Map::<Seq<char>, SpecType>::empty(),
    {
        self.entries.clear();
    }

    /// Looks a name up: the bound type, or `None` for an unbound name.
    pub fn get(&self, name: &Ident) -> (r: Option<&Type>)
        requires
            self.wf(),
        ensures
            match r {
                Some(t) => self.as_map().contains_key(name@) && view_type(*t)
                    == self.as_map()[name@],
                None => !self.as_map().contains_key(name@),
            },
    {
        proof {
            lemma_bindings_map(self.entries@);
        }
        let n = self.entries.len();
        let mut i: usize = 0;
        while i < n
            invariant
                n == self.entries.len(),
                self.wf(),
                0 <= i <= n,
                forall|j: int| 0 <= j < i ==> self.entries@[j].name@ != name@,
            decreases n - i,
        {
            if self.entries[i].name == *name {
                proof {
                    lemma_bindings_map(self.entries@);
                }
                return Some(&self.entries[i].typ);
            }
            i += 1;
        }
        return None;
    }

    /// Removing a binding removes exactly its name from the map.
    proof fn lemma_remove_at(s: Seq<Binding>, i: int)
        requires
            bindings_wf(s),
            0 <= i < s.len(),
        ensures
            bindings_map(s.remove(i)) == bindings_map(s).remove(s[i].name@),
        decreases s,
    {
        lemma_bindings_map(s);
        lemma_bindings_map(s.remove(i));
        if i == s.len() - 1 {
            assert(s.remove(i) =~= s.drop_last());
            lemma_bindings_map(s.drop_last());
            assert forall|j: int| 0 <= j < s.drop_last().len() implies s.drop_last()[j].name@
                != s[i].name@ by {}
            assert(bindings_map(s.drop_last()) =~= bindings_map(s).remove(s.last().name@));
        } else {
            let t = s.remove(i);
            assert(t.len() == s.len() - 1);
            assert(t.drop_last() =~= s.drop_last().remove(i));
            assert(t.last() == s.last());
            Self::lemma_remove_at(s.drop_last(), i);
            assert(bindings_map(t) == bindings_map(s.drop_last().remove(i)).insert(
                s.last().name@,
                view_type(s.last().typ),
            ));
            assert(bindings_map(s.drop_last().remove(i)) == bindings_map(s.drop_last()).remove(
                s.drop_last()[i].name@,
            ));
            assert(s.drop_last()[i].name@ == s[i].name@);
            assert(s[i].name@ != s.last().name@);
            assert(bindings_map(s.drop_last()).remove(s[i].name@).insert(
                s.last().name@,
                view_type(s.last().typ),
            ) =~= bindings_map(s).remove(s[i].name@));
        }
    }

    /// Unbinds a name; unbinding an absent name changes nothing.
    pub fn remove(&mut self, name: &Ident)
        requires
            old(self).wf(),
        ensures
            final(self).wf(),
            final(self).as_map() == old(self).as_map().remove(name@),
    {
        proof {
            lemma_bindings_map(self.entries@);
        }
        let n = self.entries.len();
        let mut i: usize = 0;
        while i < n
            invariant
                n == self.entries.len(),
                self == old(self),
                self.wf(),
                0 <= i <= n,
                forall|j: int| 0 <= j < i ==> self.entries@[j].name@ != name@,
            decreases n - i,
        {
            if self.entries[i].name == *name {
                proof {
                    Self::lemma_remove_at(self.entries@, i as int);
                }
                self.entries.remove(i);
                assert(final(self).wf()) by {
                    assert(forall|p: int, q: int|
                        0 <= p < q < self.entries@.len() ==> self.entries@[p].name@
                            != self.entries@[q].name@);
                }
                return ;
            }
            i += 1;
        }
        proof {
            assert(!self.as_map().contains_key(name@));
            assert(self.as_map().remove(name@) =~= self.as_map());
        }
    }

    /// Binds a name to a type; a previous binding of the same name is
    /// replaced.
    pub fn insert(&mut self, name: Ident, typ: Type)
        requires
            old(self).wf(),
        ensures
            final(self).wf(),
            final(self).as_map() == old(self).as_map().insert(name@, view_type(typ)),
    {
        self.remove(&name);
        let ghost pre = self.entries@;
        proof {
            lemma_bindings_map(pre);
            assert(!bindings_map(pre).contains_key(name@));
        }
        self.entries.push(Binding { name, typ });
        proof {
            assert(self.entries@.drop_last() =~= pre);
            assert(forall|j: int| 0 <= j < pre.len() ==> pre[j].name@ != self.entries@.last().name@);
            assert(self.as_map() =~= old(self).as_map().remove(self.entries@.last().name@).insert(
                self.entries@.last().name@,
                view_type(self.entries@.last().typ),
            ));
            assert(self.as_map() =~= old(self).as_map().insert(
                self.entries@.last().name@,
                view_type(self.entries@.last().typ),
            ));
        }
    }
}

} // verus!
