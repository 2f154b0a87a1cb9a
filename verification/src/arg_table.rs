//! The argument slots of a kernel and the names given to some of them.
//!
//! The table keeps books only: which kind of argument each slot was made
//! for, and which slot each name stands for. The values live in the driver.

use vstd::prelude::*;
use crate::driver::ArgKind;
use crate::error::{Error, ErrorView};

verus! {

/// An [`ArgTable`] as a mathematical value: the kinds of its slots in the
/// order of their indices, and the slot that each name stands for.
pub struct ArgTableView {
    pub slots: Seq<ArgKind>,
    pub names: Map<Seq<char>, u32>,
}

impl ArgTableView {
    /// The table without slots or names.
    pub open spec fn empty() -> ArgTableView {
        ArgTableView { slots: Seq::empty(), names: Map::empty() }
    }

    /// The table with one more slot at its end.
    pub open spec fn allocate(self, kind: ArgKind) -> ArgTableView {
        ArgTableView { slots: self.slots.push(kind), names: self.names }
    }

    /// The table in which `name` stands for `index`, whatever it stood for.
    pub open spec fn register_name(self, name: Seq<char>, index: u32) -> ArgTableView {
        ArgTableView { slots: self.slots, names: self.names.insert(name, index) }
    }

    /// The slot that `name` stands for, if it was registered.
    pub open spec fn resolve(self, name: Seq<char>) -> Option<u32> {
        if self.names.contains_key(name) {
            Some(self.names[name])
        } else {
            None
        }
    }

    /// Every name stands for a slot of the table, and no two names stand for
    /// the same slot.
    pub open spec fn names_distinct_slots(self) -> bool {
        &&& forall|n: Seq<char>| #[trigger]
            self.names.contains_key(n) ==> self.names[n] < self.slots.len()
        &&& forall|n: Seq<char>, m: Seq<char>|
            #![trigger self.names[n], self.names[m]]
            self.names.contains_key(n) && self.names.contains_key(m) && n != m
                ==> self.names[n] != self.names[m]
    }
}

/// A name and the index of the slot it stands for.
#[derive(Debug)]
struct NamedArg {
    name: String,
    index: u32,
}

/// Where `name` is held in `names`, if it is.
spec fn position(names: Seq<NamedArg>, name: Seq<char>) -> Option<int> {
    if exists|i: int| 0 <= i < names.len() && #[trigger] names[i].name@ == name {
        Some(choose|i: int| 0 <= i < names.len() && #[trigger] names[i].name@ == name)
    } else {
        None
    }
}

/// No name is held twice.
spec fn distinct(names: Seq<NamedArg>) -> bool {
    forall|i: int, j: int|
        0 <= i < j < names.len() ==> #[trigger] names[i].name@ != #[trigger] names[j].name@
}

/// The map from each name held to its index.
spec fn index_of_names(names: Seq<NamedArg>) -> Map<Seq<char>, u32> {
    Map::new(
        |n: Seq<char>| position(names, n) is Some,
        |n: Seq<char>| names[position(names, n)->0].index,
    )
}

/// Where no name is held twice, the entry at `i` is where its name is found.
proof fn lemma_position(names: Seq<NamedArg>, i: int)
    requires
        distinct(names),
        0 <= i < names.len(),
    ensures
        position(names, names[i].name@) == Some(i),
{
}

/// Replacing the index of the entry that holds `name` is an insertion into
/// the map.
proof fn lemma_after_overwrite(
    before: Seq<NamedArg>,
    after: Seq<NamedArg>,
    i: int,
    name: Seq<char>,
    index: u32,
)
    requires
        distinct(before),
        0 <= i < before.len(),
        before[i].name@ == name,
        after.len() == before.len(),
        after[i].name@ == name,
        after[i].index == index,
        forall|j: int| 0 <= j < before.len() && j != i ==> after[j] == before[j],
    ensures
        distinct(after),
        index_of_names(after) == index_of_names(before).insert(name, index),
{
    assert forall|a: int, b: int| 0 <= a < b < after.len() implies #[trigger] after[a].name@
        != #[trigger] after[b].name@ by {
        assert(after[a].name@ == before[a].name@);
        assert(after[b].name@ == before[b].name@);
    }
    assert forall|n: Seq<char>| position(after, n) == position(before, n) by {
        if position(before, n) is Some {
            let p = position(before, n)->0;
            assert(after[p].name@ == n);
            lemma_position(after, p);
        } else if position(after, n) is Some {
            let p = position(after, n)->0;
            assert(before[p].name@ == n);
        }
    }
    lemma_position(before, i);
    assert forall|n: Seq<char>| index_of_names(after).contains_key(n) implies #[trigger]
        index_of_names(after)[n] == index_of_names(before).insert(name, index)[n] by {
        let p = position(after, n)->0;
        if n != name {
            assert(p != i);
        }
    }
    assert(index_of_names(after) =~= index_of_names(before).insert(name, index));
}

/// Appending an entry for a name not yet held is an insertion into the map.
proof fn lemma_after_push(
    before: Seq<NamedArg>,
    after: Seq<NamedArg>,
    name: Seq<char>,
    index: u32,
)
    requires
        distinct(before),
        forall|j: int| 0 <= j < before.len() ==> before[j].name@ != name,
        after.len() == before.len() + 1,
        after[before.len() as int].name@ == name,
        after[before.len() as int].index == index,
        forall|j: int| 0 <= j < before.len() ==> after[j] == before[j],
    ensures
        distinct(after),
        index_of_names(after) == index_of_names(before).insert(name, index),
{
    let last = before.len() as int;
    assert forall|a: int, b: int| 0 <= a < b < after.len() implies #[trigger] after[a].name@
        != #[trigger] after[b].name@ by {
        assert(after[a].name@ == before[a].name@);
        if b < last {
            assert(after[b].name@ == before[b].name@);
        }
    }
    lemma_position(after, last);
    assert(position(before, name) is None);
    assert forall|n: Seq<char>| n != name implies position(after, n) == position(before, n) by {
        if position(before, n) is Some {
            let p = position(before, n)->0;
            assert(after[p].name@ == n);
            lemma_position(after, p);
        } else if position(after, n) is Some {
            let p = position(after, n)->0;
            assert(p != last);
            assert(before[p].name@ == n);
        }
    }
    assert(index_of_names(after) =~= index_of_names(before).insert(name, index));
}

/// The slots of a kernel, append-only and numbered from 0, and the index of
/// names over them.
#[derive(Debug)]
pub struct ArgTable {
    kinds: Vec<ArgKind>,
    names: Vec<NamedArg>,
}

impl View for ArgTable {
    type V = ArgTableView;

    closed spec fn view(&self) -> ArgTableView {
        ArgTableView { slots: self.kinds@, names: index_of_names(self.names@) }
    }
}

impl ArgTable {
    #[verifier::type_invariant]
    spec fn inv(&self) -> bool {
        &&& self.kinds@.len() <= u32::MAX
        &&& distinct(self.names@)
    }

    /// Returns the table without slots or names.
    pub fn new() -> (table: ArgTable)
        ensures
            table@ == ArgTableView::empty(),
    {
        let table = ArgTable { kinds: Vec::new(), names: Vec::new() };
        assert(table@.names =~= Map::empty());
        table
    }

    /// Returns the number of slots, which is the index that the next slot
    /// will get.
    pub fn len(&self) -> (count: u32)
        ensures
            count == self@.slots.len(),
    {
        proof {
            use_type_invariant(self);
        }
        self.kinds.len() as u32
    }

    /// Returns the kind of the slot at `index`, if there is such a slot.
    pub fn kind(&self, index: u32) -> (kind: Option<ArgKind>)
        ensures
            index < self@.slots.len() ==> kind == Some(self@.slots[index as int]),
            index >= self@.slots.len() ==> kind is None,
    {
        if (index as usize) < self.kinds.len() {
            Some(self.kinds[index as usize])
        } else {
            None
        }
    }

    /// Appends a slot of the given kind and returns its index: the number of
    /// slots before the call.
    pub fn allocate(&mut self, kind: ArgKind) -> (index: u32)
        requires
            old(self)@.slots.len() < u32::MAX,
        ensures
            index == old(self)@.slots.len(),
            final(self)@ == old(self)@.allocate(kind),
    {
        proof {
            use_type_invariant(&*self);
        }
        let mut kinds: Vec<ArgKind> = Vec::new();
        std::mem::swap(&mut kinds, &mut self.kinds);
        let index = kinds.len() as u32;
        kinds.push(kind);
        self.kinds = kinds;
        index
    }

    /// Makes `name` stand for `index`. A name registered before stands for
    /// the new index from now on. The table takes any index: a kernel
    /// handle registers a name only for the slot it has just made.
    pub fn register_name(&mut self, name: &str, index: u32)
        ensures
            final(self)@ == old(self)@.register_name(name@, index),
    {
        proof {
            use_type_invariant(&*self);
        }
        let owned = name.to_owned();
        let mut names: Vec<NamedArg> = Vec::new();
        std::mem::swap(&mut names, &mut self.names);
        let mut i: usize = 0;
        while i < names.len() && !(names[i].name == owned)
            invariant
                names == old(self).names,
                owned@ == name@,
                i <= names@.len(),
                forall|j: int| 0 <= j < i ==> names@[j].name@ != name@,
            decreases names@.len() - i,
        {
            i += 1;
        }
        if i < names.len() {
            names.set(i, NamedArg { name: owned, index });
            proof {
                lemma_after_overwrite(old(self).names@, names@, i as int, name@, index);
            }
        } else {
            names.push(NamedArg { name: owned, index });
            proof {
                lemma_after_push(old(self).names@, names@, name@, index);
            }
        }
        self.names = names;
    }

    /// Returns the index that `name` stands for, and the invalid-name error
    /// with the name where it was never registered.
    pub fn resolve(&self, name: &str) -> (index: Result<u32, Error>)
        ensures
            self@.resolve(name@) matches Some(i) ==> index == Ok::<u32, Error>(i),
            self@.resolve(name@) is None ==> {
                &&& index matches Err(e)
                &&& e@ == (ErrorView::InvalidArgumentName { name: name@ })
            },
    {
        proof {
            use_type_invariant(self);
        }
        let owned = name.to_owned();
        let mut i: usize = 0;
        while i < self.names.len()
            invariant
                distinct(self.names@),
                owned@ == name@,
                i <= self.names@.len(),
                forall|j: int| 0 <= j < i ==> self.names@[j].name@ != name@,
            decreases self.names@.len() - i,
        {
            if self.names[i].name == owned {
                proof {
                    lemma_position(self.names@, i as int);
                }
                return Ok(self.names[i].index);
            }
            i += 1;
        }
        Err(Error::InvalidArgumentName { name: owned })
    }
}

} // verus!
