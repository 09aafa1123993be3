//! The ids of the operations a page has registered.
//!
//! A page names its operations with strings; the engine counts them. Names
//! come back out in the order the engine lists its ids.

use crate::text::{same_text, Text};
use vstd::prelude::*;

verus! {

/// One operation and its id.
#[derive(Debug)]
struct Interned {
    name: String,
    id: u64,
}

/// Interns the page's operation names as engine ids.
#[derive(Debug)]
pub struct OpInterner {
    interned: Vec<Interned>,
    next: u64,
}

/// Whether some operation has an id.
pub open spec fn is_named(ids: Map<Text, u64>, id: u64) -> bool {
    exists|name: Text| #[trigger] ids.dom().contains(name) && ids[name] == id
}

/// The operation that has an id.
pub open spec fn name_of(ids: Map<Text, u64>, id: u64) -> Text {
    choose|name: Text| #[trigger] ids.dom().contains(name) && ids[name] == id
}

/// The operations of a list of ids, in its order. An id nothing is registered
/// under has been torn down since, and is passed over.
pub open spec fn known_names(ids: Map<Text, u64>, wanted: Seq<u64>) -> Seq<Text>
    decreases wanted.len(),
{
    if wanted.len() == 0 {
        Seq::empty()
    } else {
        let before = known_names(ids, wanted.drop_last());
        if is_named(ids, wanted.last()) {
            before.push(name_of(ids, wanted.last()))
        } else {
            before
        }
    }
}

impl OpInterner {
    spec fn has(self, name: Text) -> bool {
        exists|i: int| 0 <= i < self.interned@.len() && (#[trigger] self.interned@[i]).name@ == name
    }

    spec fn place(self, name: Text) -> int {
        choose|i: int| 0 <= i < self.interned@.len() && (#[trigger] self.interned@[i]).name@ == name
    }

    /// The ids of the registered operations.
    pub closed spec fn ids(self) -> Map<Text, u64> {
        Map::new(|name: Text| self.has(name), |name: Text| self.interned@[self.place(name)].id)
    }

    /// The last id given out.
    pub closed spec fn minted(self) -> u64 {
        self.next
    }

    /// No name and no id occurs twice, and every id was given out here.
    pub closed spec fn wf(self) -> bool {
        &&& forall|i: int, j: int|
            0 <= i < j < self.interned@.len() ==> (#[trigger] self.interned@[i]).name@ != (
            #[trigger] self.interned@[j]).name@ && self.interned@[i].id != self.interned@[j].id
        &&& forall|i: int|
            0 <= i < self.interned@.len() ==> 1 <= (#[trigger] self.interned@[i]).id <= self.next
    }

    proof fn lemma_at(self, i: int)
        requires
            self.wf(),
            0 <= i < self.interned@.len(),
        ensures
            self.ids().dom().contains(self.interned@[i].name@),
            self.ids()[self.interned@[i].name@] == self.interned@[i].id,
    {
        let place = self.place(self.interned@[i].name@);
        assert(self.interned@[place].name@ == self.interned@[i].name@);
        if place < i {
            assert(self.interned@[place].name@ != self.interned@[i].name@);
        } else if i < place {
            assert(self.interned@[i].name@ != self.interned@[place].name@);
        }
    }

    /// An id belongs to one operation, and is one of those given out.
    pub proof fn law_an_id_names_one_operation(self, left: Text, right: Text)
        requires
            self.wf(),
            self.ids().dom().contains(left),
            self.ids().dom().contains(right),
        ensures
            self.ids()[left] == self.ids()[right] ==> left == right,
            1 <= self.ids()[left] <= self.minted(),
    {
        let i = self.place(left);
        let j = self.place(right);
        assert(self.interned@[i].name@ == left);
        assert(self.interned@[j].name@ == right);
        if i < j {
            assert(self.interned@[i].id != self.interned@[j].id);
        } else if j < i {
            assert(self.interned@[j].id != self.interned@[i].id);
        }
    }

    /// A registered operation is read back from its id.
    pub proof fn law_a_name_is_read_back(self, name: Text)
        requires
            self.wf(),
            self.ids().dom().contains(name),
        ensures
            known_names(self.ids(), seq![self.ids()[name]]) == seq![name],
    {
        let id = self.ids()[name];
        assert(is_named(self.ids(), id));
        let found = name_of(self.ids(), id);
        assert(self.ids().dom().contains(found) && self.ids()[found] == id);
        self.law_an_id_names_one_operation(name, found);
        assert(seq![id].drop_last() =~= Seq::<u64>::empty());
        assert(known_names(self.ids(), Seq::<u64>::empty()) =~= Seq::<Text>::empty());
        assert(known_names(self.ids(), seq![id]) =~= seq![name]);
    }

    /// Nothing is registered yet.
    pub fn new() -> (interner: OpInterner)
        ensures
            interner.wf(),
            interner.ids() == Map::<Text, u64>::empty(),
            interner.minted() == 0,
    {
        let interner = OpInterner { interned: Vec::new(), next: 0 };
        assert(interner.ids() =~= Map::<Text, u64>::empty());
        interner
    }

    fn find(&self, name: &str) -> (at: Option<usize>)
        requires
            self.wf(),
        ensures
            match at {
                Some(at) => at < self.interned@.len() && self.interned@[at as int].name@ == name@,
                None => !self.ids().dom().contains(name@),
            },
    {
        let mut i: usize = 0;
        while i < self.interned.len()
            invariant
                i <= self.interned@.len(),
                forall|k: int| 0 <= k < i ==> (#[trigger] self.interned@[k]).name@ != name@,
            decreases self.interned@.len() - i,
        {
            if same_text(self.interned[i].name.as_str(), name) {
                return Some(i);
            }
            i = i + 1;
        }
        None
    }

    /// Whether an operation has an id, or there is one left to give it.
    pub fn has_room_for(&self, name: &str) -> (room: bool)
        requires
            self.wf(),
        ensures
            room == (self.ids().dom().contains(name@) || self.minted() < u64::MAX),
    {
        match self.find(name) {
            Some(at) => {
                proof {
                    self.lemma_at(at as int);
                }
                true
            },
            None => self.next < u64::MAX,
        }
    }

    /// The id of an operation: the one it has, or the next one.
    pub fn intern(&mut self, name: &str) -> (id: u64)
        requires
            old(self).wf(),
            old(self).ids().dom().contains(name@) || old(self).minted() < u64::MAX,
        ensures
            final(self).wf(),
            old(self).ids().dom().contains(name@) ==> id == old(self).ids()[name@] && *final(self)
                == *old(self),
            !old(self).ids().dom().contains(name@) ==> id == old(self).minted() + 1
                && final(self).minted() == id && final(self).ids() == old(self).ids().insert(
                name@,
                id,
            ),
    {
        match self.find(name) {
            Some(at) => {
                proof {
                    self.lemma_at(at as int);
                }
                self.interned[at].id
            },
            None => {
                let ghost before = *self;
                self.next = self.next + 1;
                let id: u64 = self.next;
                self.interned.push(Interned { name: name.to_owned(), id });
                proof {
                    let after = *self;
                    let count = before.interned@.len() as int;
                    assert forall|i: int| 0 <= i < count implies #[trigger] after.interned@[i]
                        == before.interned@[i] by {}
                    assert forall|i: int| 0 <= i < count implies (
                    #[trigger] before.interned@[i]).name@ != name@ && before.interned@[i].id
                        != id by {
                        before.lemma_at(i);
                    }
                    assert(after.wf());
                    after.lemma_at(count);
                    assert forall|key: Text| key != name@ implies #[trigger]
                        after.ids().dom().contains(key) == before.ids().dom().contains(key) by {
                        if after.has(key) {
                            before.lemma_at(after.place(key));
                        }
                        if before.has(key) {
                            let i = before.place(key);
                            assert(after.interned@[i] == before.interned@[i]);
                            after.lemma_at(i);
                        }
                    }
                    assert forall|key: Text|
                        key != name@ && #[trigger] before.ids().dom().contains(
                            key,
                        ) implies after.ids()[key] == before.ids()[key] by {
                        let i = before.place(key);
                        assert(after.interned@[i] == before.interned@[i]);
                        after.lemma_at(i);
                        before.lemma_at(i);
                    }
                    assert(after.ids() =~= before.ids().insert(name@, id));
                }
                id
            },
        }
    }

    /// Forget an operation, reporting the id it had. The id is not given out
    /// again.
    pub fn remove(&mut self, name: &str) -> (id: Option<u64>)
        requires
            old(self).wf(),
        ensures
            final(self).wf(),
            final(self).minted() == old(self).minted(),
            final(self).ids() == old(self).ids().remove(name@),
            id == (if old(self).ids().dom().contains(name@) {
                Some(old(self).ids()[name@])
            } else {
                None
            }),
    {
        match self.find(name) {
            None => {
                assert(self.ids() =~= old(self).ids().remove(name@));
                None
            },
            Some(at) => {
                let ghost before = *self;
                proof {
                    self.lemma_at(at as int);
                }
                let removed = self.interned.remove(at);
                proof {
                    let after = *self;
                    let was = |i: int|
                        if i < at {
                            i
                        } else {
                            i + 1
                        };
                    assert forall|i: int| 0 <= i < after.interned@.len() implies #[trigger]
                        after.interned@[i] == before.interned@[was(i)] by {}
                    assert(after.wf()) by {
                        assert forall|i: int, j: int|
                            0 <= i < j < after.interned@.len() implies (
                        #[trigger] after.interned@[i]).name@ != (
                        #[trigger] after.interned@[j]).name@ && after.interned@[i].id
                            != after.interned@[j].id by {
                            assert(before.interned@[was(i)].name@
                                != before.interned@[was(j)].name@);
                        }
                    }
                    assert forall|key: Text| #[trigger]
                        after.ids().dom().contains(key) == before.ids().remove(
                            name@,
                        ).dom().contains(key) by {
                        if after.has(key) {
                            let k = was(after.place(key));
                            assert(after.interned@[after.place(key)] == before.interned@[k]);
                            before.lemma_at(k);
                            if k < at {
                                assert(before.interned@[k].name@ != before.interned@[at as int].name@);
                            } else {
                                assert(before.interned@[at as int].name@ != before.interned@[k].name@);
                            }
                        }
                        if before.has(key) && key != name@ {
                            let k = before.place(key);
                            let i = if k < at {
                                k
                            } else {
                                k - 1
                            };
                            assert(after.interned@[i] == before.interned@[k]);
                            after.lemma_at(i);
                        }
                    }
                    assert forall|key: Text| #[trigger]
                        after.ids().dom().contains(key) implies after.ids()[key]
                        == before.ids().remove(name@)[key] by {
                        let i = after.place(key);
                        assert(after.interned@[i] == before.interned@[was(i)]);
                        after.lemma_at(i);
                        before.lemma_at(was(i));
                    }
                    assert(after.ids() =~= before.ids().remove(name@));
                }
                Some(removed.id)
            },
        }
    }

    fn name(&self, id: u64) -> (name: Option<String>)
        requires
            self.wf(),
        ensures
            match name {
                Some(name) => is_named(self.ids(), id) && name@ == name_of(self.ids(), id),
                None => !is_named(self.ids(), id),
            },
    {
        let mut i: usize = 0;
        while i < self.interned.len()
            invariant
                i <= self.interned@.len(),
                self.wf(),
                forall|k: int| 0 <= k < i ==> (#[trigger] self.interned@[k]).id != id,
            decreases self.interned@.len() - i,
        {
            if self.interned[i].id == id {
                proof {
                    self.lemma_at(i as int);
                    let name = self.interned@[i as int].name@;
                    assert(is_named(self.ids(), id));
                    let found = name_of(self.ids(), id);
                    assert(self.ids().dom().contains(found) && self.ids()[found] == id);
                    self.law_an_id_names_one_operation(name, found);
                }
                return Some(self.interned[i].name.clone());
            }
            i = i + 1;
        }
        proof {
            if is_named(self.ids(), id) {
                let found = name_of(self.ids(), id);
                assert(self.ids().dom().contains(found) && self.ids()[found] == id);
                assert(self.interned@[self.place(found)].id == id);
            }
        }
        None
    }

    /// The registered operations of a list of ids, in its order.
    pub fn names(&self, ids: &Vec<u64>) -> (names: Vec<String>)
        requires
            self.wf(),
        ensures
            names.deep_view() == known_names(self.ids(), ids@),
    {
        let mut names: Vec<String> = Vec::new();
        let mut i: usize = 0;
        assert(names.deep_view() =~= known_names(self.ids(), ids@.take(0)));
        while i < ids.len()
            invariant
                i <= ids@.len(),
                self.wf(),
                names.deep_view() == known_names(self.ids(), ids@.take(i as int)),
            decreases ids@.len() - i,
        {
            let ghost before = names.deep_view();
            proof {
                assert(ids@.take(i + 1).drop_last() =~= ids@.take(i as int));
            }
            match self.name(ids[i]) {
                Some(name) => {
                    names.push(name);
                    assert(names.deep_view() =~= before.push(name@));
                },
                None => {},
            }
            i = i + 1;
        }
        assert(ids@.take(ids@.len() as int) =~= ids@);
        names
    }
}

impl Default for OpInterner {
    fn default() -> (interner: OpInterner)
        ensures
            interner.wf(),
            interner.ids() == Map::<Text, u64>::empty(),
            interner.minted() == 0,
    {
        OpInterner::new()
    }
}

} // verus!
