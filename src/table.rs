//! The registers of one parsed control table, keyed by register name.
//!
//! The table keeps one slot per register of the vocabulary, so names are
//! unique and the registers come out in vocabulary order.

use vstd::prelude::*;

use crate::register::{lemma_index_at, Register, RegisterData, REGISTER_COUNT};
use crate::row::{layout_key, ControlTableRow, RowModel};

verus! {

/// Two tables have the same layout: the same register names, and for each
/// name the same address, size and access mode.
pub open spec fn same_layout(a: Map<Register, RowModel>, b: Map<Register, RowModel>) -> bool {
    &&& a.dom() == b.dom()
    &&& forall|g: Register| #[trigger] a.contains_key(g) ==> layout_key(a[g]) == layout_key(b[g])
}

/// Same layout is reflexive.
pub proof fn lemma_same_layout_reflexive(a: Map<Register, RowModel>)
    ensures
        same_layout(a, a),
{
}

/// Same layout is symmetric.
pub proof fn lemma_same_layout_symmetric(a: Map<Register, RowModel>, b: Map<Register, RowModel>)
    requires
        same_layout(a, b),
    ensures
        same_layout(b, a),
{
}

/// Same layout is transitive.
pub proof fn lemma_same_layout_transitive(
    a: Map<Register, RowModel>,
    b: Map<Register, RowModel>,
    c: Map<Register, RowModel>,
)
    requires
        same_layout(a, b),
        same_layout(b, c),
    ensures
        same_layout(a, c),
{
}

/// The registers of one control table.
#[derive(Clone, Debug)]
pub struct ControlTableMap {
    slots: Vec<Option<ControlTableRow>>,
}

impl View for ControlTableMap {
    type V = Map<Register, RowModel>;

    closed spec fn view(&self) -> Map<Register, RowModel> {
        Map::new(
            |g: Register| self.slots@[g.spec_index() as int] is Some,
            |g: Register| self.slots@[g.spec_index() as int]->Some_0@,
        )
    }
}

impl ControlTableMap {
    /// One slot per register, each holding a row for that register.
    pub closed spec fn wf(&self) -> bool {
        &&& self.slots@.len() == REGISTER_COUNT
        &&& forall|i: int|
            0 <= i < REGISTER_COUNT ==> (#[trigger] self.slots@[i] matches Some(r)
                ==> r.data_name.spec_index() == i)
    }

    /// An empty table.
    pub fn new() -> (r: ControlTableMap)
        ensures
            r.wf(),
            r@ == Map::<Register, RowModel>::empty(),
    {
        let mut slots: Vec<Option<ControlTableRow>> = Vec::new();
        let mut i: usize = 0;
        while i < REGISTER_COUNT
            invariant
                i <= REGISTER_COUNT,
                slots@.len() == i,
                forall|j: int| 0 <= j < i ==> #[trigger] slots@[j] is None,
            decreases REGISTER_COUNT - i,
        {
            slots.push(None);
            i += 1;
        }
        let r = ControlTableMap { slots };
        assert(r@ =~= Map::<Register, RowModel>::empty()) by {
            assert forall|g: Register| !r@.contains_key(g) by {
                lemma_index_at(g);
            }
        }
        r
    }

    /// Adds a row under its register name, replacing any row of that name.
    pub fn insert(&mut self, row: ControlTableRow)
        requires
            old(self).wf(),
        ensures
            final(self).wf(),
            final(self)@ == old(self)@.insert(row.data_name, row@),
    {
        let ghost key = row.data_name;
        let ghost value = row@;
        let i = row.data_name.index();
        self.slots.set(i, Some(row));
        assert(self@ =~= old(self)@.insert(key, value)) by {
            assert forall|g: Register| #[trigger] self@.contains_key(g) == old(self)@.insert(
                key,
                value,
            ).contains_key(g) by {
                lemma_index_at(g);
                lemma_index_at(key);
            }
            assert forall|g: Register| #[trigger] self@.contains_key(g) implies self@[g]
                == old(self)@.insert(key, value)[g] by {
                lemma_index_at(g);
                lemma_index_at(key);
            }
        }
    }

    /// The row of a register, if the table has one.
    pub fn get(&self, g: Register) -> (r: Option<&ControlTableRow>)
        requires
            self.wf(),
        ensures
            match r {
                Some(row) => self@.contains_key(g) && self@[g] == row@,
                None => !self@.contains_key(g),
            },
    {
        let i = g.index();
        match &self.slots[i] {
            Some(row) => Some(row),
            None => None,
        }
    }

    /// The address and size of a register, if the table has it.
    pub fn register_data(&self, g: Register) -> (r: Option<RegisterData>)
        requires
            self.wf(),
        ensures
            match r {
                Some(d) => self@.contains_key(g) && d.address == self@[g].address && d.length
                    == self@[g].size,
                None => !self@.contains_key(g),
            },
    {
        match self.get(g) {
            Some(row) => Some(RegisterData { address: row.address, length: row.size }),
            None => None,
        }
    }

    /// Moves every row of `other` into this table; on a shared name the row
    /// of `other` wins.
    pub fn append(&mut self, other: ControlTableMap)
        requires
            old(self).wf(),
            other.wf(),
        ensures
            final(self).wf(),
            final(self)@ == old(self)@.union_prefer_right(other@),
    {
        let mut other = other;
        let ghost added = other@;
        let ghost orig = other.slots@;
        while other.slots.len() > 0
            invariant
                self.wf(),
                orig.len() == REGISTER_COUNT,
                other.slots@.len() <= REGISTER_COUNT,
                forall|j: int| 0 <= j < other.slots@.len() ==> other.slots@[j] == orig[j],
                forall|i: int|
                    0 <= i < REGISTER_COUNT ==> (#[trigger] orig[i] matches Some(r)
                        ==> r.data_name.spec_index() == i),
                added == Map::new(
                    |g: Register| orig[g.spec_index() as int] is Some,
                    |g: Register| orig[g.spec_index() as int]->Some_0@,
                ),
                self@ == old(self)@.union_prefer_right(
                    added.restrict(Set::new(|g: Register| g.spec_index() >= other.slots@.len())),
                ),
            decreases other.slots@.len(),
        {
            let ghost n = other.slots@.len() - 1;
            let ghost before = self@;
            let slot = other.slots.pop();
            let ghost target = old(self)@.union_prefer_right(
                added.restrict(Set::new(|g: Register| g.spec_index() >= n)),
            );
            match slot {
                Some(Some(row)) => {
                    let ghost k = row.data_name;
                    let ghost v = row@;
                    proof {
                        lemma_index_at(row.data_name);
                        assert(orig[n] == Some(row));
                    }
                    self.insert(row);
                    assert(self@ =~= target) by {
                        assert forall|g: Register| #[trigger] self@.contains_key(g)
                            == target.contains_key(g) by {
                            lemma_index_at(g);
                        }
                        assert forall|g: Register| #[trigger] self@.contains_key(g) implies self@[g]
                            == target[g] by {
                            lemma_index_at(g);
                        }
                    }
                },
                _ => {
                    proof {
                        assert(orig[n] is None);
                    }
                    assert(self@ =~= target) by {
                        assert forall|g: Register| #[trigger] self@.contains_key(g)
                            == target.contains_key(g) by {
                            lemma_index_at(g);
                        }
                        assert forall|g: Register| #[trigger] self@.contains_key(g) implies self@[g]
                            == target[g] by {
                            lemma_index_at(g);
                        }
                    }
                },
            }
        }
        assert(added.restrict(Set::new(|g: Register| g.spec_index() >= 0)) =~= added);
    }

    /// Whether the two tables have the same layout.
    pub fn same_layout(&self, other: &ControlTableMap) -> (r: bool)
        requires
            self.wf(),
            other.wf(),
        ensures
            r == same_layout(self@, other@),
    {
        let mut i: usize = 0;
        while i < REGISTER_COUNT
            invariant
                i <= REGISTER_COUNT,
                self.wf(),
                other.wf(),
                forall|g: Register| #[trigger]
                    g.spec_index() < i ==> (self@.contains_key(g) == other@.contains_key(g) && (
                    self@.contains_key(g) ==> layout_key(self@[g]) == layout_key(other@[g]))),
            decreases REGISTER_COUNT - i,
        {
            let g = Register::at(i);
            proof {
                lemma_index_at(g);
            }
            match (&self.slots[i], &other.slots[i]) {
                (Some(a), Some(b)) => {
                    if !a.same_layout(b) {
                        assert(self@.contains_key(g) && layout_key(self@[g]) != layout_key(
                            other@[g],
                        ));
                        return false;
                    }
                },
                (None, None) => {},
                _ => {
                    assert(self@.contains_key(g) != other@.contains_key(g));
                    return false;
                },
            }
            assert forall|h: Register| #[trigger]
                h.spec_index() < i + 1 implies (self@.contains_key(h) == other@.contains_key(h) && (
                self@.contains_key(h) ==> layout_key(self@[h]) == layout_key(other@[h]))) by {
                lemma_index_at(h);
            }
            i += 1;
        }
        assert(self@.dom() =~= other@.dom()) by {
            assert forall|g: Register| #[trigger] self@.contains_key(g) == other@.contains_key(g) by {
                lemma_index_at(g);
            }
        }
        assert forall|g: Register| #[trigger] self@.contains_key(g) implies layout_key(self@[g])
            == layout_key(other@[g]) by {
            lemma_index_at(g);
        }
        true
    }

    /// The rows of the table, in vocabulary order.
    pub fn rows(&self) -> (r: Vec<&ControlTableRow>)
        requires
            self.wf(),
        ensures
            forall|k: int| 0 <= k < r@.len() ==> self@.contains_key(#[trigger] r@[k].data_name)
                && self@[r@[k].data_name] == r@[k]@,
            forall|k: int, l: int|
                0 <= k < l < r@.len() ==> r@[k].data_name.spec_index() < r@[l].data_name.spec_index(),
            forall|g: Register| #[trigger]
                self@.contains_key(g) ==> exists|k: int| 0 <= k < r@.len() && r@[k].data_name == g,
    {
        let mut out: Vec<&ControlTableRow> = Vec::new();
        let mut i: usize = 0;
        while i < REGISTER_COUNT
            invariant
                i <= REGISTER_COUNT,
                self.wf(),
                forall|k: int|
                    0 <= k < out@.len() ==> self@.contains_key(#[trigger] out@[k].data_name)
                        && self@[out@[k].data_name] == out@[k]@ && out@[k].data_name.spec_index() < i,
                forall|k: int, l: int|
                    0 <= k < l < out@.len() ==> out@[k].data_name.spec_index()
                        < out@[l].data_name.spec_index(),
                forall|g: Register| #[trigger]
                    self@.contains_key(g) && g.spec_index() < i ==> exists|k: int|
                        0 <= k < out@.len() && out@[k].data_name == g,
            decreases REGISTER_COUNT - i,
        {
            let g = Register::at(i);
            let ghost before = out@;
            proof {
                lemma_index_at(g);
            }
            match &self.slots[i] {
                Some(row) => {
                    proof {
                        lemma_index_at(row.data_name);
                    }
                    out.push(row);
                    assert(out@[out@.len() - 1].data_name == g);
                },
                None => {},
            }
            assert forall|h: Register| #[trigger]
                self@.contains_key(h) && h.spec_index() < i + 1 implies exists|k: int|
                    0 <= k < out@.len() && out@[k].data_name == h by {
                lemma_index_at(h);
                if h.spec_index() == i {
                    assert(out@[out@.len() - 1].data_name == h);
                } else {
                    let k = choose|k: int| 0 <= k < before.len() && before[k].data_name == h;
                    assert(out@[k] == before[k]);
                }
            }
            i += 1;
        }
        assert forall|g: Register| #[trigger] self@.contains_key(g) implies exists|k: int|
            0 <= k < out@.len() && out@[k].data_name == g by {
            lemma_index_at(g);
        }
        out
    }
}

} // verus!
