//! Grouping models that share one control-table layout.
//!
//! Pages are taken in the order they were found. Each joins the first group
//! whose table has the same layout as its own, or else starts a new group.

use vstd::prelude::*;

use crate::document::ParsedModel;
use crate::models::ModelGroup as Family;
use crate::models::{
    lemma_model_index_at, Model, MODEL_COUNT, MODEL_GROUP_COUNT,
};
use crate::text::{lower_of, lowercase, string_of, upper_of, uppercase};
use crate::register::Register;
use crate::row::RowModel;
use crate::table::{same_layout, ControlTableMap};

verus! {

/// The value of a group: its members and its table.
pub struct GroupModel {
    pub members: Set<Model>,
    pub table: Map<Register, RowModel>,
}

/// Models that share one control table.
#[derive(Debug)]
pub struct ModelGroup {
    members: Vec<bool>,
    table: ControlTableMap,
}

impl View for ModelGroup {
    type V = GroupModel;

    closed spec fn view(&self) -> GroupModel {
        GroupModel {
            members: Set::new(|m: Model| self.members@[m.spec_index() as int]),
            table: self.table@,
        }
    }
}

impl ModelGroup {
    /// One membership slot per model of the registry, at least one member,
    /// and a well-formed table.
    pub closed spec fn wf(&self) -> bool {
        &&& self.members@.len() == MODEL_COUNT
        &&& self.table.wf()
        &&& exists|m: Model| #[trigger] self.members@[m.spec_index() as int]
    }

    /// A group of one model with its table.
    pub fn new(model: Model, table: ControlTableMap) -> (r: ModelGroup)
        requires
            table.wf(),
        ensures
            r.wf(),
            r@.members == set![model],
            r@.table == table@,
    {
        let mut members: Vec<bool> = Vec::new();
        let mut i: usize = 0;
        while i < MODEL_COUNT
            invariant
                i <= MODEL_COUNT,
                members@.len() == i,
                forall|j: int| 0 <= j < i ==> !#[trigger] members@[j],
            decreases MODEL_COUNT - i,
        {
            members.push(false);
            i += 1;
        }
        members.set(model.index(), true);
        let r = ModelGroup { members, table };
        assert(r.members@[model.spec_index() as int]);
        assert(r@.members =~= set![model]) by {
            assert forall|m: Model| #[trigger] r@.members.contains(m) == (m == model) by {
                lemma_model_index_at(m);
                lemma_model_index_at(model);
            }
        }
        r
    }

    /// Adds a model to the group.
    pub fn insert_model(&mut self, model: Model)
        requires
            old(self).wf(),
        ensures
            final(self).wf(),
            final(self)@.members == old(self)@.members.insert(model),
            final(self)@.table == old(self)@.table,
    {
        self.members.set(model.index(), true);
        assert(self@.members =~= old(self)@.members.insert(model)) by {
            assert forall|m: Model| #[trigger] self@.members.contains(m) == old(
                self,
            )@.members.insert(model).contains(m) by {
                lemma_model_index_at(m);
                lemma_model_index_at(model);
            }
        }
        assert(self.members@[model.spec_index() as int]);
    }

    /// Whether the model belongs to the group.
    pub fn contains(&self, model: Model) -> (r: bool)
        requires
            self.wf(),
        ensures
            r == self@.members.contains(model),
    {
        self.members[model.index()]
    }

    /// The table the members share.
    pub fn table(&self) -> (r: &ControlTableMap)
        requires
            self.wf(),
        ensures
            r.wf(),
            r@ == self@.table,
    {
        &self.table
    }

    /// The members, in registry order.
    pub fn models(&self) -> (r: Vec<Model>)
        requires
            self.wf(),
        ensures
            forall|m: Model| #[trigger] r@.contains(m) == self@.members.contains(m),
            forall|k: int, l: int| 0 <= k < l < r@.len() ==> r@[k].spec_index() < r@[l].spec_index(),
    {
        let mut out: Vec<Model> = Vec::new();
        let mut i: usize = 0;
        while i < MODEL_COUNT
            invariant
                i <= MODEL_COUNT,
                self.wf(),
                forall|m: Model| #[trigger]
                    out@.contains(m) == (self@.members.contains(m) && m.spec_index() < i),
                forall|k: int| 0 <= k < out@.len() ==> #[trigger] out@[k].spec_index() < i,
                forall|k: int, l: int|
                    0 <= k < l < out@.len() ==> out@[k].spec_index() < out@[l].spec_index(),
            decreases MODEL_COUNT - i,
        {
            let m = Model::at(i);
            let ghost before = out@;
            if self.members[i] {
                out.push(m);
            }
            assert forall|x: Model| #[trigger] out@.contains(x) == (self@.members.contains(x)
                && x.spec_index() < i + 1) by {
                lemma_model_index_at(x);
                if x.spec_index() == i {
                    if self.members@[i as int] {
                        assert(out@[out@.len() - 1] == x);
                    }
                }
                if out@.contains(x) && x != m {
                    let k = choose|k: int| 0 <= k < out@.len() && out@[k] == x;
                    assert(before[k] == x);
                }
                if before.contains(x) {
                    let k = choose|k: int| 0 <= k < before.len() && before[k] == x;
                    assert(out@[k] == x);
                }
            }
            i += 1;
        }
        out
    }
}

/// Some member of the group belongs to family `f`.
pub open spec fn has_family(members: Set<Model>, f: Family) -> bool {
    exists|m: Model| #[trigger] members.contains(m) && m.spec_model_group() == f
}

/// The families of the members among the first `i` families of the
/// registry, in registry order.
pub open spec fn aliases_upto(members: Set<Model>, i: nat) -> Seq<Family>
    decreases i,
{
    if i == 0 {
        Seq::empty()
    } else {
        let rest = aliases_upto(members, (i - 1) as nat);
        if has_family(members, Family::spec_at((i - 1) as nat)) {
            rest.push(Family::spec_at((i - 1) as nat))
        } else {
            rest
        }
    }
}

/// The families of the members, in registry order: the aliases under which
/// the group's table is also known.
pub open spec fn spec_aliases(members: Set<Model>) -> Seq<Family> {
    aliases_upto(members, MODEL_GROUP_COUNT as nat)
}

/// The members of family `f` among the first `i` models of the registry,
/// in registry order.
pub open spec fn family_members_upto(members: Set<Model>, f: Family, i: nat) -> Seq<Model>
    decreases i,
{
    if i == 0 {
        Seq::empty()
    } else {
        let rest = family_members_upto(members, f, (i - 1) as nat);
        let m = Model::spec_at((i - 1) as nat);
        if members.contains(m) && m.spec_model_group() == f {
            rest.push(m)
        } else {
            rest
        }
    }
}

/// The members of family `f`, in registry order.
pub open spec fn family_members(members: Set<Model>, f: Family) -> Seq<Model> {
    family_members_upto(members, f, MODEL_COUNT as nat)
}

/// Family names joined with `sep`.
pub open spec fn join_families(fs: Seq<Family>, sep: Seq<char>) -> Seq<char>
    decreases fs.len(),
{
    if fs.len() == 0 {
        Seq::empty()
    } else if fs.len() == 1 {
        fs[0].spec_name()
    } else {
        join_families(fs.drop_last(), sep) + sep + fs.last().spec_name()
    }
}

/// Model names joined with `sep`.
pub open spec fn join_models(ms: Seq<Model>, sep: Seq<char>) -> Seq<char>
    decreases ms.len(),
{
    if ms.len() == 0 {
        Seq::empty()
    } else if ms.len() == 1 {
        ms[0].spec_name()
    } else {
        join_models(ms.drop_last(), sep) + sep + ms.last().spec_name()
    }
}

/// The name of a group: its aliases joined with `_`.
pub open spec fn spec_group_name(members: Set<Model>) -> Seq<char> {
    join_families(spec_aliases(members), "_"@)
}

impl ModelGroup {
    /// Whether some member belongs to family `f`.
    pub fn has_family(&self, f: Family) -> (r: bool)
        requires
            self.wf(),
        ensures
            r == has_family(self@.members, f),
    {
        let mut i: usize = 0;
        while i < MODEL_COUNT
            invariant
                i <= MODEL_COUNT,
                self.wf(),
                forall|m: Model| #[trigger]
                    self@.members.contains(m) && m.spec_index() < i ==> m.spec_model_group() != f,
            decreases MODEL_COUNT - i,
        {
            let m = Model::at(i);
            if self.members[i] && m.model_group() == f {
                assert(self@.members.contains(m));
                return true;
            }
            i += 1;
        }
        assert forall|m: Model| #[trigger] self@.members.contains(m) implies m.spec_model_group()
            != f by {
            lemma_model_index_at(m);
        }
        false
    }

    /// The families of the members, in registry order.
    pub fn aliases(&self) -> (r: Vec<Family>)
        requires
            self.wf(),
        ensures
            r@ == spec_aliases(self@.members),
    {
        let mut out: Vec<Family> = Vec::new();
        let mut i: usize = 0;
        while i < MODEL_GROUP_COUNT
            invariant
                i <= MODEL_GROUP_COUNT,
                self.wf(),
                out@ == aliases_upto(self@.members, i as nat),
            decreases MODEL_GROUP_COUNT - i,
        {
            let f = Family::at(i);
            if self.has_family(f) {
                out.push(f);
            }
            i += 1;
        }
        out
    }

    /// The members of family `f`, in registry order.
    pub fn members_of(&self, f: Family) -> (r: Vec<Model>)
        requires
            self.wf(),
        ensures
            r@ == family_members(self@.members, f),
    {
        let mut out: Vec<Model> = Vec::new();
        let mut i: usize = 0;
        while i < MODEL_COUNT
            invariant
                i <= MODEL_COUNT,
                self.wf(),
                out@ == family_members_upto(self@.members, f, i as nat),
            decreases MODEL_COUNT - i,
        {
            let m = Model::at(i);
            proof {
                lemma_model_index_at(m);
            }
            if self.members[i] && m.model_group() == f {
                out.push(m);
            }
            i += 1;
        }
        out
    }

    /// For each alias of the group, in registry order, its members in
    /// registry order.
    pub fn alias(&self) -> (r: Vec<(Family, Vec<Model>)>)
        requires
            self.wf(),
        ensures
            r@.len() == spec_aliases(self@.members).len(),
            forall|k: int|
                0 <= k < r@.len() ==> (#[trigger] r@[k]).0 == spec_aliases(self@.members)[k],
            forall|k: int|
                0 <= k < r@.len() ==> (#[trigger] r@[k]).1@ == family_members(self@.members, r@[k].0),
    {
        let fams = self.aliases();
        let mut out: Vec<(Family, Vec<Model>)> = Vec::new();
        let mut i: usize = 0;
        while i < fams.len()
            invariant
                i <= fams@.len(),
                self.wf(),
                fams@ == spec_aliases(self@.members),
                out@.len() == i,
                forall|k: int| 0 <= k < i ==> (#[trigger] out@[k]).0 == fams@[k],
                forall|k: int|
                    0 <= k < i ==> (#[trigger] out@[k]).1@ == family_members(self@.members, out@[k].0),
            decreases fams@.len() - i,
        {
            let f = fams[i];
            out.push((f, self.members_of(f)));
            i += 1;
        }
        out
    }

    /// The name of the group: its aliases joined with `_`.
    pub fn name(&self) -> (r: String)
        requires
            self.wf(),
        ensures
            r@ == spec_group_name(self@.members),
    {
        let fams = self.aliases();
        let mut out = String::new();
        append_families(&mut out, &fams, "_");
        out
    }

    /// The name of the group in upper case, as the name of its table.
    pub fn table_name(&self) -> (r: String)
        requires
            self.wf(),
        ensures
            r@ == upper_of(spec_group_name(self@.members)),
    {
        let name = self.name();
        let chars = crate::text::chars_of(name.as_str());
        string_of(&uppercase(&chars))
    }

    /// The name of the group in lower case, as the name of its file.
    pub fn file_name(&self) -> (r: String)
        requires
            self.wf(),
        ensures
            r@ == lower_of(spec_group_name(self@.members)),
    {
        let name = self.name();
        let chars = crate::text::chars_of(name.as_str());
        string_of(&lowercase(&chars))
    }
}

/// The group a page joins: the first one, from `k` on, whose table has the
/// same layout as the page's table.
pub open spec fn first_same(groups: Seq<GroupModel>, t: Map<Register, RowModel>, k: int) -> Option<
    int,
>
    decreases groups.len() - k,
{
    if k < 0 || k >= groups.len() {
        None
    } else if same_layout(groups[k].table, t) {
        Some(k)
    } else {
        first_same(groups, t, k + 1)
    }
}

/// The groups of a sequence of pages, and the group each page joined.
pub struct Grouping {
    pub groups: Seq<GroupModel>,
    pub placement: Seq<int>,
}

/// The groups of pages taken in order, each a model and its table.
pub open spec fn spec_group(docs: Seq<(Model, Map<Register, RowModel>)>) -> Grouping
    decreases docs.len(),
{
    if docs.len() == 0 {
        Grouping { groups: Seq::empty(), placement: Seq::empty() }
    } else {
        let g = spec_group(docs.drop_last());
        let (m, t) = docs.last();
        match first_same(g.groups, t, 0) {
            Some(i) => Grouping {
                groups: g.groups.update(
                    i,
                    GroupModel { members: g.groups[i].members.insert(m), table: g.groups[i].table },
                ),
                placement: g.placement.push(i),
            },
            None => Grouping {
                groups: g.groups.push(GroupModel { members: set![m], table: t }),
                placement: g.placement.push(g.groups.len() as int),
            },
        }
    }
}

/// The values of some groups.
pub open spec fn groups_view(gs: Seq<ModelGroup>) -> Seq<GroupModel> {
    gs.map_values(|g: ModelGroup| g@)
}

/// The models and tables of some pages.
pub open spec fn docs_view(ps: Seq<ParsedModel>) -> Seq<(Model, Map<Register, RowModel>)> {
    ps.map_values(|p: ParsedModel| (p.model, p.table@))
}

/// Each page has a place, and each place is a group.
pub proof fn lemma_group_places(docs: Seq<(Model, Map<Register, RowModel>)>)
    ensures
        spec_group(docs).placement.len() == docs.len(),
        forall|i: int|
            0 <= i < docs.len() ==> 0 <= #[trigger] spec_group(docs).placement[i] < spec_group(
                docs,
            ).groups.len(),
    decreases docs.len(),
{
    if docs.len() > 0 {
        lemma_group_places(docs.drop_last());
        lemma_first_same(spec_group(docs.drop_last()).groups, docs.last().1, 0);
    }
}

proof fn lemma_first_same(groups: Seq<GroupModel>, t: Map<Register, RowModel>, k: int)
    requires
        0 <= k,
    ensures
        match first_same(groups, t, k) {
            Some(i) => k <= i < groups.len() && same_layout(groups[i].table, t),
            None => forall|j: int| k <= j < groups.len() ==> !same_layout(#[trigger] groups[j].table, t),
        },
    decreases groups.len() - k,
{
    if k < groups.len() && !same_layout(groups[k].table, t) {
        lemma_first_same(groups, t, k + 1);
    }
}

/// Places pages taken in order into groups of the same layout. Returns the
/// groups, and for each page the position of the group it joined.
pub fn group_models(pages: Vec<ParsedModel>) -> (r: (Vec<ModelGroup>, Vec<usize>))
    requires
        forall|i: int| 0 <= i < pages@.len() ==> (#[trigger] pages@[i]).table.wf(),
    ensures
        forall|k: int| 0 <= k < r.0@.len() ==> (#[trigger] r.0@[k]).wf(),
        groups_view(r.0@) == spec_group(docs_view(pages@)).groups,
        r.1@.len() == pages@.len(),
        forall|i: int|
            0 <= i < r.1@.len() ==> #[trigger] r.1@[i] as int == spec_group(
                docs_view(pages@),
            ).placement[i],
{
    let ghost docs = docs_view(pages@);
    let mut pages = pages;
    let mut groups: Vec<ModelGroup> = Vec::new();
    let mut placement: Vec<usize> = Vec::new();
    let total = pages.len();
    let mut done: usize = 0;
    assert(docs.take(0) =~= Seq::<(Model, Map<Register, RowModel>)>::empty());
    while pages.len() > 0
        invariant
            done + pages@.len() == total,
            docs.len() == total,
            forall|i: int| 0 <= i < pages@.len() ==> (#[trigger] pages@[i]).table.wf(),
            forall|i: int|
                0 <= i < pages@.len() ==> (#[trigger] pages@[i]).model == docs[done + i].0
                    && pages@[i].table@ == docs[done + i].1,
            forall|k: int| 0 <= k < groups@.len() ==> (#[trigger] groups@[k]).wf(),
            groups_view(groups@) == spec_group(docs.take(done as int)).groups,
            placement@.len() == done,
            forall|i: int|
                0 <= i < done ==> #[trigger] placement@[i] as int == spec_group(
                    docs.take(done as int),
                ).placement[i],
        decreases pages@.len(),
    {
        let page = pages.remove(0);
        let ghost prev = spec_group(docs.take(done as int));
        let ghost next = spec_group(docs.take(done + 1));
        proof {
            assert(docs.take(done + 1).drop_last() =~= docs.take(done as int));
            assert(docs.take(done + 1).last() == docs[done as int]);
            lemma_first_same(prev.groups, page.table@, 0);
        }
        proof {
            lemma_group_places(docs.take(done as int));
        }
        let mut k: usize = 0;
        let n = groups.len();
        while k < n && !groups[k].table().same_layout(&page.table)
            invariant
                k <= n,
                n == groups@.len(),
                page.table.wf(),
                forall|j: int| 0 <= j < groups@.len() ==> (#[trigger] groups@[j]).wf(),
                groups_view(groups@) == prev.groups,
                first_same(prev.groups, page.table@, 0) == first_same(
                    prev.groups,
                    page.table@,
                    k as int,
                ),
            decreases n - k,
        {
            assert(groups_view(groups@)[k as int] == groups@[k as int]@);
            k += 1;
        }
        if k < n {
            assert(groups_view(groups@)[k as int] == groups@[k as int]@);
            let mut g = groups.remove(k);
            g.insert_model(page.model);
            groups.insert(k, g);
            placement.push(k);
            assert(next.placement[done as int] == k);
        } else {
            groups.push(ModelGroup::new(page.model, page.table));
            placement.push(n);
            assert(next.placement[done as int] == n);
        }
        done += 1;
        assert(groups_view(groups@) =~= next.groups);
        assert forall|i: int| 0 <= i < done implies #[trigger] placement@[i] as int == next.placement[i] by {
            if i < done - 1 {
                assert(placement@[i] as int == prev.placement[i]);
            }
        }
        assert forall|i: int| 0 <= i < pages@.len() implies (#[trigger] pages@[i]).model
            == docs[done + i].0 && pages@[i].table@ == docs[done + i].1 by {}
    }
    assert(docs.take(done as int) =~= docs);
    (groups, placement)
}

/// The groups keep three facts as pages are added: each page's table has
/// the layout of its group's table, the page's model is a member of that
/// group, and no two groups have the same layout.
proof fn lemma_grouping_invariant(docs: Seq<(Model, Map<Register, RowModel>)>)
    ensures
        forall|i: int|
            0 <= i < docs.len() ==> same_layout(
                spec_group(docs).groups[#[trigger] spec_group(docs).placement[i]].table,
                docs[i].1,
            ),
        forall|i: int|
            0 <= i < docs.len() ==> spec_group(docs).groups[#[trigger] spec_group(
                docs,
            ).placement[i]].members.contains(docs[i].0),
        forall|k: int, l: int|
            0 <= k < spec_group(docs).groups.len() && 0 <= l < spec_group(docs).groups.len() && k
                != l ==> !same_layout(
                #[trigger] spec_group(docs).groups[k].table,
                #[trigger] spec_group(docs).groups[l].table,
            ),
    decreases docs.len(),
{
    if docs.len() > 0 {
        let prev = docs.drop_last();
        let g = spec_group(prev);
        let (m, t) = docs.last();
        let now = spec_group(docs);
        lemma_grouping_invariant(prev);
        lemma_group_places(prev);
        lemma_group_places(docs);
        lemma_first_same(g.groups, t, 0);
        assert forall|i: int| 0 <= i < prev.len() implies #[trigger] now.placement[i]
            == g.placement[i] && docs[i] == prev[i] by {}
        match first_same(g.groups, t, 0) {
            Some(i0) => {
                assert forall|k: int| 0 <= k < now.groups.len() implies (#[trigger] now.groups[k]).table
                    == g.groups[k].table by {}
                assert forall|i: int| 0 <= i < docs.len() implies same_layout(
                    now.groups[#[trigger] now.placement[i]].table,
                    docs[i].1,
                ) by {
                    if i < prev.len() {
                        assert(now.placement[i] == g.placement[i]);
                    }
                }
                assert forall|i: int| 0 <= i < docs.len() implies now.groups[#[trigger] now.placement[i]].members.contains(
                    docs[i].0,
                ) by {
                    if i < prev.len() {
                        assert(now.placement[i] == g.placement[i]);
                        assert(g.groups[g.placement[i]].members.contains(prev[i].0));
                    }
                }
            },
            None => {
                assert forall|k: int, l: int|
                    0 <= k < now.groups.len() && 0 <= l < now.groups.len() && k != l implies !same_layout(
                    #[trigger] now.groups[k].table,
                    #[trigger] now.groups[l].table,
                ) by {
                    if k == g.groups.len() {
                        assert(!same_layout(g.groups[l].table, t));
                        if same_layout(t, g.groups[l].table) {
                            crate::table::lemma_same_layout_symmetric(t, g.groups[l].table);
                        }
                    } else if l == g.groups.len() {
                        assert(!same_layout(g.groups[k].table, t));
                    }
                }
                assert forall|i: int| 0 <= i < docs.len() implies same_layout(
                    now.groups[#[trigger] now.placement[i]].table,
                    docs[i].1,
                ) by {
                    if i < prev.len() {
                        assert(now.placement[i] == g.placement[i]);
                    }
                }
                assert forall|i: int| 0 <= i < docs.len() implies now.groups[#[trigger] now.placement[i]].members.contains(
                    docs[i].0,
                ) by {
                    if i < prev.len() {
                        assert(now.placement[i] == g.placement[i]);
                    }
                }
            },
        }
    }
}

/// Pages whose tables have the same layout join the same group, and both
/// their models are members of it.
pub proof fn lemma_same_layout_same_group(docs: Seq<(Model, Map<Register, RowModel>)>, i: int, j: int)
    requires
        0 <= i < docs.len(),
        0 <= j < docs.len(),
        same_layout(docs[i].1, docs[j].1),
    ensures
        spec_group(docs).placement[i] == spec_group(docs).placement[j],
        spec_group(docs).groups[spec_group(docs).placement[i]].members.contains(docs[i].0),
        spec_group(docs).groups[spec_group(docs).placement[i]].members.contains(docs[j].0),
{
    let g = spec_group(docs);
    lemma_grouping_invariant(docs);
    lemma_group_places(docs);
    let pi = g.placement[i];
    let pj = g.placement[j];
    assert(same_layout(g.groups[pi].table, docs[i].1));
    assert(same_layout(g.groups[pj].table, docs[j].1));
    crate::table::lemma_same_layout_transitive(g.groups[pi].table, docs[i].1, docs[j].1);
    crate::table::lemma_same_layout_symmetric(g.groups[pj].table, docs[j].1);
    crate::table::lemma_same_layout_transitive(g.groups[pi].table, docs[j].1, g.groups[pj].table);
    if pi != pj {
        assert(!same_layout(g.groups[pi].table, g.groups[pj].table));
    }
    assert(g.groups[g.placement[j]].members.contains(docs[j].0));
}

/// Pages whose tables differ in the address, size, name or access mode of
/// some register join different groups.
pub proof fn lemma_different_layout_different_group(
    docs: Seq<(Model, Map<Register, RowModel>)>,
    i: int,
    j: int,
)
    requires
        0 <= i < docs.len(),
        0 <= j < docs.len(),
        !same_layout(docs[i].1, docs[j].1),
    ensures
        spec_group(docs).placement[i] != spec_group(docs).placement[j],
{
    let g = spec_group(docs);
    lemma_grouping_invariant(docs);
    lemma_group_places(docs);
    let pi = g.placement[i];
    let pj = g.placement[j];
    assert(same_layout(g.groups[pi].table, docs[i].1));
    assert(same_layout(g.groups[pj].table, docs[j].1));
    if pi == pj {
        crate::table::lemma_same_layout_symmetric(g.groups[pi].table, docs[i].1);
        crate::table::lemma_same_layout_transitive(docs[i].1, g.groups[pi].table, docs[j].1);
    }
}

/// Two tables that differ at most in the range and unit texts of their
/// registers.
pub open spec fn differ_only_in_range_and_unit(
    a: Map<Register, RowModel>,
    b: Map<Register, RowModel>,
) -> bool {
    &&& a.dom() == b.dom()
    &&& forall|g: Register| #[trigger]
        a.contains_key(g) ==> {
            &&& a[g].address == b[g].address
            &&& a[g].size == b[g].size
            &&& a[g].data_name == b[g].data_name
            &&& a[g].access == b[g].access
            &&& a[g].initial_value == b[g].initial_value
            &&& a[g].area == b[g].area
        }
}

/// Pages whose tables differ only in range and unit texts join the same
/// group: those texts take no part in the layout.
pub proof fn lemma_range_and_unit_ignored(docs: Seq<(Model, Map<Register, RowModel>)>, i: int, j: int)
    requires
        0 <= i < docs.len(),
        0 <= j < docs.len(),
        differ_only_in_range_and_unit(docs[i].1, docs[j].1),
    ensures
        spec_group(docs).placement[i] == spec_group(docs).placement[j],
{
    lemma_same_layout_same_group(docs, i, j);
}

/// Appends the names of the families, joined with `sep`.
pub fn append_families(out: &mut String, fs: &Vec<Family>, sep: &str)
    ensures
        final(out)@ == old(out)@ + join_families(fs@, sep@),
{
    let ghost start = out@;
    let mut i: usize = 0;
    assert(fs@.take(0) =~= Seq::<Family>::empty());
    while i < fs.len()
        invariant
            i <= fs@.len(),
            out@ == start + join_families(fs@.take(i as int), sep@),
        decreases fs@.len() - i,
    {
        proof {
            assert(fs@.take(i + 1).drop_last() =~= fs@.take(i as int));
        }
        if i > 0 {
            out.append(sep);
        }
        out.append(fs[i].name());
        i += 1;
        proof {
            if i == 1 {
                assert(out@ =~= start + fs@.take(1)[0].spec_name());
            } else {
                assert(out@ =~= start + join_families(fs@.take(i as int), sep@));
            }
        }
    }
    assert(fs@.take(i as int) =~= fs@);
}

/// Appends the names of the models, joined with `sep`.
pub fn append_models(out: &mut String, ms: &Vec<Model>, sep: &str)
    ensures
        final(out)@ == old(out)@ + join_models(ms@, sep@),
{
    let ghost start = out@;
    let mut i: usize = 0;
    assert(ms@.take(0) =~= Seq::<Model>::empty());
    while i < ms.len()
        invariant
            i <= ms@.len(),
            out@ == start + join_models(ms@.take(i as int), sep@),
        decreases ms@.len() - i,
    {
        proof {
            assert(ms@.take(i + 1).drop_last() =~= ms@.take(i as int));
        }
        if i > 0 {
            out.append(sep);
        }
        out.append(ms[i].name());
        i += 1;
        proof {
            if i == 1 {
                assert(out@ =~= start + ms@.take(1)[0].spec_name());
            } else {
                assert(out@ =~= start + join_models(ms@.take(i as int), sep@));
            }
        }
    }
    assert(ms@.take(i as int) =~= ms@);
}

/// Each page's table has the layout of the table of the group it joined.
pub proof fn lemma_page_layout(docs: Seq<(Model, Map<Register, RowModel>)>, i: int)
    requires
        0 <= i < docs.len(),
    ensures
        0 <= spec_group(docs).placement[i] < spec_group(docs).groups.len(),
        same_layout(spec_group(docs).groups[spec_group(docs).placement[i]].table, docs[i].1),
{
    lemma_grouping_invariant(docs);
    lemma_group_places(docs);
}

/// Every member of a group is the model of some page placed in that group.
proof fn lemma_members_from_pages(docs: Seq<(Model, Map<Register, RowModel>)>)
    ensures
        forall|k: int, m: Model|
            0 <= k < spec_group(docs).groups.len() && #[trigger] spec_group(docs).groups[k].members.contains(m)
                ==> exists|i: int|
                0 <= i < docs.len() && docs[i].0 == m && #[trigger] spec_group(docs).placement[i] == k,
    decreases docs.len(),
{
    if docs.len() > 0 {
        let prev = docs.drop_last();
        let g = spec_group(prev);
        let (m0, t) = docs.last();
        let now = spec_group(docs);
        lemma_members_from_pages(prev);
        lemma_group_places(prev);
        lemma_first_same(g.groups, t, 0);
        assert forall|k: int, m: Model|
            0 <= k < now.groups.len() && #[trigger] now.groups[k].members.contains(m) implies exists|i: int|
                0 <= i < docs.len() && docs[i].0 == m && #[trigger] now.placement[i] == k by {
            let last = docs.len() - 1;
            if now.placement[last] == k && m == m0 {
                assert(docs[last].0 == m);
            } else {
                assert(k < g.groups.len() && g.groups[k].members.contains(m));
                let i = choose|i: int| 0 <= i < prev.len() && prev[i].0 == m && g.placement[i] == k;
                assert(docs[i] == prev[i] && now.placement[i] == g.placement[i]);
            }
        }
    }
}

/// When the pages name distinct models, no model is a member of two groups.
pub proof fn lemma_groups_disjoint(docs: Seq<(Model, Map<Register, RowModel>)>, k: int, l: int, m: Model)
    requires
        forall|i: int, j: int| 0 <= i < j < docs.len() ==> docs[i].0 != docs[j].0,
        0 <= k < spec_group(docs).groups.len(),
        0 <= l < spec_group(docs).groups.len(),
        spec_group(docs).groups[k].members.contains(m),
        spec_group(docs).groups[l].members.contains(m),
    ensures
        k == l,
{
    lemma_members_from_pages(docs);
    let g = spec_group(docs);
    let i = choose|i: int| 0 <= i < docs.len() && docs[i].0 == m && g.placement[i] == k;
    let j = choose|j: int| 0 <= j < docs.len() && docs[j].0 == m && g.placement[j] == l;
    if i < j {
        assert(docs[i].0 != docs[j].0);
    } else if j < i {
        assert(docs[j].0 != docs[i].0);
    }
}

} // verus!
