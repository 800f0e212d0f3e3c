//! The generated directory: every known model and family resolves to the
//! control table of its group.

use vstd::prelude::*;

use crate::grouping::{
    lemma_group_places, lemma_groups_disjoint, spec_group, lemma_same_layout_same_group,
    append_families, append_models, family_members, groups_view, has_family, join_families,
    join_models, spec_aliases, spec_group_name, GroupModel, ModelGroup,
};
use crate::row::{ControlTableRow, RowModel};
use crate::text::lower_of;
use crate::models::ModelGroup as Family;
use crate::models::{lemma_model_index_at, Model, ModelOrModelGroup, MODEL_COUNT};
use crate::register::{Register, RegisterData, REGISTER_COUNT};
use crate::table::ControlTableMap;

verus! {

/// Why a directory could not be built.
#[derive(Clone, Copy, Debug, PartialEq, Eq, Structural)]
pub enum EmitError {
    /// The registry holds a model that no group covers.
    UnknownModelIdentity(Model),
}

/// The group holds the identity: the model is a member, or some member
/// belongs to the family.
pub open spec fn holds(g: GroupModel, id: ModelOrModelGroup) -> bool {
    match id {
        ModelOrModelGroup::Model(m) => g.members.contains(m),
        ModelOrModelGroup::ModelGroup(f) => has_family(g.members, f),
    }
}

/// The first group, from position `k` on, that holds the identity.
pub open spec fn holder_from(gs: Seq<GroupModel>, id: ModelOrModelGroup, k: int) -> Option<int>
    decreases gs.len() - k,
{
    if k < 0 || k >= gs.len() {
        None
    } else if holds(gs[k], id) {
        Some(k)
    } else {
        holder_from(gs, id, k + 1)
    }
}

/// The group an identity resolves to: the first that holds it.
pub open spec fn holder(gs: Seq<GroupModel>, id: ModelOrModelGroup) -> Option<int> {
    holder_from(gs, id, 0)
}

/// The address and size that an identity's table gives a register.
pub open spec fn spec_lookup(gs: Seq<GroupModel>, id: ModelOrModelGroup, reg: Register) -> Option<
    RegisterData,
> {
    match holder(gs, id) {
        Some(k) => if gs[k].table.contains_key(reg) {
            Some(
                RegisterData {
                    address: gs[k].table[reg].address,
                    length: gs[k].table[reg].size,
                },
            )
        } else {
            None
        },
        None => None,
    }
}

/// Some group holds the model.
pub open spec fn model_held(gs: Seq<GroupModel>, m: Model) -> bool {
    holder(gs, ModelOrModelGroup::Model(m)) is Some
}

/// Every model of the registry is held by some group.
pub open spec fn covers_registry(gs: Seq<GroupModel>) -> bool {
    forall|m: Model| #[trigger] model_held(gs, m)
}

proof fn lemma_holder_from(gs: Seq<GroupModel>, id: ModelOrModelGroup, k: int)
    requires
        0 <= k,
    ensures
        match holder_from(gs, id, k) {
            Some(i) => k <= i < gs.len() && holds(gs[i], id) && forall|j: int|
                k <= j < i ==> !holds(#[trigger] gs[j], id),
            None => forall|j: int| k <= j < gs.len() ==> !holds(#[trigger] gs[j], id),
        },
    decreases gs.len() - k,
{
    if k < gs.len() && !holds(gs[k], id) {
        lemma_holder_from(gs, id, k + 1);
    }
}

/// Every family of the registry has a model.
pub proof fn lemma_family_has_model(f: Family)
    ensures
        exists|m: Model| #[trigger] m.spec_model_group() == f,
{
    match f {
        Family::XL330 => {
            assert(Model::XL330_M077.spec_model_group() == f);
        },
        Family::PH42 => {
            assert(Model::PH42_020_S300_R.spec_model_group() == f);
        },
        Family::PH54 => {
            assert(Model::PH54_100_S500_R.spec_model_group() == f);
        },
        Family::PM42 => {
            assert(Model::PM42_010_S260_R.spec_model_group() == f);
        },
        Family::PM54 => {
            assert(Model::PM54_040_S250_R.spec_model_group() == f);
        },
        Family::XC330 => {
            assert(Model::XC330_M181.spec_model_group() == f);
        },
        Family::XC430 => {
            assert(Model::XC430_W150.spec_model_group() == f);
        },
        Family::XD430 => {
            assert(Model::XD430_T210.spec_model_group() == f);
        },
        Family::XD540 => {
            assert(Model::XD540_T150.spec_model_group() == f);
        },
        Family::XH430 => {
            assert(Model::XH430_V210.spec_model_group() == f);
        },
        Family::XH540 => {
            assert(Model::XH540_W150.spec_model_group() == f);
        },
        Family::XL430 => {
            assert(Model::XL430_W250.spec_model_group() == f);
        },
        Family::XM430 => {
            assert(Model::XM430_W210.spec_model_group() == f);
        },
        Family::XM540 => {
            assert(Model::XM540_W150.spec_model_group() == f);
        },
        Family::XW540 => {
            assert(Model::XW540_T140.spec_model_group() == f);
        },
        Family::YM070 => {
            assert(Model::YM070_210_M001_RH.spec_model_group() == f);
        },
        Family::YM080 => {
            assert(Model::YM080_230_M001_RH.spec_model_group() == f);
        },
    }
}

/// When every model is held by some group, so is every family.
pub proof fn lemma_families_covered(gs: Seq<GroupModel>, f: Family)
    requires
        covers_registry(gs),
    ensures
        holder(gs, ModelOrModelGroup::ModelGroup(f)) is Some,
{
    lemma_family_has_model(f);
    let m = choose|m: Model| #[trigger] m.spec_model_group() == f;
    assert(model_held(gs, m));
    lemma_holder_from(gs, ModelOrModelGroup::Model(m), 0);
    let k = holder(gs, ModelOrModelGroup::Model(m))->Some_0;
    assert(gs[k].members.contains(m));
    lemma_holder_from(gs, ModelOrModelGroup::ModelGroup(f), 0);
    assert(holds(gs[k], ModelOrModelGroup::ModelGroup(f)));
}

/// Each register of a group's table is found, with its address and size,
/// under every member of the group that no earlier group holds; a register
/// the table lacks is not found.
pub proof fn lemma_round_trip(gs: Seq<GroupModel>, k: int, m: Model, reg: Register)
    requires
        0 <= k < gs.len(),
        gs[k].members.contains(m),
        forall|j: int| 0 <= j < k ==> !(#[trigger] gs[j]).members.contains(m),
    ensures
        gs[k].table.contains_key(reg) ==> spec_lookup(gs, ModelOrModelGroup::Model(m), reg) == Some(
            RegisterData { address: gs[k].table[reg].address, length: gs[k].table[reg].size },
        ),
        !gs[k].table.contains_key(reg) ==> spec_lookup(gs, ModelOrModelGroup::Model(m), reg)
            is None,
{
    lemma_holder_from(gs, ModelOrModelGroup::Model(m), 0);
    assert(holds(gs[k], ModelOrModelGroup::Model(m)));
    assert(holder(gs, ModelOrModelGroup::Model(m)) == Some(k));
}

/// The control tables of all groups, with the dispatch from every model
/// and family of the registry to its group.
#[derive(Debug)]
pub struct Directory {
    groups: Vec<ModelGroup>,
}

impl View for Directory {
    type V = Seq<GroupModel>;

    closed spec fn view(&self) -> Seq<GroupModel> {
        groups_view(self.groups@)
    }
}

impl Directory {
    /// Every group is well formed and the registry is covered.
    pub closed spec fn wf(&self) -> bool {
        &&& forall|k: int| 0 <= k < self.groups@.len() ==> (#[trigger] self.groups@[k]).wf()
        &&& covers_registry(self@)
    }

    /// The groups, in the order they were formed.
    pub fn groups(&self) -> (r: &Vec<ModelGroup>)
        requires
            self.wf(),
        ensures
            groups_view(r@) == self@,
            forall|k: int| 0 <= k < r@.len() ==> (#[trigger] r@[k]).wf(),
    {
        &self.groups
    }

    /// The position of the group an identity resolves to.
    pub fn holder(&self, id: ModelOrModelGroup) -> (r: usize)
        requires
            self.wf(),
        ensures
            holder(self@, id) == Some(r as int),
            r < self@.len(),
    {
        proof {
            match id {
                ModelOrModelGroup::Model(m) => {
                    assert(model_held(self@, m));
                },
                ModelOrModelGroup::ModelGroup(f) => {
                    lemma_families_covered(self@, f);
                },
            }
            lemma_holder_from(self@, id, 0);
        }
        let mut k: usize = 0;
        let n = self.groups.len();
        loop
            invariant
                k < n,
                n == self.groups@.len(),
                self.wf(),
                holder(self@, id) == holder_from(self@, id, k as int),
                holder(self@, id) is Some,
            decreases n - k,
        {
            assert(self@[k as int] == self.groups@[k as int]@);
            let here = match id {
                ModelOrModelGroup::Model(m) => self.groups[k].contains(m),
                ModelOrModelGroup::ModelGroup(f) => self.groups[k].has_family(f),
            };
            if here {
                return k;
            }
            proof {
                lemma_holder_from(self@, id, k + 1);
            }
            k += 1;
        }
    }

    /// The table an identity resolves to.
    pub fn table_for(&self, id: ModelOrModelGroup) -> (r: &ControlTableMap)
        requires
            self.wf(),
        ensures
            r.wf(),
            holder(self@, id) matches Some(k) && r@ == self@[k].table,
    {
        let k = self.holder(id);
        assert(self@[k as int] == self.groups@[k as int]@);
        self.groups[k].table()
    }

    /// The address and size of a register in the table an identity
    /// resolves to.
    pub fn get(&self, id: ModelOrModelGroup, reg: Register) -> (r: Option<RegisterData>)
        requires
            self.wf(),
        ensures
            r == spec_lookup(self@, id, reg),
    {
        self.table_for(id).register_data(reg)
    }
}

/// Builds the directory of some groups, after checking that every model of
/// the registry is held by one of them; otherwise names the first model, in
/// registry order, that none holds.
pub fn build_directory(groups: Vec<ModelGroup>) -> (r: Result<Directory, EmitError>)
    requires
        forall|k: int| 0 <= k < groups@.len() ==> (#[trigger] groups@[k]).wf(),
    ensures
        match r {
            Ok(d) => d.wf() && d@ == groups_view(groups@),
            Err(EmitError::UnknownModelIdentity(m)) => holder(groups_view(groups@), ModelOrModelGroup::Model(m)) is None
                && forall|x: Model|
                x.spec_index() < m.spec_index() ==> #[trigger] model_held(groups_view(groups@), x),
        },
        r is Ok <==> covers_registry(groups_view(groups@)),
{
    let ghost gs = groups_view(groups@);
    let mut i: usize = 0;
    while i < MODEL_COUNT
        invariant
            i <= MODEL_COUNT,
            gs == groups_view(groups@),
            forall|k: int| 0 <= k < groups@.len() ==> (#[trigger] groups@[k]).wf(),
            forall|x: Model|
                x.spec_index() < i ==> #[trigger] model_held(gs, x),
        decreases MODEL_COUNT - i,
    {
        let m = Model::at(i);
        let mut k: usize = 0;
        proof {
            lemma_holder_from(gs, ModelOrModelGroup::Model(m), 0);
        }
        while k < groups.len() && !groups[k].contains(m)
            invariant
                k <= groups@.len(),
                gs == groups_view(groups@),
                forall|j: int| 0 <= j < groups@.len() ==> (#[trigger] groups@[j]).wf(),
                forall|j: int| 0 <= j < k ==> !(#[trigger] gs[j]).members.contains(m),
            decreases groups@.len() - k,
        {
            assert(gs[k as int] == groups@[k as int]@);
            k += 1;
        }
        let found = k < groups.len();
        if found {
            assert(gs[k as int] == groups@[k as int]@);
            assert(holds(gs[k as int], ModelOrModelGroup::Model(m)));
        }
        if !found {
            proof {
                lemma_holder_from(gs, ModelOrModelGroup::Model(m), 0);
                assert(!model_held(gs, m));
                assert(!covers_registry(gs));
            }
            return Err(EmitError::UnknownModelIdentity(m));
        }
        assert forall|x: Model| x.spec_index() < i + 1 implies #[trigger] model_held(gs, x) by {
            lemma_model_index_at(x);
        }
        i += 1;
    }
    assert forall|x: Model| #[trigger] model_held(gs, x) by {
        lemma_model_index_at(x);
    }
    Ok(Directory { groups })
}

/// Opening of the source of a group's table.
pub const TABLE_HEAD: &'static str = "//! Control table shared by the models of one layout.\n\nuse crate::model;\n\nmodel![";

/// Opening of the source of a dispatch.
pub const DISPATCH_HEAD: &'static str = "\npub(crate) fn control_table_from_model(model: &dynamixel_registers::models::Model) -> &'static std::collections::HashMap<dynamixel_registers::Register, dynamixel_registers::RegisterData> {\n    use dynamixel_registers::models::Model::*;\n    match model {\n";

/// Middle of the source of a dispatch, between its two functions.
pub const DISPATCH_MIDDLE: &'static str = "    }\n}\n\npub(crate) fn control_table_from_model_group(model_group: &dynamixel_registers::models::ModelGroup) -> &'static std::collections::HashMap<dynamixel_registers::Register, dynamixel_registers::RegisterData> {\n    use dynamixel_registers::models::ModelGroup;\n    match model_group {\n";

/// End of the source of a dispatch.
pub const DISPATCH_TAIL: &'static str = "    }\n}\n";

/// The text of one decimal digit.
pub open spec fn digit_text(d: nat) -> Seq<char> {
        if d == 0 {
            "0"@
        } else         if d == 1 {
            "1"@
        } else         if d == 2 {
            "2"@
        } else         if d == 3 {
            "3"@
        } else         if d == 4 {
            "4"@
        } else         if d == 5 {
            "5"@
        } else         if d == 6 {
            "6"@
        } else         if d == 7 {
            "7"@
        } else         if d == 8 {
            "8"@
        } else {
            "9"@
        }
}

/// The decimal text of `n`, most significant digit first.
pub open spec fn decimal(n: nat) -> Seq<char>
    decreases n,
{
    if n < 10 {
        digit_text(n)
    } else {
        decimal(n / 10) + digit_text(n % 10)
    }
}

fn digit_str(d: u16) -> (r: &'static str)
    requires
        d < 10,
    ensures
        r@ == digit_text(d as nat),
{
    match d {
        0 => "0",
        1 => "1",
        2 => "2",
        3 => "3",
        4 => "4",
        5 => "5",
        6 => "6",
        7 => "7",
        8 => "8",
        _ => "9",
    }
}

/// Appends the decimal text of `n`.
pub fn append_decimal(out: &mut String, n: u16)
    ensures
        final(out)@ == old(out)@ + decimal(n as nat),
    decreases n,
{
    if n >= 10 {
        append_decimal(out, n / 10);
    }
    out.append(digit_str(n % 10));
    assert(final(out)@ =~= old(out)@ + decimal(n as nat)) by {
        if n < 10 {
            assert(n % 10 == n);
        }
    }
}

/// The entry of a register in the source of a table: its name, address
/// and size.
pub open spec fn macro_line(r: RowModel) -> Seq<char> {
    r.data_name.spec_name() + ": "@ + decimal(r.address as nat) + ", "@ + decimal(r.size as nat)
        + ",\n"@
}

/// The line of a register in the source of a table.
pub open spec fn row_line(r: RowModel) -> Seq<char> {
    "   "@ + macro_line(r)
}

impl ControlTableRow {
    /// The entry of the register in the source of a table: its name,
    /// address and size.
    pub fn to_macro_line(&self) -> (r: String)
        ensures
            r@ == macro_line(self@),
    {
        let mut out = String::from_str(self.data_name.name());
        out.append(": ");
        append_decimal(&mut out, self.address);
        out.append(", ");
        append_decimal(&mut out, self.size);
        out.append(",\n");
        assert(out@ =~= macro_line(self@));
        out
    }
}

/// The lines of the registers among the first `i` of the vocabulary, in
/// vocabulary order.
pub open spec fn rows_text(t: Map<Register, RowModel>, i: nat) -> Seq<char>
    decreases i,
{
    if i == 0 {
        Seq::empty()
    } else {
        let g = Register::spec_at((i - 1) as nat);
        rows_text(t, (i - 1) as nat) + if t.contains_key(g) {
            row_line(t[g])
        } else {
            Seq::empty()
        }
    }
}

/// The source of a group's table: the table under each alias of the group.
pub open spec fn spec_group_source(g: GroupModel) -> Seq<char> {
    TABLE_HEAD@ + join_families(spec_aliases(g.members), " "@) + " => {\n"@ + rows_text(
        g.table,
        REGISTER_COUNT as nat,
    ) + "}];\n"@
}

/// The source of a group's table: the table under each alias of the group,
/// one line per register in vocabulary order.
pub fn group_source(group: &ModelGroup) -> (r: String)
    requires
        group.wf(),
    ensures
        r@ == spec_group_source(group@),
{
    let mut out = String::from_str(TABLE_HEAD);
    let fams = group.aliases();
    append_families(&mut out, &fams, " ");
    out.append(" => {\n");
    let table = group.table();
    let ghost head = out@;
    let mut i: usize = 0;
    while i < REGISTER_COUNT
        invariant
            i <= REGISTER_COUNT,
            table.wf(),
            out@ == head + rows_text(table@, i as nat),
        decreases REGISTER_COUNT - i,
    {
        let g = Register::at(i);
        let ghost before = out@;
        match table.get(g) {
            Some(row) => {
                out.append("   ");
                let line = row.to_macro_line();
                out.append(line.as_str());
                assert(out@ =~= before + row_line(row@));
            },
            None => {},
        }
        i += 1;
        assert(out@ =~= head + rows_text(table@, i as nat));
    }
    out.append("}];\n");
    out
}

/// The lines that make a group's file a module of the generated code.
pub open spec fn spec_module_lines(g: GroupModel) -> Seq<char> {
    let f = lower_of(spec_group_name(g.members));
    "mod "@ + f + ";\npub use "@ + f + "::*;\n"@
}

/// The lines that make a group's file a module of the generated code.
pub fn module_lines(group: &ModelGroup) -> (r: String)
    requires
        group.wf(),
    ensures
        r@ == spec_module_lines(group@),
{
    let file = group.file_name();
    let mut out = String::from_str("mod ");
    out.append(file.as_str());
    out.append(";\npub use ");
    out.append(file.as_str());
    out.append("::*;\n");
    assert(out@ =~= spec_module_lines(group@));
    out
}

/// The dispatch line for the members of family `f`.
pub open spec fn model_arm(members: Set<Model>, f: Family) -> Seq<char> {
    "        "@ + join_models(family_members(members, f), " | "@) + " => "@ + f.spec_name()
        + "::table(),\n"@
}

/// The dispatch lines for the members of each family in `fs`.
pub open spec fn model_arms(members: Set<Model>, fs: Seq<Family>) -> Seq<char>
    decreases fs.len(),
{
    if fs.len() == 0 {
        Seq::empty()
    } else {
        model_arms(members, fs.drop_last()) + model_arm(members, fs.last())
    }
}

/// The dispatch line for family `f`.
pub open spec fn family_arm(f: Family) -> Seq<char> {
    "        ModelGroup::"@ + f.spec_name() + " => "@ + f.spec_name() + "::table(),\n"@
}

/// The dispatch lines for each family in `fs`.
pub open spec fn family_arms(fs: Seq<Family>) -> Seq<char>
    decreases fs.len(),
{
    if fs.len() == 0 {
        Seq::empty()
    } else {
        family_arms(fs.drop_last()) + family_arm(fs.last())
    }
}

/// The model dispatch lines of all groups, group by group.
pub open spec fn groups_model_arms(gs: Seq<GroupModel>) -> Seq<char>
    decreases gs.len(),
{
    if gs.len() == 0 {
        Seq::empty()
    } else {
        groups_model_arms(gs.drop_last()) + model_arms(gs.last().members, spec_aliases(gs.last().members))
    }
}

/// The family dispatch lines of all groups, group by group.
pub open spec fn groups_family_arms(gs: Seq<GroupModel>) -> Seq<char>
    decreases gs.len(),
{
    if gs.len() == 0 {
        Seq::empty()
    } else {
        groups_family_arms(gs.drop_last()) + family_arms(spec_aliases(gs.last().members))
    }
}

/// The source of the dispatch from every model and family of the groups to
/// its table.
pub open spec fn spec_dispatch_source(gs: Seq<GroupModel>) -> Seq<char> {
    DISPATCH_HEAD@ + groups_model_arms(gs) + DISPATCH_MIDDLE@ + groups_family_arms(gs)
        + DISPATCH_TAIL@
}

fn append_model_arms(out: &mut String, group: &ModelGroup)
    requires
        group.wf(),
    ensures
        final(out)@ == old(out)@ + model_arms(group@.members, spec_aliases(group@.members)),
{
    let fams = group.aliases();
    let ghost start = out@;
    let mut i: usize = 0;
    assert(fams@.take(0) =~= Seq::<Family>::empty());
    while i < fams.len()
        invariant
            i <= fams@.len(),
            group.wf(),
            fams@ == spec_aliases(group@.members),
            out@ == start + model_arms(group@.members, fams@.take(i as int)),
        decreases fams@.len() - i,
    {
        let f = fams[i];
        let ghost before = out@;
        let members = group.members_of(f);
        out.append("        ");
        append_models(out, &members, " | ");
        out.append(" => ");
        out.append(f.name());
        out.append("::table(),\n");
        proof {
            assert(fams@.take(i + 1).drop_last() =~= fams@.take(i as int));
            assert(out@ =~= before + model_arm(group@.members, f));
        }
        i += 1;
        assert(out@ =~= start + model_arms(group@.members, fams@.take(i as int)));
    }
    assert(fams@.take(i as int) =~= fams@);
}

fn append_family_arms(out: &mut String, group: &ModelGroup)
    requires
        group.wf(),
    ensures
        final(out)@ == old(out)@ + family_arms(spec_aliases(group@.members)),
{
    let fams = group.aliases();
    let ghost start = out@;
    let mut i: usize = 0;
    assert(fams@.take(0) =~= Seq::<Family>::empty());
    while i < fams.len()
        invariant
            i <= fams@.len(),
            out@ == start + family_arms(fams@.take(i as int)),
        decreases fams@.len() - i,
    {
        let f = fams[i];
        let ghost before = out@;
        out.append("        ModelGroup::");
        out.append(f.name());
        out.append(" => ");
        out.append(f.name());
        out.append("::table(),\n");
        proof {
            assert(fams@.take(i + 1).drop_last() =~= fams@.take(i as int));
            assert(out@ =~= before + family_arm(f));
        }
        i += 1;
        assert(out@ =~= start + family_arms(fams@.take(i as int)));
    }
    assert(fams@.take(i as int) =~= fams@);
}

/// The source of the dispatch from every model and family of the groups to
/// its table: one case per family of each group, in group order.
pub fn dispatch_source(groups: &Vec<ModelGroup>) -> (r: String)
    requires
        forall|k: int| 0 <= k < groups@.len() ==> (#[trigger] groups@[k]).wf(),
    ensures
        r@ == spec_dispatch_source(groups_view(groups@)),
{
    let ghost gs = groups_view(groups@);
    let mut out = String::from_str(DISPATCH_HEAD);
    let ghost head = out@;
    let mut i: usize = 0;
    assert(gs.take(0) =~= Seq::<GroupModel>::empty());
    while i < groups.len()
        invariant
            i <= groups@.len(),
            gs == groups_view(groups@),
            forall|k: int| 0 <= k < groups@.len() ==> (#[trigger] groups@[k]).wf(),
            out@ == head + groups_model_arms(gs.take(i as int)),
        decreases groups@.len() - i,
    {
        let ghost before = out@;
        append_model_arms(&mut out, &groups[i]);
        proof {
            assert(gs.take(i + 1).drop_last() =~= gs.take(i as int));
            assert(gs.take(i + 1).last() == groups@[i as int]@);
        }
        i += 1;
        assert(out@ =~= head + groups_model_arms(gs.take(i as int)));
    }
    assert(gs.take(i as int) =~= gs);
    out.append(DISPATCH_MIDDLE);
    let ghost middle = out@;
    let mut j: usize = 0;
    assert(gs.take(0) =~= Seq::<GroupModel>::empty());
    while j < groups.len()
        invariant
            j <= groups@.len(),
            gs == groups_view(groups@),
            forall|k: int| 0 <= k < groups@.len() ==> (#[trigger] groups@[k]).wf(),
            out@ == middle + groups_family_arms(gs.take(j as int)),
        decreases groups@.len() - j,
    {
        append_family_arms(&mut out, &groups[j]);
        proof {
            assert(gs.take(j + 1).drop_last() =~= gs.take(j as int));
            assert(gs.take(j + 1).last() == groups@[j as int]@);
        }
        j += 1;
        assert(out@ =~= middle + groups_family_arms(gs.take(j as int)));
    }
    assert(gs.take(j as int) =~= gs);
    out.append(DISPATCH_TAIL);
    assert(out@ =~= spec_dispatch_source(gs));
    out
}

/// For the groups of pages that name distinct models, each register of a
/// page's table is found under the page's model with the address and size
/// of the page's row, and a register the table lacks is not found.
pub proof fn lemma_grouped_round_trip(
    docs: Seq<(Model, Map<Register, RowModel>)>,
    i: int,
    reg: Register,
)
    requires
        forall|a: int, b: int| 0 <= a < b < docs.len() ==> docs[a].0 != docs[b].0,
        0 <= i < docs.len(),
    ensures
        docs[i].1.contains_key(reg) ==> spec_lookup(
            spec_group(docs).groups,
            ModelOrModelGroup::Model(docs[i].0),
            reg,
        ) == Some(RegisterData { address: docs[i].1[reg].address, length: docs[i].1[reg].size }),
        !docs[i].1.contains_key(reg) ==> spec_lookup(
            spec_group(docs).groups,
            ModelOrModelGroup::Model(docs[i].0),
            reg,
        ) is None,
{
    let gs = spec_group(docs).groups;
    let k = spec_group(docs).placement[i];
    let m = docs[i].0;
    lemma_group_places(docs);
    lemma_same_layout_same_group(docs, i, i);
    assert forall|j: int| 0 <= j < k implies !(#[trigger] gs[j]).members.contains(m) by {
        if gs[j].members.contains(m) {
            lemma_groups_disjoint(docs, j, k, m);
        }
    }
    lemma_round_trip(gs, k, m, reg);
    crate::grouping::lemma_page_layout(docs, i);
}

} // verus!
