//! The control table of one model or model family, looked up in a
//! generated directory.

use vstd::prelude::*;

use crate::emit::{lemma_grouped_round_trip, lemma_round_trip, spec_lookup, Directory};
use crate::grouping::{spec_group, GroupModel};
use crate::row::RowModel;
use crate::models::{model_by_number, Error, Model, ModelGroup, ModelOrModelGroup};
use crate::register::{lemma_index_at, Register, RegisterData, REGISTER_COUNT};

verus! {

/// The value of a control table: the exact model when known, its family,
/// and the address and size of each register it has.
pub struct ControlTableModel {
    pub model: Option<Model>,
    pub model_group: ModelGroup,
    pub registers: Map<Register, RegisterData>,
}

/// The entry of a map as an option.
pub open spec fn map_get(m: Map<Register, RegisterData>, g: Register) -> Option<RegisterData> {
    if m.contains_key(g) {
        Some(m[g])
    } else {
        None
    }
}

/// The control table of one model, or of a model family when the exact
/// model is not known.
#[derive(Clone, Debug, PartialEq, Eq)]
pub struct ControlTable {
    model: Option<Model>,
    model_group: ModelGroup,
    table: Vec<Option<RegisterData>>,
}

impl View for ControlTable {
    type V = ControlTableModel;

    closed spec fn view(&self) -> ControlTableModel {
        ControlTableModel {
            model: self.model,
            model_group: self.model_group,
            registers: Map::new(
                |g: Register| self.table@[g.spec_index() as int] is Some,
                |g: Register| self.table@[g.spec_index() as int]->Some_0,
            ),
        }
    }
}

impl ControlTable {
    /// One slot per register of the vocabulary.
    pub closed spec fn wf(&self) -> bool {
        self.table@.len() == REGISTER_COUNT
    }

    fn lookup(directory: &Directory, id: ModelOrModelGroup, model: Option<Model>, model_group: ModelGroup) -> (r: ControlTable)
        requires
            directory.wf(),
        ensures
            r.wf(),
            r@.model == model,
            r@.model_group == model_group,
            forall|g: Register| #[trigger] map_get(r@.registers, g) == spec_lookup(directory@, id, g),
    {
        let mut table: Vec<Option<RegisterData>> = Vec::new();
        let mut i: usize = 0;
        while i < REGISTER_COUNT
            invariant
                i <= REGISTER_COUNT,
                directory.wf(),
                table@.len() == i,
                forall|j: int|
                    0 <= j < i ==> #[trigger] table@[j] == spec_lookup(
                        directory@,
                        id,
                        Register::spec_at(j as nat),
                    ),
            decreases REGISTER_COUNT - i,
        {
            let g = Register::at(i);
            table.push(directory.get(id, g));
            i += 1;
        }
        let r = ControlTable { model, model_group, table };
        assert forall|g: Register| #[trigger] map_get(r@.registers, g) == spec_lookup(
            directory@,
            id,
            g,
        ) by {
            lemma_index_at(g);
        }
        r
    }

    /// The control table of a model family.
    pub fn new(directory: &Directory, model_group: ModelGroup) -> (r: ControlTable)
        requires
            directory.wf(),
        ensures
            r.wf(),
            r@.model is None,
            r@.model_group == model_group,
            forall|g: Register| #[trigger]
                map_get(r@.registers, g) == spec_lookup(
                    directory@,
                    ModelOrModelGroup::ModelGroup(model_group),
                    g,
                ),
    {
        ControlTable::lookup(directory, ModelOrModelGroup::ModelGroup(model_group), None, model_group)
    }

    /// The control table of an exact model.
    pub fn new_with_model(directory: &Directory, model: Model) -> (r: ControlTable)
        requires
            directory.wf(),
        ensures
            r.wf(),
            r@.model == Some(model),
            r@.model_group == model.spec_model_group(),
            forall|g: Register| #[trigger]
                map_get(r@.registers, g) == spec_lookup(directory@, ModelOrModelGroup::Model(model), g),
    {
        let family = model.model_group();
        ControlTable::lookup(directory, ModelOrModelGroup::Model(model), Some(model), family)
    }

    /// The exact model, when the table was made for one.
    pub fn model(&self) -> (r: Option<Model>)
        ensures
            r == self@.model,
    {
        self.model
    }

    /// The model family.
    pub fn model_group(&self) -> (r: ModelGroup)
        ensures
            r == self@.model_group,
    {
        self.model_group
    }

    /// The identity the table was made for: the exact model when known,
    /// else the family.
    pub fn identity(&self) -> (r: ModelOrModelGroup)
        ensures
            r == match self@.model {
                Some(m) => ModelOrModelGroup::Model(m),
                None => ModelOrModelGroup::ModelGroup(self@.model_group),
            },
    {
        match self.model {
            Some(m) => ModelOrModelGroup::Model(m),
            None => ModelOrModelGroup::ModelGroup(self.model_group),
        }
    }

    /// The address and size of a register, if the table has it.
    pub fn get(&self, register: Register) -> (r: Option<RegisterData>)
        requires
            self.wf(),
        ensures
            r == map_get(self@.registers, register),
    {
        self.table[register.index()]
    }
}

/// The control table of a model or of a family.
pub fn from_model(directory: &Directory, id: ModelOrModelGroup) -> (r: ControlTable)
    requires
        directory.wf(),
    ensures
        r.wf(),
        match id {
            ModelOrModelGroup::Model(m) => r@.model == Some(m) && r@.model_group
                == m.spec_model_group(),
            ModelOrModelGroup::ModelGroup(f) => r@.model is None && r@.model_group == f,
        },
        forall|g: Register| #[trigger] map_get(r@.registers, g) == spec_lookup(directory@, id, g),
{
    match id {
        ModelOrModelGroup::Model(m) => ControlTable::new_with_model(directory, m),
        ModelOrModelGroup::ModelGroup(f) => ControlTable::new(directory, f),
    }
}

/// The control table of the model with the given number;
/// `Error::UnknownModel` when the registry holds no such model.
pub fn try_from_model(directory: &Directory, number: u16) -> (r: Result<ControlTable, Error>)
    requires
        directory.wf(),
    ensures
        match model_by_number(number) {
            None => r == Err::<ControlTable, Error>(Error::UnknownModel),
            Some(m) => r matches Ok(t) && t.wf() && t@.model == Some(m) && t@.model_group
                == m.spec_model_group() && forall|g: Register| #[trigger]
                map_get(t@.registers, g) == spec_lookup(directory@, ModelOrModelGroup::Model(m), g),
        },
{
    match Model::from_number(number) {
        Some(m) => Ok(ControlTable::new_with_model(directory, m)),
        None => Err(Error::UnknownModel),
    }
}

/// The control table of a model, as `new_with_model` makes it from a
/// directory, gives each register of the model's group with its address and
/// size, and no register that the group's table lacks; the group is the one
/// the model resolves to, the first that holds it.
pub proof fn lemma_control_table_round_trip(
    ct: ControlTable,
    gs: Seq<GroupModel>,
    k: int,
    m: Model,
    reg: Register,
)
    requires
        forall|g: Register| #[trigger]
            map_get(ct@.registers, g) == spec_lookup(gs, ModelOrModelGroup::Model(m), g),
        0 <= k < gs.len(),
        gs[k].members.contains(m),
        forall|j: int| 0 <= j < k ==> !(#[trigger] gs[j]).members.contains(m),
    ensures
        gs[k].table.contains_key(reg) ==> map_get(ct@.registers, reg) == Some(
            RegisterData { address: gs[k].table[reg].address, length: gs[k].table[reg].size },
        ),
        !gs[k].table.contains_key(reg) ==> map_get(ct@.registers, reg) is None,
{
    lemma_round_trip(gs, k, m, reg);
    assert(map_get(ct@.registers, reg) == spec_lookup(gs, ModelOrModelGroup::Model(m), reg));
}

/// The control table of a page's model, made from the directory of the
/// groups of pages that name distinct models, gives each register of the
/// page's table with its address and size, and no register the table lacks.
pub proof fn lemma_page_control_table_round_trip(
    ct: ControlTable,
    docs: Seq<(Model, Map<Register, RowModel>)>,
    i: int,
    reg: Register,
)
    requires
        forall|a: int, b: int| 0 <= a < b < docs.len() ==> docs[a].0 != docs[b].0,
        0 <= i < docs.len(),
        forall|g: Register| #[trigger]
            map_get(ct@.registers, g) == spec_lookup(
                spec_group(docs).groups,
                ModelOrModelGroup::Model(docs[i].0),
                g,
            ),
    ensures
        docs[i].1.contains_key(reg) ==> ct@.registers.contains_key(reg) && ct@.registers[reg]
            == (RegisterData { address: docs[i].1[reg].address, length: docs[i].1[reg].size }),
        !docs[i].1.contains_key(reg) ==> !ct@.registers.contains_key(reg),
{
    lemma_grouped_round_trip(docs, i, reg);
    assert(map_get(ct@.registers, reg) == spec_lookup(
        spec_group(docs).groups,
        ModelOrModelGroup::Model(docs[i].0),
        reg,
    ));
}

} // verus!
