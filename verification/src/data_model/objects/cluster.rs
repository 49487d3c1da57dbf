//! The static metadata of a cluster type, and the global attributes that it
//! answers.
use vstd::prelude::*;

use super::attribute::{
    is_system_attr, spec_global_attrs, Access, AttrId, Attribute, ClusterId, CmdId, GlobalElements,
    Quality,
};
use super::encoder::{AttrDataWriter, AttrSinkView, ReadOutcome};
use super::value::{copy_of, AttrValue, AttrValueView};
use crate::error::Error;

verus! {

/// The numbers of the attributes that `attributes` describes, in their
/// order.
pub open spec fn ids_of(attributes: Seq<Attribute>) -> Seq<AttrId> {
    attributes.map_values(|attribute: Attribute| attribute.id)
}

/// The model of a `Cluster`.
pub struct ClusterView {
    pub id: ClusterId,
    pub revision: u16,
    pub feature_map: u32,
    pub attributes: Seq<Attribute>,
    pub accepted_commands: Seq<CmdId>,
    pub generated_commands: Seq<CmdId>,
}

impl ClusterView {
    /// Whether the cluster declares the attribute `id`: whether its
    /// attribute list holds a descriptor with that number.
    pub open spec fn declares(self, id: AttrId) -> bool {
        ids_of(self.attributes).contains(id)
    }

    /// Whether the cluster accepts the command `id`.
    pub open spec fn accepts(self, id: CmdId) -> bool {
        self.accepted_commands.contains(id)
    }

    /// What the metadata answers for the global attribute `global`.
    pub open spec fn global(self, global: GlobalElements) -> AttrValueView {
        match global {
            GlobalElements::GeneratedCmdList => AttrValueView::IdList(self.generated_commands),
            GlobalElements::AcceptedCmdList => AttrValueView::IdList(self.accepted_commands),
            GlobalElements::AttributeList => AttrValueView::IdList(ids_of(self.attributes)),
            GlobalElements::FeatureMap => AttrValueView::U32(self.feature_map),
            GlobalElements::ClusterRevision => AttrValueView::U16(self.revision),
        }
    }

    /// The two tiers of the attribute dispatch. The global attributes come
    /// first, and the metadata answers them. Any other number goes to the
    /// cells of the instance: `cell` is what they hold for it, `None` where
    /// the instance has no cell with that number.
    pub open spec fn resolve(self, id: AttrId, cell: Option<AttrValueView>) -> Option<
        AttrValueView,
    > {
        match GlobalElements::spec_from_repr(id) {
            Some(global) => Some(self.global(global)),
            None => cell,
        }
    }

    /// What `Cluster::read` does with the attribute `id` and a sink: it
    /// answers a global attribute, and knows of no other.
    pub open spec fn read(self, id: AttrId, dataver: u32, sink: AttrSinkView) -> ReadOutcome {
        match GlobalElements::spec_from_repr(id) {
            Some(global) => sink.write(self.global(global), dataver),
            None => ReadOutcome { result: Err(Error::UnsupportedAttribute), sink },
        }
    }

    /// How an invocation of the command `id` ends, where `handled` tells
    /// whether the cluster has a handler for it. A command that the cluster
    /// does not accept is unsupported. An accepted one succeeds if a handler
    /// takes it; where none does, the metadata promises what the dispatch
    /// cannot keep.
    pub open spec fn invoke(self, id: CmdId, handled: bool) -> Result<(), Error> {
        if !self.accepts(id) {
            Err(Error::UnsupportedCommand)
        } else if handled {
            Ok(())
        } else {
            Err(Error::InternalInconsistency)
        }
    }
}

/// The static metadata of a cluster type: what it is, and which attributes
/// and commands it has. All instances of the type share it, and nothing
/// writes to it.
#[derive(Debug, PartialEq, Eq)]
pub struct Cluster {
    pub id: ClusterId,
    pub revision: u16,
    pub feature_map: u32,
    /// The descriptors of the attributes, the global ones first.
    pub attributes: Vec<Attribute>,
    /// The numbers of the commands that the cluster takes.
    pub accepted_commands: Vec<CmdId>,
    /// The numbers of the commands that the cluster sends in reply.
    pub generated_commands: Vec<CmdId>,
}

impl View for Cluster {
    type V = ClusterView;

    open spec fn view(&self) -> ClusterView {
        ClusterView {
            id: self.id,
            revision: self.revision,
            feature_map: self.feature_map,
            attributes: self.attributes@,
            accepted_commands: self.accepted_commands@,
            generated_commands: self.generated_commands@,
        }
    }
}

impl Clone for Cluster {
    fn clone(&self) -> (cluster: Self)
        ensures
            cluster@ == self@,
    {
        Cluster {
            id: self.id,
            revision: self.revision,
            feature_map: self.feature_map,
            attributes: copy_of(&self.attributes),
            accepted_commands: copy_of(&self.accepted_commands),
            generated_commands: copy_of(&self.generated_commands),
        }
    }
}

/// The attribute list of a cluster whose own attributes are `attributes`:
/// the global attributes, and after them the cluster's own.
pub open spec fn spec_cluster_attrs(attributes: Seq<Attribute>) -> Seq<Attribute> {
    spec_global_attrs() + attributes
}

/// The attribute list of a cluster whose own attributes are `attributes`:
/// the global attributes, and after them the cluster's own.
pub fn cluster_attrs(attributes: Vec<Attribute>) -> (list: Vec<Attribute>)
    ensures
        list@ == spec_cluster_attrs(attributes@),
{
    let mut list: Vec<Attribute> = Vec::new();
    list.push(Attribute::new(GlobalElements::GeneratedCmdList.id(), Access::RV, Quality::NONE));
    list.push(Attribute::new(GlobalElements::AcceptedCmdList.id(), Access::RV, Quality::NONE));
    list.push(Attribute::new(GlobalElements::AttributeList.id(), Access::RV, Quality::NONE));
    list.push(Attribute::new(GlobalElements::FeatureMap.id(), Access::RV, Quality::NONE));
    list.push(Attribute::new(GlobalElements::ClusterRevision.id(), Access::RV, Quality::NONE));
    assert(list@ =~= spec_global_attrs());
    let mut i: usize = 0;
    while i < attributes.len()
        invariant
            i <= attributes.len(),
            list@ == spec_global_attrs() + attributes@.take(i as int),
        decreases attributes.len() - i,
    {
        list.push(attributes[i]);
        assert(attributes@.take(i + 1) =~= attributes@.take(i as int).push(attributes@[i as int]));
        assert(list@ =~= spec_global_attrs() + attributes@.take(i + 1));
        i += 1;
    }
    assert(attributes@.take(attributes.len() as int) =~= attributes@);
    list
}

/// The attribute list that `cluster_attrs` makes declares the global
/// attributes and the cluster's own, and no other.
pub proof fn lemma_cluster_attrs_declare(attributes: Seq<Attribute>, id: AttrId)
    ensures
        ids_of(spec_cluster_attrs(attributes)).contains(id) <==> (is_system_attr(id) || ids_of(
            attributes,
        ).contains(id)),
{
    let list = spec_cluster_attrs(attributes);
    let ids = ids_of(list);
    assert(ids.len() == 5 + attributes.len());
    assert(ids[0] == list[0].id && ids[1] == list[1].id && ids[2] == list[2].id && ids[3]
        == list[3].id && ids[4] == list[4].id);
    if ids_of(attributes).contains(id) {
        let i = choose|i: int| 0 <= i < attributes.len() && ids_of(attributes)[i] == id;
        assert(ids[5 + i] == list[5 + i].id);
    }
    if ids.contains(id) {
        let i = choose|i: int| 0 <= i < ids.len() && ids[i] == id;
        assert(ids[i] == list[i].id);
        if i >= 5 {
            assert(ids_of(attributes)[i - 5] == id);
        }
    }
}

impl Cluster {
    /// The numbers of the attributes that the cluster declares, in the order
    /// of its attribute list.
    pub fn attribute_ids(&self) -> (ids: Vec<AttrId>)
        ensures
            ids@ == ids_of(self@.attributes),
    {
        let mut ids: Vec<AttrId> = Vec::new();
        let mut i: usize = 0;
        while i < self.attributes.len()
            invariant
                i <= self.attributes.len(),
                ids@ == ids_of(self.attributes@.take(i as int)),
            decreases self.attributes.len() - i,
        {
            ids.push(self.attributes[i].id);
            assert(self.attributes@.take(i + 1) =~= self.attributes@.take(i as int).push(
                self.attributes@[i as int],
            ));
            assert(ids@ =~= ids_of(self.attributes@.take(i + 1)));
            i += 1;
        }
        assert(self.attributes@.take(self.attributes.len() as int) =~= self.attributes@);
        ids
    }

    /// Whether the cluster declares the attribute `id`.
    pub fn has_attribute(&self, id: AttrId) -> (declared: bool)
        ensures
            declared == self@.declares(id),
    {
        let mut i: usize = 0;
        while i < self.attributes.len()
            invariant
                i <= self.attributes.len(),
                forall|j: int| 0 <= j < i ==> self.attributes@[j].id != id,
            decreases self.attributes.len() - i,
        {
            if self.attributes[i].id == id {
                assert(ids_of(self.attributes@)[i as int] == id);
                return true;
            }
            i += 1;
        }
        false
    }

    /// Whether the cluster accepts the command `id`.
    pub fn accepts_command(&self, id: CmdId) -> (accepted: bool)
        ensures
            accepted == self@.accepts(id),
    {
        let mut i: usize = 0;
        while i < self.accepted_commands.len()
            invariant
                i <= self.accepted_commands.len(),
                forall|j: int| 0 <= j < i ==> self.accepted_commands@[j] != id,
            decreases self.accepted_commands.len() - i,
        {
            if self.accepted_commands[i] == id {
                return true;
            }
            i += 1;
        }
        false
    }

    /// What the metadata answers for the global attribute `global`.
    pub fn global(&self, global: GlobalElements) -> (value: AttrValue)
        ensures
            value@ == self@.global(global),
    {
        match global {
            GlobalElements::GeneratedCmdList => AttrValue::IdList(copy_of(&self.generated_commands)),
            GlobalElements::AcceptedCmdList => AttrValue::IdList(copy_of(&self.accepted_commands)),
            GlobalElements::AttributeList => AttrValue::IdList(self.attribute_ids()),
            GlobalElements::FeatureMap => AttrValue::U32(self.feature_map),
            GlobalElements::ClusterRevision => AttrValue::U16(self.revision),
        }
    }

    /// Reads the global attribute `attr` into the writer's sink: the first
    /// tier of the attribute dispatch. A number that is not that of a global
    /// attribute fails with `UnsupportedAttribute`, and a sink without room
    /// with `EncodingFailure`; either leaves the sink as it was.
    pub fn read(&self, attr: AttrId, writer: AttrDataWriter<'_>) -> (result: Result<(), Error>)
        ensures
            result == self@.read(attr, writer.dataver, old(writer.sink)@).result,
            final(writer.sink)@ == self@.read(attr, writer.dataver, old(writer.sink)@).sink,
    {
        match GlobalElements::from_repr(attr) {
            Some(global) => writer.set(self.global(global)),
            None => Err(Error::UnsupportedAttribute),
        }
    }

    /// The error of an invocation that no handler takes: see
    /// `ClusterView::invoke`.
    pub fn unhandled(&self, id: CmdId) -> (error: Error)
        ensures
            self@.invoke(id, false) == Err::<(), Error>(error),
    {
        if self.accepts_command(id) {
            Error::InternalInconsistency
        } else {
            Error::UnsupportedCommand
        }
    }
}

} // verus!
