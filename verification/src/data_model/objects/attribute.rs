//! Attribute numbers, the descriptors that a cluster's metadata lists, and
//! the global attributes that every cluster has.
use vstd::prelude::*;

verus! {

/// The number of an attribute within its cluster.
pub type AttrId = u32;

/// The number of a command within its cluster.
pub type CmdId = u32;

/// The number of a cluster.
pub type ClusterId = u32;

/// Who may do what with an attribute.
#[derive(Debug, Clone, Copy, PartialEq, Eq, Structural)]
pub enum Access {
    /// Read with the view privilege.
    RV,
    /// Read with the view privilege, written with the manage privilege.
    RWVM,
    /// Read with the view privilege, written with the administer privilege.
    RWVA,
}

/// The qualities of an attribute.
#[derive(Debug, Clone, Copy, PartialEq, Eq, Structural)]
pub enum Quality {
    /// No quality.
    NONE,
    /// Fixed: the value does not change once the device runs.
    F,
    /// Nullable: the value may be absent.
    X,
}

/// The static description of one attribute. All instances of a cluster type
/// share it, and nothing writes to it.
#[derive(Debug, Clone, Copy, PartialEq, Eq, Structural)]
pub struct Attribute {
    pub id: AttrId,
    pub access: Access,
    pub quality: Quality,
}

impl Attribute {
    /// The descriptor of the attribute `id`.
    pub fn new(id: AttrId, access: Access, quality: Quality) -> (attribute: Attribute)
        ensures
            attribute == (Attribute { id, access, quality }),
    {
        Attribute { id, access, quality }
    }

    /// Whether `id` is the number of a global attribute.
    pub fn is_system_attr(id: AttrId) -> (system: bool)
        ensures
            system == is_system_attr(id),
    {
        GlobalElements::from_repr(id).is_some()
    }
}

/// The global attributes: those that every cluster has, and that the
/// cluster's metadata answers rather than a cell of the instance.
#[derive(Debug, Clone, Copy, PartialEq, Eq, Structural)]
pub enum GlobalElements {
    /// The numbers of the commands that the cluster sends in reply.
    GeneratedCmdList,
    /// The numbers of the commands that the cluster accepts.
    AcceptedCmdList,
    /// The numbers of the attributes that the cluster declares.
    AttributeList,
    /// The optional features that the cluster has.
    FeatureMap,
    /// The revision of the cluster's definition.
    ClusterRevision,
}

impl GlobalElements {
    /// The number of a global attribute.
    pub open spec fn spec_id(self) -> AttrId {
        match self {
            GlobalElements::GeneratedCmdList => 0xFFF8,
            GlobalElements::AcceptedCmdList => 0xFFF9,
            GlobalElements::AttributeList => 0xFFFB,
            GlobalElements::FeatureMap => 0xFFFC,
            GlobalElements::ClusterRevision => 0xFFFD,
        }
    }

    /// The global attribute with the number `id`, if there is one.
    pub open spec fn spec_from_repr(id: AttrId) -> Option<GlobalElements> {
        if id == 0xFFF8 {
            Some(GlobalElements::GeneratedCmdList)
        } else if id == 0xFFF9 {
            Some(GlobalElements::AcceptedCmdList)
        } else if id == 0xFFFB {
            Some(GlobalElements::AttributeList)
        } else if id == 0xFFFC {
            Some(GlobalElements::FeatureMap)
        } else if id == 0xFFFD {
            Some(GlobalElements::ClusterRevision)
        } else {
            None
        }
    }

    /// The number of the global attribute.
    #[verifier::when_used_as_spec(spec_id)]
    pub fn id(self) -> (id: AttrId)
        ensures
            id == self.spec_id(),
            Self::spec_from_repr(id) == Some(self),
    {
        match self {
            GlobalElements::GeneratedCmdList => 0xFFF8,
            GlobalElements::AcceptedCmdList => 0xFFF9,
            GlobalElements::AttributeList => 0xFFFB,
            GlobalElements::FeatureMap => 0xFFFC,
            GlobalElements::ClusterRevision => 0xFFFD,
        }
    }

    /// The global attribute with the number `id`, if there is one.
    #[verifier::when_used_as_spec(spec_from_repr)]
    pub fn from_repr(id: AttrId) -> (global: Option<GlobalElements>)
        ensures
            global == Self::spec_from_repr(id),
            global matches Some(g) ==> g.spec_id() == id,
    {
        match id {
            0xFFF8 => Some(GlobalElements::GeneratedCmdList),
            0xFFF9 => Some(GlobalElements::AcceptedCmdList),
            0xFFFB => Some(GlobalElements::AttributeList),
            0xFFFC => Some(GlobalElements::FeatureMap),
            0xFFFD => Some(GlobalElements::ClusterRevision),
            _ => None,
        }
    }
}

/// Whether `id` is the number of a global attribute.
pub open spec fn is_system_attr(id: AttrId) -> bool {
    GlobalElements::spec_from_repr(id) is Some
}

/// The descriptors of the global attributes, in the order in which every
/// cluster's attribute list starts.
pub open spec fn spec_global_attrs() -> Seq<Attribute> {
    seq![
        Attribute { id: 0xFFF8, access: Access::RV, quality: Quality::NONE },
        Attribute { id: 0xFFF9, access: Access::RV, quality: Quality::NONE },
        Attribute { id: 0xFFFB, access: Access::RV, quality: Quality::NONE },
        Attribute { id: 0xFFFC, access: Access::RV, quality: Quality::NONE },
        Attribute { id: 0xFFFD, access: Access::RV, quality: Quality::NONE },
    ]
}

/// What a read is asked for: the attribute, and the version of the cluster
/// that the requester saw last, if it says so.
#[derive(Debug, Clone, Copy, PartialEq, Eq, Structural)]
pub struct AttrDetails {
    pub attr_id: AttrId,
    pub dataver: Option<u32>,
}

impl AttrDetails {
    /// The request for the attribute `attr_id` of a requester that saw the
    /// version `dataver` last.
    pub fn new(attr_id: AttrId, dataver: Option<u32>) -> (attr: AttrDetails)
        ensures
            attr == (AttrDetails { attr_id, dataver }),
    {
        AttrDetails { attr_id, dataver }
    }

    /// Whether the request is for a global attribute.
    pub fn is_system(&self) -> (system: bool)
        ensures
            system == is_system_attr(self.attr_id),
    {
        Attribute::is_system_attr(self.attr_id)
    }
}

/// What an invocation is asked for: the command.
#[derive(Debug, Clone, Copy, PartialEq, Eq, Structural)]
pub struct CmdDetails {
    pub cmd_id: CmdId,
}

impl CmdDetails {
    /// The request for the command `cmd_id`.
    pub fn new(cmd_id: CmdId) -> (cmd: CmdDetails)
        ensures
            cmd == (CmdDetails { cmd_id }),
    {
        CmdDetails { cmd_id }
    }
}

} // verus!
