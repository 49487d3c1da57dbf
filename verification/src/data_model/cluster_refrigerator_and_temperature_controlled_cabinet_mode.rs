//! The refrigerator and temperature controlled cabinet mode cluster: the
//! modes that a cabinet offers, and the one that it is in.
use vstd::prelude::*;
use vstd::std_specs::convert::TryFromSpecImpl;

use super::objects::attribute::{
    is_system_attr, Access, AttrDetails, AttrId, Attribute, CmdDetails, CmdId, Quality,
};
use super::objects::cell::AttrCell;
use super::objects::cluster::{
    cluster_attrs, ids_of, lemma_cluster_attrs_declare, spec_cluster_attrs, Cluster, ClusterView,
};
use super::objects::dataver::{signal, Dataver, DataverView};
use super::objects::encoder::{read_outcome, AttrDataEncoder};
use super::objects::handler::{ChangeNotifier, Handler};
use super::objects::value::{AttrValue, AttrValueView};
use crate::error::Error;

verus! {

/// The number of the cluster.
pub const ID: u32 = 0x0052;

/// The attributes of the cluster.
#[derive(Debug, Clone, Copy, PartialEq, Eq, Structural)]
pub enum Attributes {
    SupportedModes,
    CurrentMode,
    StartupMode,
    OnMode,
}

impl Attributes {
    /// The number of an attribute.
    pub open spec fn spec_id(self) -> AttrId {
        match self {
            Attributes::SupportedModes => 0x0,
            Attributes::CurrentMode => 0x1,
            Attributes::StartupMode => 0x2,
            Attributes::OnMode => 0x3,
        }
    }

    /// The attribute with the number `id`, if the cluster has one.
    pub open spec fn spec_from_repr(id: AttrId) -> Option<Attributes> {
        if id == 0x0 {
            Some(Attributes::SupportedModes)
        } else if id == 0x1 {
            Some(Attributes::CurrentMode)
        } else if id == 0x2 {
            Some(Attributes::StartupMode)
        } else if id == 0x3 {
            Some(Attributes::OnMode)
        } else {
            None
        }
    }

    /// The number of the attribute.
    #[verifier::when_used_as_spec(spec_id)]
    pub fn id(self) -> (id: AttrId)
        ensures
            id == self.spec_id(),
            Self::spec_from_repr(id) == Some(self),
    {
        match self {
            Attributes::SupportedModes => 0x0,
            Attributes::CurrentMode => 0x1,
            Attributes::StartupMode => 0x2,
            Attributes::OnMode => 0x3,
        }
    }

    /// The attribute with the number `id`, if the cluster has one.
    #[verifier::when_used_as_spec(spec_from_repr)]
    pub fn from_repr(id: AttrId) -> (attribute: Option<Attributes>)
        ensures
            attribute == Self::spec_from_repr(id),
            attribute matches Some(a) ==> a.spec_id() == id,
    {
        match id {
            0x0 => Some(Attributes::SupportedModes),
            0x1 => Some(Attributes::CurrentMode),
            0x2 => Some(Attributes::StartupMode),
            0x3 => Some(Attributes::OnMode),
            _ => None,
        }
    }
}

impl TryFrom<AttrId> for Attributes {
    type Error = Error;

    /// The attribute with the number `id`; `UnsupportedAttribute` if the
    /// cluster has none.
    fn try_from(id: AttrId) -> (attribute: Result<Attributes, Error>) {
        match Attributes::from_repr(id) {
            Some(attribute) => Ok(attribute),
            None => Err(Error::UnsupportedAttribute),
        }
    }
}

impl TryFromSpecImpl<AttrId> for Attributes {
    open spec fn obeys_try_from_spec() -> bool {
        true
    }

    open spec fn try_from_spec(id: AttrId) -> Result<Attributes, Error> {
        match Attributes::spec_from_repr(id) {
            Some(attribute) => Ok(attribute),
            None => Err(Error::UnsupportedAttribute),
        }
    }
}

/// The descriptors of the cluster's own attributes.
pub open spec fn spec_attributes() -> Seq<Attribute> {
    seq![
        Attribute { id: 0x0, access: Access::RV, quality: Quality::NONE },
        Attribute { id: 0x1, access: Access::RV, quality: Quality::NONE },
        Attribute { id: 0x2, access: Access::RV, quality: Quality::NONE },
        Attribute { id: 0x3, access: Access::RV, quality: Quality::NONE },
    ]
}

/// The metadata of the cluster.
pub open spec fn spec_cluster() -> ClusterView {
    ClusterView {
        id: ID,
        revision: 1,
        feature_map: 0,
        attributes: spec_cluster_attrs(spec_attributes()),
        accepted_commands: Seq::empty(),
        generated_commands: Seq::empty(),
    }
}

/// The metadata of the cluster.
pub fn cluster() -> (cluster: Cluster)
    ensures
        cluster@ == spec_cluster(),
{
    let attributes: Vec<Attribute> = vec![
        Attribute::new(Attributes::SupportedModes.id(), Access::RV, Quality::NONE),
        Attribute::new(Attributes::CurrentMode.id(), Access::RV, Quality::NONE),
        Attribute::new(Attributes::StartupMode.id(), Access::RV, Quality::NONE),
        Attribute::new(Attributes::OnMode.id(), Access::RV, Quality::NONE),
    ];
    assert(attributes@ =~= spec_attributes());
    let cluster = Cluster {
        id: ID,
        revision: 1,
        feature_map: 0,
        attributes: cluster_attrs(attributes),
        accepted_commands: Vec::new(),
        generated_commands: Vec::new(),
    };
    assert(cluster@.accepted_commands =~= Seq::empty());
    assert(cluster@.generated_commands =~= Seq::empty());
    cluster
}

/// The cluster declares its four attributes and the global ones, and no
/// other.
pub proof fn lemma_declared(id: AttrId)
    ensures
        spec_cluster().declares(id) <==> (is_system_attr(id) || Attributes::spec_from_repr(id)
            is Some),
{
    lemma_cluster_attrs_declare(spec_attributes(), id);
    let own = ids_of(spec_attributes());
    assert(own[0] == 0x0 && own[1] == 0x1 && own[2] == 0x2 && own[3] == 0x3);
}

/// The model of a `RefrigeratorAndTemperatureControlledCabinetModeCluster`.
pub struct RefrigeratorAndTemperatureControlledCabinetModeState {
    pub data_ver: DataverView,
    pub supported_mode: Seq<u8>,
    pub current_mode: u8,
    pub start_up_mode: u8,
    pub on_mode: Seq<u8>,
}

impl RefrigeratorAndTemperatureControlledCabinetModeState {
    /// The version as a read hands it out.
    pub open spec fn dataver(self) -> u32 {
        self.data_ver.version as u32
    }

    /// What the cell of the attribute `id` holds; `None` where the cluster
    /// has no attribute with that number.
    pub open spec fn cell(self, id: AttrId) -> Option<AttrValueView> {
        match Attributes::spec_from_repr(id) {
            Some(Attributes::SupportedModes) => Some(AttrValueView::U8Array(self.supported_mode)),
            Some(Attributes::CurrentMode) => Some(AttrValueView::U8(self.current_mode)),
            Some(Attributes::StartupMode) => Some(AttrValueView::U8(self.start_up_mode)),
            Some(Attributes::OnMode) => Some(AttrValueView::U8Array(self.on_mode)),
            None => None,
        }
    }
}

/// One instance of the refrigerator and temperature controlled cabinet mode
/// cluster.
#[derive(Debug)]
pub struct RefrigeratorAndTemperatureControlledCabinetModeCluster {
    data_ver: Dataver,
    supported_mode: AttrCell<[u8; 8]>,
    current_mode: AttrCell<u8>,
    start_up_mode: AttrCell<u8>,
    on_mode: AttrCell<[u8; 8]>,
}

impl View for RefrigeratorAndTemperatureControlledCabinetModeCluster {
    type V = RefrigeratorAndTemperatureControlledCabinetModeState;

    closed spec fn view(&self) -> RefrigeratorAndTemperatureControlledCabinetModeState {
        RefrigeratorAndTemperatureControlledCabinetModeState {
            data_ver: self.data_ver@,
            supported_mode: self.supported_mode@,
            current_mode: self.current_mode@,
            start_up_mode: self.start_up_mode@,
            on_mode: self.on_mode@,
        }
    }
}

impl Clone for RefrigeratorAndTemperatureControlledCabinetModeCluster {
    fn clone(&self) -> (cluster: Self)
        ensures
            cluster@ == self@,
    {
        RefrigeratorAndTemperatureControlledCabinetModeCluster {
            data_ver: self.data_ver.clone(),
            supported_mode: self.supported_mode.clone(),
            current_mode: self.current_mode.clone(),
            start_up_mode: self.start_up_mode.clone(),
            on_mode: self.on_mode.clone(),
        }
    }
}

impl RefrigeratorAndTemperatureControlledCabinetModeCluster {
    /// An instance with the version counter `data_ver`: every mode is zero,
    /// and so is every entry of the two lists.
    pub fn new(data_ver: Dataver) -> (cluster: Self)
        ensures
            cluster@ == (RefrigeratorAndTemperatureControlledCabinetModeState {
                data_ver: data_ver@,
                supported_mode: Seq::new(8, |i: int| 0u8),
                current_mode: 0,
                start_up_mode: 0,
                on_mode: Seq::new(8, |i: int| 0u8),
            }),
    {
        let zeros: [u8; 8] = [0; 8];
        assert(zeros.deep_view() =~= Seq::new(8, |i: int| 0u8));
        Self {
            data_ver,
            supported_mode: AttrCell::new(zeros),
            current_mode: AttrCell::new(0),
            start_up_mode: AttrCell::new(0),
            on_mode: AttrCell::new(zeros),
        }
    }

    /// The version counter of the instance.
    pub fn data_ver(&self) -> (data_ver: &Dataver)
        ensures
            data_ver@ == self@.data_ver,
    {
        &self.data_ver
    }

    /// The modes that the cabinet offers.
    pub fn get_supported_mode(&self) -> (value: [u8; 8])
        ensures
            value@ == self@.supported_mode,
    {
        let value = self.supported_mode.get();
        assert(value@ =~= value.deep_view());
        value
    }

    /// The mode that the cabinet is in.
    pub fn get_current_mode(&self) -> (value: u8)
        ensures
            value == self@.current_mode,
    {
        self.current_mode.get()
    }

    /// The mode that the cabinet starts up in.
    pub fn get_start_up_mode(&self) -> (value: u8)
        ensures
            value == self@.start_up_mode,
    {
        self.start_up_mode.get()
    }

    /// The modes that the cabinet takes when it is switched on.
    pub fn get_on_mode(&self) -> (value: [u8; 8])
        ensures
            value@ == self@.on_mode,
    {
        let value = self.on_mode.get();
        assert(value@ =~= value.deep_view());
        value
    }

    /// Writes the list of supported modes, and tells whether that changed
    /// it. A change advances the version by one and raises the change flag;
    /// a list equal to the one held changes nothing.
    pub fn set_supported_mode(&mut self, supported_mode: [u8; 8]) -> (changed: bool)
        requires
            old(self)@.supported_mode != supported_mode@ ==> old(self)@.data_ver.version
                < u32::MAX,
        ensures
            changed == (old(self)@.supported_mode != supported_mode@),
            final(self)@ == (RefrigeratorAndTemperatureControlledCabinetModeState {
                supported_mode: supported_mode@,
                data_ver: old(self)@.data_ver.written(changed),
                ..old(self)@
            }),
    {
        assert(supported_mode@ =~= supported_mode.deep_view());
        self.supported_mode.set(&mut self.data_ver, supported_mode)
    }

    /// Writes the current mode, and tells whether that changed it.
    pub fn set_current_mode(&mut self, current_mode: u8) -> (changed: bool)
        requires
            old(self)@.current_mode != current_mode ==> old(self)@.data_ver.version < u32::MAX,
        ensures
            changed == (old(self)@.current_mode != current_mode),
            final(self)@ == (RefrigeratorAndTemperatureControlledCabinetModeState {
                current_mode,
                data_ver: old(self)@.data_ver.written(changed),
                ..old(self)@
            }),
    {
        self.current_mode.set(&mut self.data_ver, current_mode)
    }

    /// Writes the mode that the cabinet starts up in, and tells whether that
    /// changed it.
    pub fn set_start_up_mode(&mut self, start_up_mode: u8) -> (changed: bool)
        requires
            old(self)@.start_up_mode != start_up_mode ==> old(self)@.data_ver.version < u32::MAX,
        ensures
            changed == (old(self)@.start_up_mode != start_up_mode),
            final(self)@ == (RefrigeratorAndTemperatureControlledCabinetModeState {
                start_up_mode,
                data_ver: old(self)@.data_ver.written(changed),
                ..old(self)@
            }),
    {
        self.start_up_mode.set(&mut self.data_ver, start_up_mode)
    }

    /// Writes the list of modes that the cabinet takes when it is switched
    /// on, and tells whether that changed it.
    pub fn set_on_mode(&mut self, on_mode: [u8; 8]) -> (changed: bool)
        requires
            old(self)@.on_mode != on_mode@ ==> old(self)@.data_ver.version < u32::MAX,
        ensures
            changed == (old(self)@.on_mode != on_mode@),
            final(self)@ == (RefrigeratorAndTemperatureControlledCabinetModeState {
                on_mode: on_mode@,
                data_ver: old(self)@.data_ver.written(changed),
                ..old(self)@
            }),
    {
        assert(on_mode@ =~= on_mode.deep_view());
        self.on_mode.set(&mut self.data_ver, on_mode)
    }

    /// Reads the attribute that `attr` names into the encoder's sink: see
    /// `Handler::read`.
    pub fn read(&self, attr: &AttrDetails, encoder: AttrDataEncoder<'_>) -> (result: Result<
        (),
        Error,
    >)
        ensures
            result == read_outcome(
                self@.dataver(),
                encoder.dataver_filter,
                spec_cluster().resolve(attr.attr_id, self@.cell(attr.attr_id)),
                old(encoder.sink)@,
            ).result,
            final(encoder.sink)@ == read_outcome(
                self@.dataver(),
                encoder.dataver_filter,
                spec_cluster().resolve(attr.attr_id, self@.cell(attr.attr_id)),
                old(encoder.sink)@,
            ).sink,
    {
        if let Some(writer) = encoder.with_dataver(self.data_ver.get()) {
            if attr.is_system() {
                cluster().read(attr.attr_id, writer)
            } else {
                match Attributes::try_from(attr.attr_id)? {
                    Attributes::SupportedModes => writer.set(
                        AttrValue::U8Array8(self.supported_mode.get()),
                    ),
                    Attributes::CurrentMode => writer.set(AttrValue::U8(self.current_mode.get())),
                    Attributes::StartupMode => writer.set(AttrValue::U8(self.start_up_mode.get())),
                    Attributes::OnMode => writer.set(AttrValue::U8Array8(self.on_mode.get())),
                }
            }
        } else {
            Ok(())
        }
    }
}

impl Handler for RefrigeratorAndTemperatureControlledCabinetModeCluster {
    open spec fn cluster(&self) -> ClusterView {
        spec_cluster()
    }

    open spec fn dataver(&self) -> u32 {
        self@.dataver()
    }

    open spec fn cell(&self, id: AttrId) -> Option<AttrValueView> {
        self@.cell(id)
    }

    /// The cluster has no handler for any command.
    open spec fn handles(&self, id: CmdId) -> bool {
        false
    }

    proof fn lemma_dispatch_matches_metadata(&self, id: AttrId) {
        lemma_declared(id);
    }

    proof fn lemma_handlers_match_metadata(&self, id: CmdId) {
    }

    fn read(&self, attr: &AttrDetails, encoder: AttrDataEncoder<'_>) -> (result: Result<(), Error>) {
        proof {
            self.lemma_dispatch_matches_metadata(attr.attr_id);
        }
        RefrigeratorAndTemperatureControlledCabinetModeCluster::read(self, attr, encoder)
    }

    fn invoke(&self, cmd: &CmdDetails, _data: &[u8]) -> (result: Result<(), Error>) {
        Err(cluster().unhandled(cmd.cmd_id))
    }
}

impl ChangeNotifier<()> for RefrigeratorAndTemperatureControlledCabinetModeCluster {
    open spec fn change_pending(&self) -> bool {
        self@.data_ver.pending
    }

    fn consume_change(&mut self) -> (change: Option<()>)
        ensures
            change == signal(old(self)@.data_ver.pending),
            final(self)@ == (RefrigeratorAndTemperatureControlledCabinetModeState {
                data_ver: old(self)@.data_ver.drained(),
                ..old(self)@
            }),
    {
        self.data_ver.consume_change(())
    }
}

} // verus!
