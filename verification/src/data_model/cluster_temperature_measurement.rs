//! The temperature measurement cluster: a measured temperature and the range
//! that the sensor can measure.
use vstd::prelude::*;
use vstd::std_specs::convert::TryFromSpecImpl;

use super::objects::attribute::{Access, AttrDetails, AttrId, Attribute, CmdDetails, CmdId, Quality};
use super::objects::cell::AttrCell;
use super::objects::cluster::{
    cluster_attrs, ids_of, lemma_cluster_attrs_declare, spec_cluster_attrs, Cluster, ClusterView,
};
use super::objects::dataver::{signal, Dataver, DataverView};
use super::objects::encoder::{read_outcome, AttrDataEncoder};
use super::objects::handler::{ChangeNotifier, Handler};
use super::objects::value::{AttrValue, AttrValueView};
use crate::error::Error;

verus! {

/// The number of the cluster.
pub const ID: u32 = 0x0402;

/// The attributes of the cluster.
#[derive(Debug, Clone, Copy, PartialEq, Eq, Structural)]
pub enum Attributes {
    MeasuredValue,
    MinMeasuredValue,
    MaxMeasuredValue,
}

impl Attributes {
    /// The number of an attribute.
    pub open spec fn spec_id(self) -> AttrId {
        match self {
            Attributes::MeasuredValue => 0x0,
            Attributes::MinMeasuredValue => 0x1,
            Attributes::MaxMeasuredValue => 0x2,
        }
    }

    /// The attribute with the number `id`, if the cluster has one.
    pub open spec fn spec_from_repr(id: AttrId) -> Option<Attributes> {
        if id == 0x0 {
            Some(Attributes::MeasuredValue)
        } else if id == 0x1 {
            Some(Attributes::MinMeasuredValue)
        } else if id == 0x2 {
            Some(Attributes::MaxMeasuredValue)
        } else {
            None
        }
    }

    /// The number of the attribute.
    #[verifier::when_used_as_spec(spec_id)]
    pub fn id(self) -> (id: AttrId)
        ensures
            id == self.spec_id(),
            Self::spec_from_repr(id) == Some(self),
    {
        match self {
            Attributes::MeasuredValue => 0x0,
            Attributes::MinMeasuredValue => 0x1,
            Attributes::MaxMeasuredValue => 0x2,
        }
    }

    /// The attribute with the number `id`, if the cluster has one.
    #[verifier::when_used_as_spec(spec_from_repr)]
    pub fn from_repr(id: AttrId) -> (attribute: Option<Attributes>)
        ensures
            attribute == Self::spec_from_repr(id),
            attribute matches Some(a) ==> a.spec_id() == id,
    {
        match id {
            0x0 => Some(Attributes::MeasuredValue),
            0x1 => Some(Attributes::MinMeasuredValue),
            0x2 => Some(Attributes::MaxMeasuredValue),
            _ => None,
        }
    }
}

impl TryFrom<AttrId> for Attributes {
    type Error = Error;

    /// The attribute with the number `id`; `UnsupportedAttribute` if the
    /// cluster has none.
    fn try_from(id: AttrId) -> (attribute: Result<Attributes, Error>) {
        match Attributes::from_repr(id) {
            Some(attribute) => Ok(attribute),
            None => Err(Error::UnsupportedAttribute),
        }
    }
}

impl TryFromSpecImpl<AttrId> for Attributes {
    open spec fn obeys_try_from_spec() -> bool {
        true
    }

    open spec fn try_from_spec(id: AttrId) -> Result<Attributes, Error> {
        match Attributes::spec_from_repr(id) {
            Some(attribute) => Ok(attribute),
            None => Err(Error::UnsupportedAttribute),
        }
    }
}

/// The descriptors of the cluster's own attributes.
pub open spec fn spec_attributes() -> Seq<Attribute> {
    seq![
        Attribute { id: 0x0, access: Access::RV, quality: Quality::NONE },
        Attribute { id: 0x1, access: Access::RV, quality: Quality::F },
        Attribute { id: 0x2, access: Access::RV, quality: Quality::F },
    ]
}

/// The metadata of the cluster.
pub open spec fn spec_cluster() -> ClusterView {
    ClusterView {
        id: ID,
        revision: 1,
        feature_map: 0,
        attributes: spec_cluster_attrs(spec_attributes()),
        accepted_commands: Seq::empty(),
        generated_commands: Seq::empty(),
    }
}

/// The metadata of the cluster.
pub fn cluster() -> (cluster: Cluster)
    ensures
        cluster@ == spec_cluster(),
{
    let attributes: Vec<Attribute> = vec![
        Attribute::new(Attributes::MeasuredValue.id(), Access::RV, Quality::NONE),
        Attribute::new(Attributes::MinMeasuredValue.id(), Access::RV, Quality::F),
        Attribute::new(Attributes::MaxMeasuredValue.id(), Access::RV, Quality::F),
    ];
    assert(attributes@ =~= spec_attributes());
    let cluster = Cluster {
        id: ID,
        revision: 1,
        feature_map: 0,
        attributes: cluster_attrs(attributes),
        accepted_commands: Vec::new(),
        generated_commands: Vec::new(),
    };
    assert(cluster@.accepted_commands =~= Seq::empty());
    assert(cluster@.generated_commands =~= Seq::empty());
    cluster
}

/// The cluster declares its three attributes and the global ones, and no
/// other.
pub proof fn lemma_declared(id: AttrId)
    ensures
        spec_cluster().declares(id) <==> (super::objects::attribute::is_system_attr(id)
            || Attributes::spec_from_repr(id) is Some),
{
    lemma_cluster_attrs_declare(spec_attributes(), id);
    let own = ids_of(spec_attributes());
    assert(own[0] == 0x0 && own[1] == 0x1 && own[2] == 0x2);
}

/// The model of a `TemperatureMeasurementCluster`.
pub struct TemperatureMeasurementState {
    pub data_ver: DataverView,
    pub measured_value: i16,
    pub min_measured_value: i16,
    pub max_measured_value: i16,
}

impl TemperatureMeasurementState {
    /// The version as a read hands it out.
    pub open spec fn dataver(self) -> u32 {
        self.data_ver.version as u32
    }

    /// What the cell of the attribute `id` holds; `None` where the cluster
    /// has no attribute with that number.
    pub open spec fn cell(self, id: AttrId) -> Option<AttrValueView> {
        match Attributes::spec_from_repr(id) {
            Some(Attributes::MeasuredValue) => Some(AttrValueView::I16(self.measured_value)),
            Some(Attributes::MinMeasuredValue) => Some(AttrValueView::I16(self.min_measured_value)),
            Some(Attributes::MaxMeasuredValue) => Some(AttrValueView::I16(self.max_measured_value)),
            None => None,
        }
    }
}

/// One instance of the temperature measurement cluster.
#[derive(Debug)]
pub struct TemperatureMeasurementCluster {
    data_ver: Dataver,
    measured_value: AttrCell<i16>,
    min_measured_value: AttrCell<i16>,
    max_measured_value: AttrCell<i16>,
}

impl View for TemperatureMeasurementCluster {
    type V = TemperatureMeasurementState;

    closed spec fn view(&self) -> TemperatureMeasurementState {
        TemperatureMeasurementState {
            data_ver: self.data_ver@,
            measured_value: self.measured_value@,
            min_measured_value: self.min_measured_value@,
            max_measured_value: self.max_measured_value@,
        }
    }
}

impl Clone for TemperatureMeasurementCluster {
    fn clone(&self) -> (cluster: Self)
        ensures
            cluster@ == self@,
    {
        TemperatureMeasurementCluster {
            data_ver: self.data_ver.clone(),
            measured_value: self.measured_value.clone(),
            min_measured_value: self.min_measured_value.clone(),
            max_measured_value: self.max_measured_value.clone(),
        }
    }
}

impl TemperatureMeasurementCluster {
    /// An instance with the version counter `data_ver`: a measured value of
    /// zero, in a range that is as wide as the type.
    pub fn new(data_ver: Dataver) -> (cluster: Self)
        ensures
            cluster@ == (TemperatureMeasurementState {
                data_ver: data_ver@,
                measured_value: 0,
                min_measured_value: i16::MIN,
                max_measured_value: i16::MAX,
            }),
    {
        Self {
            data_ver,
            measured_value: AttrCell::new(0),
            min_measured_value: AttrCell::new(i16::MIN),
            max_measured_value: AttrCell::new(i16::MAX),
        }
    }

    /// The version counter of the instance.
    pub fn data_ver(&self) -> (data_ver: &Dataver)
        ensures
            data_ver@ == self@.data_ver,
    {
        &self.data_ver
    }

    /// The measured value.
    pub fn get_measured_value(&self) -> (value: i16)
        ensures
            value == self@.measured_value,
    {
        self.measured_value.get()
    }

    /// The lower end of the range that the sensor can measure.
    pub fn get_min_measured_value(&self) -> (value: i16)
        ensures
            value == self@.min_measured_value,
    {
        self.min_measured_value.get()
    }

    /// The upper end of the range that the sensor can measure.
    pub fn get_max_measured_value(&self) -> (value: i16)
        ensures
            value == self@.max_measured_value,
    {
        self.max_measured_value.get()
    }

    /// Writes the measured value, and tells whether that changed it. A
    /// change advances the version by one and raises the change flag; a
    /// value equal to the one held changes nothing.
    pub fn set_measured_value(&mut self, measured_value: i16) -> (changed: bool)
        requires
            old(self)@.measured_value != measured_value ==> old(self)@.data_ver.version < u32::MAX,
        ensures
            changed == (old(self)@.measured_value != measured_value),
            final(self)@ == (TemperatureMeasurementState {
                measured_value,
                data_ver: old(self)@.data_ver.written(changed),
                ..old(self)@
            }),
    {
        self.measured_value.set(&mut self.data_ver, measured_value)
    }

    /// Writes the lower end of the range, and tells whether that changed it.
    pub fn set_min_measured_value(&mut self, min_measured_value: i16) -> (changed: bool)
        requires
            old(self)@.min_measured_value != min_measured_value ==> old(self)@.data_ver.version
                < u32::MAX,
        ensures
            changed == (old(self)@.min_measured_value != min_measured_value),
            final(self)@ == (TemperatureMeasurementState {
                min_measured_value,
                data_ver: old(self)@.data_ver.written(changed),
                ..old(self)@
            }),
    {
        self.min_measured_value.set(&mut self.data_ver, min_measured_value)
    }

    /// Writes the upper end of the range, and tells whether that changed it.
    pub fn set_max_measured_value(&mut self, max_measured_value: i16) -> (changed: bool)
        requires
            old(self)@.max_measured_value != max_measured_value ==> old(self)@.data_ver.version
                < u32::MAX,
        ensures
            changed == (old(self)@.max_measured_value != max_measured_value),
            final(self)@ == (TemperatureMeasurementState {
                max_measured_value,
                data_ver: old(self)@.data_ver.written(changed),
                ..old(self)@
            }),
    {
        self.max_measured_value.set(&mut self.data_ver, max_measured_value)
    }

    /// Reads the attribute that `attr` names into the encoder's sink: see
    /// `Handler::read`.
    pub fn read(&self, attr: &AttrDetails, encoder: AttrDataEncoder<'_>) -> (result: Result<
        (),
        Error,
    >)
        ensures
            result == read_outcome(
                self@.dataver(),
                encoder.dataver_filter,
                spec_cluster().resolve(attr.attr_id, self@.cell(attr.attr_id)),
                old(encoder.sink)@,
            ).result,
            final(encoder.sink)@ == read_outcome(
                self@.dataver(),
                encoder.dataver_filter,
                spec_cluster().resolve(attr.attr_id, self@.cell(attr.attr_id)),
                old(encoder.sink)@,
            ).sink,
    {
        if let Some(writer) = encoder.with_dataver(self.data_ver.get()) {
            if attr.is_system() {
                cluster().read(attr.attr_id, writer)
            } else {
                match Attributes::try_from(attr.attr_id)? {
                    Attributes::MeasuredValue => writer.set(
                        AttrValue::I16(self.measured_value.get()),
                    ),
                    Attributes::MinMeasuredValue => writer.set(
                        AttrValue::I16(self.min_measured_value.get()),
                    ),
                    Attributes::MaxMeasuredValue => writer.set(
                        AttrValue::I16(self.max_measured_value.get()),
                    ),
                }
            }
        } else {
            Ok(())
        }
    }
}

impl Handler for TemperatureMeasurementCluster {
    open spec fn cluster(&self) -> ClusterView {
        spec_cluster()
    }

    open spec fn dataver(&self) -> u32 {
        self@.dataver()
    }

    open spec fn cell(&self, id: AttrId) -> Option<AttrValueView> {
        self@.cell(id)
    }

    /// The cluster has no handler for any command.
    open spec fn handles(&self, id: CmdId) -> bool {
        false
    }

    proof fn lemma_dispatch_matches_metadata(&self, id: AttrId) {
        lemma_declared(id);
    }

    proof fn lemma_handlers_match_metadata(&self, id: CmdId) {
    }

    fn read(&self, attr: &AttrDetails, encoder: AttrDataEncoder<'_>) -> (result: Result<(), Error>) {
        proof {
            self.lemma_dispatch_matches_metadata(attr.attr_id);
        }
        TemperatureMeasurementCluster::read(self, attr, encoder)
    }

    fn invoke(&self, cmd: &CmdDetails, _data: &[u8]) -> (result: Result<(), Error>) {
        Err(cluster().unhandled(cmd.cmd_id))
    }
}

impl ChangeNotifier<()> for TemperatureMeasurementCluster {
    open spec fn change_pending(&self) -> bool {
        self@.data_ver.pending
    }

    fn consume_change(&mut self) -> (change: Option<()>)
        ensures
            change == signal(old(self)@.data_ver.pending),
            final(self)@ == (TemperatureMeasurementState {
                data_ver: old(self)@.data_ver.drained(),
                ..old(self)@
            }),
    {
        self.data_ver.consume_change(())
    }
}

} // verus!
