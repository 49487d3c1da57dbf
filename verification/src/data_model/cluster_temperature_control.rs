//! The temperature control cluster: the temperature that an appliance is set
//! to, as a number or as one of a list of levels.
use vstd::prelude::*;
use vstd::std_specs::convert::TryFromSpecImpl;

use super::objects::attribute::{
    is_system_attr, Access, AttrDetails, AttrId, Attribute, CmdDetails, CmdId, Quality,
};
use super::objects::cell::AttrCell;
use super::objects::cluster::{
    cluster_attrs, ids_of, lemma_cluster_attrs_declare, spec_cluster_attrs, Cluster, ClusterView,
};
use super::objects::dataver::{signal, Dataver, DataverView};
use super::objects::encoder::{read_outcome, AttrDataEncoder};
use super::objects::handler::{ChangeNotifier, Handler};
use super::objects::value::{AttrValue, AttrValueView};
use crate::error::Error;

verus! {

/// The number of the cluster.
pub const ID: u32 = 0x0056;

/// The attributes of the cluster.
#[derive(Debug, Clone, Copy, PartialEq, Eq, Structural)]
pub enum Attributes {
    TemperatureSetpoint,
    MinTemperature,
    MaxTemperature,
    Step,
    SelectedTemperatureLevel,
    SupportedTemperatureLevels,
}

impl Attributes {
    /// The number of an attribute.
    pub open spec fn spec_id(self) -> AttrId {
        match self {
            Attributes::TemperatureSetpoint => 0x0,
            Attributes::MinTemperature => 0x1,
            Attributes::MaxTemperature => 0x2,
            Attributes::Step => 0x3,
            Attributes::SelectedTemperatureLevel => 0x4,
            Attributes::SupportedTemperatureLevels => 0x5,
        }
    }

    /// The attribute with the number `id`, if the cluster has one.
    pub open spec fn spec_from_repr(id: AttrId) -> Option<Attributes> {
        if id == 0x0 {
            Some(Attributes::TemperatureSetpoint)
        } else if id == 0x1 {
            Some(Attributes::MinTemperature)
        } else if id == 0x2 {
            Some(Attributes::MaxTemperature)
        } else if id == 0x3 {
            Some(Attributes::Step)
        } else if id == 0x4 {
            Some(Attributes::SelectedTemperatureLevel)
        } else if id == 0x5 {
            Some(Attributes::SupportedTemperatureLevels)
        } else {
            None
        }
    }

    /// The number of the attribute.
    #[verifier::when_used_as_spec(spec_id)]
    pub fn id(self) -> (id: AttrId)
        ensures
            id == self.spec_id(),
            Self::spec_from_repr(id) == Some(self),
    {
        match self {
            Attributes::TemperatureSetpoint => 0x0,
            Attributes::MinTemperature => 0x1,
            Attributes::MaxTemperature => 0x2,
            Attributes::Step => 0x3,
            Attributes::SelectedTemperatureLevel => 0x4,
            Attributes::SupportedTemperatureLevels => 0x5,
        }
    }

    /// The attribute with the number `id`, if the cluster has one.
    #[verifier::when_used_as_spec(spec_from_repr)]
    pub fn from_repr(id: AttrId) -> (attribute: Option<Attributes>)
        ensures
            attribute == Self::spec_from_repr(id),
            attribute matches Some(a) ==> a.spec_id() == id,
    {
        match id {
            0x0 => Some(Attributes::TemperatureSetpoint),
            0x1 => Some(Attributes::MinTemperature),
            0x2 => Some(Attributes::MaxTemperature),
            0x3 => Some(Attributes::Step),
            0x4 => Some(Attributes::SelectedTemperatureLevel),
            0x5 => Some(Attributes::SupportedTemperatureLevels),
            _ => None,
        }
    }
}

impl TryFrom<AttrId> for Attributes {
    type Error = Error;

    /// The attribute with the number `id`; `UnsupportedAttribute` if the
    /// cluster has none.
    fn try_from(id: AttrId) -> (attribute: Result<Attributes, Error>) {
        match Attributes::from_repr(id) {
            Some(attribute) => Ok(attribute),
            None => Err(Error::UnsupportedAttribute),
        }
    }
}

impl TryFromSpecImpl<AttrId> for Attributes {
    open spec fn obeys_try_from_spec() -> bool {
        true
    }

    open spec fn try_from_spec(id: AttrId) -> Result<Attributes, Error> {
        match Attributes::spec_from_repr(id) {
            Some(attribute) => Ok(attribute),
            None => Err(Error::UnsupportedAttribute),
        }
    }
}

/// The commands that the cluster's metadata accepts.
#[derive(Debug, Clone, Copy, PartialEq, Eq, Structural)]
pub enum CommandsDiscriminants {
    SetTemperature,
}

impl CommandsDiscriminants {
    /// The number of a command.
    pub open spec fn spec_id(self) -> CmdId {
        match self {
            CommandsDiscriminants::SetTemperature => 0x0,
        }
    }

    /// The number of the command.
    #[verifier::when_used_as_spec(spec_id)]
    pub fn id(self) -> (id: CmdId)
        ensures
            id == self.spec_id(),
    {
        match self {
            CommandsDiscriminants::SetTemperature => 0x0,
        }
    }
}

/// The descriptors of the cluster's own attributes.
pub open spec fn spec_attributes() -> Seq<Attribute> {
    seq![
        Attribute { id: 0x0, access: Access::RV, quality: Quality::NONE },
        Attribute { id: 0x1, access: Access::RV, quality: Quality::F },
        Attribute { id: 0x2, access: Access::RV, quality: Quality::F },
        Attribute { id: 0x3, access: Access::RV, quality: Quality::F },
        Attribute { id: 0x4, access: Access::RV, quality: Quality::NONE },
        Attribute { id: 0x5, access: Access::RV, quality: Quality::NONE },
    ]
}

/// The metadata of the cluster. It accepts the command that sets the
/// temperature.
pub open spec fn spec_cluster() -> ClusterView {
    ClusterView {
        id: ID,
        revision: 1,
        feature_map: 0,
        attributes: spec_cluster_attrs(spec_attributes()),
        accepted_commands: seq![0x0u32],
        generated_commands: Seq::empty(),
    }
}

/// The metadata of the cluster.
pub fn cluster() -> (cluster: Cluster)
    ensures
        cluster@ == spec_cluster(),
{
    let attributes: Vec<Attribute> = vec![
        Attribute::new(Attributes::TemperatureSetpoint.id(), Access::RV, Quality::NONE),
        Attribute::new(Attributes::MinTemperature.id(), Access::RV, Quality::F),
        Attribute::new(Attributes::MaxTemperature.id(), Access::RV, Quality::F),
        Attribute::new(Attributes::Step.id(), Access::RV, Quality::F),
        Attribute::new(Attributes::SelectedTemperatureLevel.id(), Access::RV, Quality::NONE),
        Attribute::new(Attributes::SupportedTemperatureLevels.id(), Access::RV, Quality::NONE),
    ];
    assert(attributes@ =~= spec_attributes());
    let accepted_commands: Vec<CmdId> = vec![CommandsDiscriminants::SetTemperature.id()];
    assert(accepted_commands@ =~= seq![0x0u32]);
    let cluster = Cluster {
        id: ID,
        revision: 1,
        feature_map: 0,
        attributes: cluster_attrs(attributes),
        accepted_commands,
        generated_commands: Vec::new(),
    };
    assert(cluster@.generated_commands =~= Seq::empty());
    cluster
}

/// The cluster declares its six attributes and the global ones, and no
/// other.
pub proof fn lemma_declared(id: AttrId)
    ensures
        spec_cluster().declares(id) <==> (is_system_attr(id) || Attributes::spec_from_repr(id)
            is Some),
{
    lemma_cluster_attrs_declare(spec_attributes(), id);
    let own = ids_of(spec_attributes());
    assert(own[0] == 0x0 && own[1] == 0x1 && own[2] == 0x2 && own[3] == 0x3 && own[4] == 0x4
        && own[5] == 0x5);
}

/// The model of a `TemperatureControlCluster`.
pub struct TemperatureControlState {
    pub data_ver: DataverView,
    pub temperature_setpoint: i16,
    pub min_temperature: i16,
    pub max_temperature: i16,
    pub step: i16,
    pub selected_temperature_level: u8,
    pub supported_temperature_levels: Seq<u8>,
}

impl TemperatureControlState {
    /// The version as a read hands it out.
    pub open spec fn dataver(self) -> u32 {
        self.data_ver.version as u32
    }

    /// What the cell of the attribute `id` holds; `None` where the cluster
    /// has no attribute with that number.
    pub open spec fn cell(self, id: AttrId) -> Option<AttrValueView> {
        match Attributes::spec_from_repr(id) {
            Some(Attributes::TemperatureSetpoint) => Some(
                AttrValueView::I16(self.temperature_setpoint),
            ),
            Some(Attributes::MinTemperature) => Some(AttrValueView::I16(self.min_temperature)),
            Some(Attributes::MaxTemperature) => Some(AttrValueView::I16(self.max_temperature)),
            Some(Attributes::Step) => Some(AttrValueView::I16(self.step)),
            Some(Attributes::SelectedTemperatureLevel) => Some(
                AttrValueView::U8(self.selected_temperature_level),
            ),
            Some(Attributes::SupportedTemperatureLevels) => Some(
                AttrValueView::U8Array(self.supported_temperature_levels),
            ),
            None => None,
        }
    }
}

/// One instance of the temperature control cluster.
#[derive(Debug)]
pub struct TemperatureControlCluster {
    data_ver: Dataver,
    temperature_setpoint: AttrCell<i16>,
    min_temperature: AttrCell<i16>,
    max_temperature: AttrCell<i16>,
    step: AttrCell<i16>,
    selected_temperature_level: AttrCell<u8>,
    supported_temperature_levels: AttrCell<[u8; 32]>,
}

impl View for TemperatureControlCluster {
    type V = TemperatureControlState;

    closed spec fn view(&self) -> TemperatureControlState {
        TemperatureControlState {
            data_ver: self.data_ver@,
            temperature_setpoint: self.temperature_setpoint@,
            min_temperature: self.min_temperature@,
            max_temperature: self.max_temperature@,
            step: self.step@,
            selected_temperature_level: self.selected_temperature_level@,
            supported_temperature_levels: self.supported_temperature_levels@,
        }
    }
}

impl Clone for TemperatureControlCluster {
    fn clone(&self) -> (cluster: Self)
        ensures
            cluster@ == self@,
    {
        TemperatureControlCluster {
            data_ver: self.data_ver.clone(),
            temperature_setpoint: self.temperature_setpoint.clone(),
            min_temperature: self.min_temperature.clone(),
            max_temperature: self.max_temperature.clone(),
            step: self.step.clone(),
            selected_temperature_level: self.selected_temperature_level.clone(),
            supported_temperature_levels: self.supported_temperature_levels.clone(),
        }
    }
}

impl TemperatureControlCluster {
    /// An instance with the version counter `data_ver`: a setpoint of zero
    /// in a range that is as wide as the type, a step of one, and the level
    /// zero out of a list of thirty-two zeros.
    pub fn new(data_ver: Dataver) -> (cluster: Self)
        ensures
            cluster@ == (TemperatureControlState {
                data_ver: data_ver@,
                temperature_setpoint: 0,
                min_temperature: i16::MIN,
                max_temperature: i16::MAX,
                step: 1,
                selected_temperature_level: 0,
                supported_temperature_levels: Seq::new(32, |i: int| 0u8),
            }),
    {
        let zeros: [u8; 32] = [0; 32];
        assert(zeros.deep_view() =~= Seq::new(32, |i: int| 0u8));
        Self {
            data_ver,
            temperature_setpoint: AttrCell::new(0),
            min_temperature: AttrCell::new(i16::MIN),
            max_temperature: AttrCell::new(i16::MAX),
            step: AttrCell::new(1),
            selected_temperature_level: AttrCell::new(0),
            supported_temperature_levels: AttrCell::new(zeros),
        }
    }

    /// The version counter of the instance.
    pub fn data_ver(&self) -> (data_ver: &Dataver)
        ensures
            data_ver@ == self@.data_ver,
    {
        &self.data_ver
    }

    /// The temperature that the appliance is set to.
    pub fn get_temperature_setpoint(&self) -> (value: i16)
        ensures
            value == self@.temperature_setpoint,
    {
        self.temperature_setpoint.get()
    }

    /// The lowest temperature that the appliance can be set to.
    pub fn get_min_temperature(&self) -> (value: i16)
        ensures
            value == self@.min_temperature,
    {
        self.min_temperature.get()
    }

    /// The highest temperature that the appliance can be set to.
    pub fn get_max_temperature(&self) -> (value: i16)
        ensures
            value == self@.max_temperature,
    {
        self.max_temperature.get()
    }

    /// The step between two temperatures that the appliance can be set to.
    pub fn get_step(&self) -> (value: i16)
        ensures
            value == self@.step,
    {
        self.step.get()
    }

    /// The level that the appliance is set to.
    pub fn get_selected_temperature_level(&self) -> (value: u8)
        ensures
            value == self@.selected_temperature_level,
    {
        self.selected_temperature_level.get()
    }

    /// The levels that the appliance can be set to.
    pub fn get_supported_temperature_levels(&self) -> (value: [u8; 32])
        ensures
            value@ == self@.supported_temperature_levels,
    {
        let value = self.supported_temperature_levels.get();
        assert(value@ =~= value.deep_view());
        value
    }

    /// Writes the setpoint, and tells whether that changed it. A change
    /// advances the version by one and raises the change flag; a value equal
    /// to the one held changes nothing. The range and the step are not
    /// applied here.
    pub fn set_temperature_setpoint(&mut self, temperature_setpoint: i16) -> (changed: bool)
        requires
            old(self)@.temperature_setpoint != temperature_setpoint ==> old(self)@.data_ver.version
                < u32::MAX,
        ensures
            changed == (old(self)@.temperature_setpoint != temperature_setpoint),
            final(self)@ == (TemperatureControlState {
                temperature_setpoint,
                data_ver: old(self)@.data_ver.written(changed),
                ..old(self)@
            }),
    {
        self.temperature_setpoint.set(&mut self.data_ver, temperature_setpoint)
    }

    /// Writes the lower end of the range, and tells whether that changed it.
    pub fn set_min_temperature(&mut self, min_temperature: i16) -> (changed: bool)
        requires
            old(self)@.min_temperature != min_temperature ==> old(self)@.data_ver.version
                < u32::MAX,
        ensures
            changed == (old(self)@.min_temperature != min_temperature),
            final(self)@ == (TemperatureControlState {
                min_temperature,
                data_ver: old(self)@.data_ver.written(changed),
                ..old(self)@
            }),
    {
        self.min_temperature.set(&mut self.data_ver, min_temperature)
    }

    /// Writes the upper end of the range, and tells whether that changed it.
    pub fn set_max_temperature(&mut self, max_temperature: i16) -> (changed: bool)
        requires
            old(self)@.max_temperature != max_temperature ==> old(self)@.data_ver.version
                < u32::MAX,
        ensures
            changed == (old(self)@.max_temperature != max_temperature),
            final(self)@ == (TemperatureControlState {
                max_temperature,
                data_ver: old(self)@.data_ver.written(changed),
                ..old(self)@
            }),
    {
        self.max_temperature.set(&mut self.data_ver, max_temperature)
    }

    /// Writes the step, and tells whether that changed it.
    pub fn set_step(&mut self, step: i16) -> (changed: bool)
        requires
            old(self)@.step != step ==> old(self)@.data_ver.version < u32::MAX,
        ensures
            changed == (old(self)@.step != step),
            final(self)@ == (TemperatureControlState {
                step,
                data_ver: old(self)@.data_ver.written(changed),
                ..old(self)@
            }),
    {
        self.step.set(&mut self.data_ver, step)
    }

    /// Writes the selected level, and tells whether that changed it.
    pub fn set_selected_temperature_level(&mut self, selected_temperature_level: u8) -> (changed:
        bool)
        requires
            old(self)@.selected_temperature_level != selected_temperature_level ==> old(
                self,
            )@.data_ver.version < u32::MAX,
        ensures
            changed == (old(self)@.selected_temperature_level != selected_temperature_level),
            final(self)@ == (TemperatureControlState {
                selected_temperature_level,
                data_ver: old(self)@.data_ver.written(changed),
                ..old(self)@
            }),
    {
        self.selected_temperature_level.set(&mut self.data_ver, selected_temperature_level)
    }

    /// Writes the list of levels, and tells whether that changed it.
    pub fn set_supported_temperature_levels(
        &mut self,
        supported_temperature_levels: [u8; 32],
    ) -> (changed: bool)
        requires
            old(self)@.supported_temperature_levels != supported_temperature_levels@ ==> old(
                self,
            )@.data_ver.version < u32::MAX,
        ensures
            changed == (old(self)@.supported_temperature_levels != supported_temperature_levels@),
            final(self)@ == (TemperatureControlState {
                supported_temperature_levels: supported_temperature_levels@,
                data_ver: old(self)@.data_ver.written(changed),
                ..old(self)@
            }),
    {
        assert(supported_temperature_levels@ =~= supported_temperature_levels.deep_view());
        self.supported_temperature_levels.set(&mut self.data_ver, supported_temperature_levels)
    }

    /// Reads the attribute that `attr` names into the encoder's sink: see
    /// `Handler::read`.
    pub fn read(&self, attr: &AttrDetails, encoder: AttrDataEncoder<'_>) -> (result: Result<
        (),
        Error,
    >)
        ensures
            result == read_outcome(
                self@.dataver(),
                encoder.dataver_filter,
                spec_cluster().resolve(attr.attr_id, self@.cell(attr.attr_id)),
                old(encoder.sink)@,
            ).result,
            final(encoder.sink)@ == read_outcome(
                self@.dataver(),
                encoder.dataver_filter,
                spec_cluster().resolve(attr.attr_id, self@.cell(attr.attr_id)),
                old(encoder.sink)@,
            ).sink,
    {
        if let Some(writer) = encoder.with_dataver(self.data_ver.get()) {
            if attr.is_system() {
                cluster().read(attr.attr_id, writer)
            } else {
                match Attributes::try_from(attr.attr_id)? {
                    Attributes::TemperatureSetpoint => writer.set(
                        AttrValue::I16(self.temperature_setpoint.get()),
                    ),
                    Attributes::MinTemperature => writer.set(
                        AttrValue::I16(self.min_temperature.get()),
                    ),
                    Attributes::MaxTemperature => writer.set(
                        AttrValue::I16(self.max_temperature.get()),
                    ),
                    Attributes::Step => writer.set(AttrValue::I16(self.step.get())),
                    Attributes::SelectedTemperatureLevel => writer.set(
                        AttrValue::U8(self.selected_temperature_level.get()),
                    ),
                    Attributes::SupportedTemperatureLevels => writer.set(
                        AttrValue::U8Array32(self.supported_temperature_levels.get()),
                    ),
                }
            }
        } else {
            Ok(())
        }
    }
}

impl Handler for TemperatureControlCluster {
    open spec fn cluster(&self) -> ClusterView {
        spec_cluster()
    }

    open spec fn dataver(&self) -> u32 {
        self@.dataver()
    }

    open spec fn cell(&self, id: AttrId) -> Option<AttrValueView> {
        self@.cell(id)
    }

    /// The cluster has no handler for any command, not even for the one that
    /// its metadata accepts.
    open spec fn handles(&self, id: CmdId) -> bool {
        false
    }

    proof fn lemma_dispatch_matches_metadata(&self, id: AttrId) {
        lemma_declared(id);
    }

    proof fn lemma_handlers_match_metadata(&self, id: CmdId) {
    }

    fn read(&self, attr: &AttrDetails, encoder: AttrDataEncoder<'_>) -> (result: Result<(), Error>) {
        proof {
            self.lemma_dispatch_matches_metadata(attr.attr_id);
        }
        TemperatureControlCluster::read(self, attr, encoder)
    }

    fn invoke(&self, cmd: &CmdDetails, _data: &[u8]) -> (result: Result<(), Error>) {
        Err(cluster().unhandled(cmd.cmd_id))
    }
}

impl ChangeNotifier<()> for TemperatureControlCluster {
    open spec fn change_pending(&self) -> bool {
        self@.data_ver.pending
    }

    fn consume_change(&mut self) -> (change: Option<()>)
        ensures
            change == signal(old(self)@.data_ver.pending),
            final(self)@ == (TemperatureControlState {
                data_ver: old(self)@.data_ver.drained(),
                ..old(self)@
            }),
    {
        self.data_ver.consume_change(())
    }
}

} // verus!
