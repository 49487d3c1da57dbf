//! The oven cavity operational state cluster: the phases that an oven goes
//! through, and the commands that carry it from one state to the next.
use vstd::prelude::*;
use vstd::std_specs::convert::TryFromSpecImpl;

use super::objects::attribute::{
    is_system_attr, Access, AttrDetails, AttrId, Attribute, CmdDetails, CmdId, Quality,
};
use super::objects::cell::AttrCell;
use super::objects::cluster::{
    cluster_attrs, ids_of, lemma_cluster_attrs_declare, spec_cluster_attrs, Cluster, ClusterView,
};
use super::objects::dataver::{signal, Dataver, DataverView};
use super::objects::encoder::{read_outcome, AttrDataEncoder};
use super::objects::handler::{ChangeNotifier, Handler};
use super::objects::value::{AttrValue, AttrValueView};
use crate::error::Error;

verus! {

/// The number of the cluster.
pub const ID: u32 = 0x0048;

/// The attributes of the cluster.
#[derive(Debug, Clone, Copy, PartialEq, Eq, Structural)]
pub enum Attributes {
    PhaseList,
}

impl Attributes {
    /// The number of an attribute.
    pub open spec fn spec_id(self) -> AttrId {
        match self {
            Attributes::PhaseList => 0x0,
        }
    }

    /// The attribute with the number `id`, if the cluster has one.
    pub open spec fn spec_from_repr(id: AttrId) -> Option<Attributes> {
        if id == 0x0 {
            Some(Attributes::PhaseList)
        } else {
            None
        }
    }

    /// The number of the attribute.
    #[verifier::when_used_as_spec(spec_id)]
    pub fn id(self) -> (id: AttrId)
        ensures
            id == self.spec_id(),
            Self::spec_from_repr(id) == Some(self),
    {
        match self {
            Attributes::PhaseList => 0x0,
        }
    }

    /// The attribute with the number `id`, if the cluster has one.
    #[verifier::when_used_as_spec(spec_from_repr)]
    pub fn from_repr(id: AttrId) -> (attribute: Option<Attributes>)
        ensures
            attribute == Self::spec_from_repr(id),
            attribute matches Some(a) ==> a.spec_id() == id,
    {
        match id {
            0x0 => Some(Attributes::PhaseList),
            _ => None,
        }
    }
}

impl TryFrom<AttrId> for Attributes {
    type Error = Error;

    /// The attribute with the number `id`; `UnsupportedAttribute` if the
    /// cluster has none.
    fn try_from(id: AttrId) -> (attribute: Result<Attributes, Error>) {
        match Attributes::from_repr(id) {
            Some(attribute) => Ok(attribute),
            None => Err(Error::UnsupportedAttribute),
        }
    }
}

impl TryFromSpecImpl<AttrId> for Attributes {
    open spec fn obeys_try_from_spec() -> bool {
        true
    }

    open spec fn try_from_spec(id: AttrId) -> Result<Attributes, Error> {
        match Attributes::spec_from_repr(id) {
            Some(attribute) => Ok(attribute),
            None => Err(Error::UnsupportedAttribute),
        }
    }
}

/// The commands of the cluster. None of them takes arguments.
#[derive(Debug, Clone, Copy, PartialEq, Eq, Structural)]
pub enum Commands {
    Pause,
    Stop,
    Start,
    Resume,
}

impl Commands {
    /// The command with the number `id`, if the cluster has one.
    pub open spec fn spec_from_repr(id: CmdId) -> Option<Commands> {
        if id == 0x0 {
            Some(Commands::Pause)
        } else if id == 0x1 {
            Some(Commands::Stop)
        } else if id == 0x2 {
            Some(Commands::Start)
        } else if id == 0x3 {
            Some(Commands::Resume)
        } else {
            None
        }
    }

    /// The command with the number `id`, if the cluster has one.
    #[verifier::when_used_as_spec(spec_from_repr)]
    pub fn from_repr(id: CmdId) -> (command: Option<Commands>)
        ensures
            command == Self::spec_from_repr(id),
            command matches Some(c) ==> c.discriminant().spec_id() == id,
    {
        match id {
            0x0 => Some(Commands::Pause),
            0x1 => Some(Commands::Stop),
            0x2 => Some(Commands::Start),
            0x3 => Some(Commands::Resume),
            _ => None,
        }
    }

    /// Which of the commands this is.
    pub open spec fn discriminant(self) -> CommandsDiscriminants {
        match self {
            Commands::Pause => CommandsDiscriminants::Pause,
            Commands::Stop => CommandsDiscriminants::Stop,
            Commands::Start => CommandsDiscriminants::Start,
            Commands::Resume => CommandsDiscriminants::Resume,
        }
    }
}

impl TryFrom<CmdId> for Commands {
    type Error = Error;

    /// The command with the number `id`; `UnsupportedCommand` if the cluster
    /// has none.
    fn try_from(id: CmdId) -> (command: Result<Commands, Error>) {
        match Commands::from_repr(id) {
            Some(command) => Ok(command),
            None => Err(Error::UnsupportedCommand),
        }
    }
}

impl TryFromSpecImpl<CmdId> for Commands {
    open spec fn obeys_try_from_spec() -> bool {
        true
    }

    open spec fn try_from_spec(id: CmdId) -> Result<Commands, Error> {
        match Commands::spec_from_repr(id) {
            Some(command) => Ok(command),
            None => Err(Error::UnsupportedCommand),
        }
    }
}

/// The commands of the cluster, as the metadata names them.
#[derive(Debug, Clone, Copy, PartialEq, Eq, Structural)]
pub enum CommandsDiscriminants {
    Pause,
    Stop,
    Start,
    Resume,
}

impl CommandsDiscriminants {
    /// The number of a command.
    pub open spec fn spec_id(self) -> CmdId {
        match self {
            CommandsDiscriminants::Pause => 0x0,
            CommandsDiscriminants::Stop => 0x1,
            CommandsDiscriminants::Start => 0x2,
            CommandsDiscriminants::Resume => 0x3,
        }
    }

    /// The number of the command.
    #[verifier::when_used_as_spec(spec_id)]
    pub fn id(self) -> (id: CmdId)
        ensures
            id == self.spec_id(),
            Commands::spec_from_repr(id) matches Some(c) && c.discriminant() == self,
    {
        match self {
            CommandsDiscriminants::Pause => 0x0,
            CommandsDiscriminants::Stop => 0x1,
            CommandsDiscriminants::Start => 0x2,
            CommandsDiscriminants::Resume => 0x3,
        }
    }
}

/// The descriptors of the cluster's own attributes.
pub open spec fn spec_attributes() -> Seq<Attribute> {
    seq![Attribute { id: 0x0, access: Access::RV, quality: Quality::X }]
}

/// The metadata of the cluster. It accepts its four commands and sends none
/// in reply.
pub open spec fn spec_cluster() -> ClusterView {
    ClusterView {
        id: ID,
        revision: 1,
        feature_map: 0,
        attributes: spec_cluster_attrs(spec_attributes()),
        accepted_commands: seq![0x0u32, 0x1u32, 0x2u32, 0x3u32],
        generated_commands: Seq::empty(),
    }
}

/// The metadata of the cluster.
pub fn cluster() -> (cluster: Cluster)
    ensures
        cluster@ == spec_cluster(),
{
    let attributes: Vec<Attribute> = vec![
        Attribute::new(Attributes::PhaseList.id(), Access::RV, Quality::X),
    ];
    assert(attributes@ =~= spec_attributes());
    let accepted_commands: Vec<CmdId> = vec![
        CommandsDiscriminants::Pause.id(),
        CommandsDiscriminants::Stop.id(),
        CommandsDiscriminants::Start.id(),
        CommandsDiscriminants::Resume.id(),
    ];
    assert(accepted_commands@ =~= seq![0x0u32, 0x1u32, 0x2u32, 0x3u32]);
    let cluster = Cluster {
        id: ID,
        revision: 1,
        feature_map: 0,
        attributes: cluster_attrs(attributes),
        accepted_commands,
        generated_commands: Vec::new(),
    };
    assert(cluster@.generated_commands =~= Seq::empty());
    cluster
}

/// The cluster declares its one attribute and the global ones, and no
/// other.
pub proof fn lemma_declared(id: AttrId)
    ensures
        spec_cluster().declares(id) <==> (is_system_attr(id) || Attributes::spec_from_repr(id)
            is Some),
{
    lemma_cluster_attrs_declare(spec_attributes(), id);
    let own = ids_of(spec_attributes());
    assert(own[0] == 0x0);
}

/// The commands that the cluster accepts are those that it has a handler
/// for.
pub proof fn lemma_accepted(id: CmdId)
    ensures
        spec_cluster().accepts(id) <==> Commands::spec_from_repr(id) is Some,
{
    let accepted = spec_cluster().accepted_commands;
    assert(accepted[0] == 0x0 && accepted[1] == 0x1 && accepted[2] == 0x2 && accepted[3] == 0x3);
}

/// The phase list of an oven that has none: thirty-two empty names.
pub open spec fn no_phases() -> Seq<Seq<char>> {
    Seq::new(32, |i: int| Seq::<char>::empty())
}

/// The model of an `OvenCavityOperationalStateCluster`.
pub struct OvenCavityOperationalState {
    pub data_ver: DataverView,
    /// The names of the phases, by their characters.
    pub phase_list: Seq<Seq<char>>,
}

impl OvenCavityOperationalState {
    /// The version as a read hands it out.
    pub open spec fn dataver(self) -> u32 {
        self.data_ver.version as u32
    }

    /// What the cell of the attribute `id` holds; `None` where the cluster
    /// has no attribute with that number.
    pub open spec fn cell(self, id: AttrId) -> Option<AttrValueView> {
        match Attributes::spec_from_repr(id) {
            Some(Attributes::PhaseList) => Some(AttrValueView::StrArray(self.phase_list)),
            None => None,
        }
    }
}

/// One instance of the oven cavity operational state cluster.
#[derive(Debug)]
pub struct OvenCavityOperationalStateCluster {
    data_ver: Dataver,
    phase_list: AttrCell<[&'static str; 32]>,
}

impl View for OvenCavityOperationalStateCluster {
    type V = OvenCavityOperationalState;

    closed spec fn view(&self) -> OvenCavityOperationalState {
        OvenCavityOperationalState { data_ver: self.data_ver@, phase_list: self.phase_list@ }
    }
}

impl Clone for OvenCavityOperationalStateCluster {
    fn clone(&self) -> (cluster: Self)
        ensures
            cluster@ == self@,
    {
        OvenCavityOperationalStateCluster {
            data_ver: self.data_ver.clone(),
            phase_list: self.phase_list.clone(),
        }
    }
}

impl OvenCavityOperationalStateCluster {
    /// An instance with the version counter `data_ver` and no phases.
    pub fn new(data_ver: Dataver) -> (cluster: Self)
        ensures
            cluster@ == (OvenCavityOperationalState { data_ver: data_ver@, phase_list: no_phases() }),
    {
        let empty: &'static str = "";
        let phases: [&'static str; 32] = [empty; 32];
        proof {
            reveal_strlit("");
            assert(empty@ =~= Seq::<char>::empty());
            assert forall|i: int| 0 <= i < 32 implies #[trigger] phases.deep_view()[i] == Seq::<
                char,
            >::empty() by {
                assert(phases@[i] == empty);
            }
            assert(phases.deep_view() =~= no_phases());
        }
        Self { data_ver, phase_list: AttrCell::new(phases) }
    }

    /// The version counter of the instance.
    pub fn data_ver(&self) -> (data_ver: &Dataver)
        ensures
            data_ver@ == self@.data_ver,
    {
        &self.data_ver
    }

    /// The names of the phases.
    pub fn get_phase_list(&self) -> (value: [&'static str; 32])
        ensures
            value.deep_view() == self@.phase_list,
    {
        self.phase_list.get()
    }

    /// Writes the phase list, and tells whether that changed it. Two lists
    /// are the same if their names are, one by one. A change advances the
    /// version by one and raises the change flag; a list that is the same as
    /// the one held changes nothing.
    pub fn set_phase_list(&mut self, phase_list: [&'static str; 32]) -> (changed: bool)
        requires
            old(self)@.phase_list != phase_list.deep_view() ==> old(self)@.data_ver.version
                < u32::MAX,
        ensures
            changed == (old(self)@.phase_list != phase_list.deep_view()),
            final(self)@ == (OvenCavityOperationalState {
                phase_list: phase_list.deep_view(),
                data_ver: old(self)@.data_ver.written(changed),
            }),
    {
        self.phase_list.set(&mut self.data_ver, phase_list)
    }

    /// Reads the attribute that `attr` names into the encoder's sink: see
    /// `Handler::read`.
    pub fn read(&self, attr: &AttrDetails, encoder: AttrDataEncoder<'_>) -> (result: Result<
        (),
        Error,
    >)
        ensures
            result == read_outcome(
                self@.dataver(),
                encoder.dataver_filter,
                spec_cluster().resolve(attr.attr_id, self@.cell(attr.attr_id)),
                old(encoder.sink)@,
            ).result,
            final(encoder.sink)@ == read_outcome(
                self@.dataver(),
                encoder.dataver_filter,
                spec_cluster().resolve(attr.attr_id, self@.cell(attr.attr_id)),
                old(encoder.sink)@,
            ).sink,
    {
        if let Some(writer) = encoder.with_dataver(self.data_ver.get()) {
            if attr.is_system() {
                cluster().read(attr.attr_id, writer)
            } else {
                match Attributes::try_from(attr.attr_id)? {
                    Attributes::PhaseList => writer.set(
                        AttrValue::StrArray32(self.get_phase_list()),
                    ),
                }
            }
        } else {
            Ok(())
        }
    }

    /// Invokes the command that `cmd` names: see `Handler::invoke`. The
    /// cluster has a handler for each of its four commands. None of them
    /// reads the payload, writes to the instance or sends a reply.
    pub fn invoke(&self, cmd: &CmdDetails, _data: &[u8]) -> (result: Result<(), Error>)
        ensures
            result == spec_cluster().invoke(
                cmd.cmd_id,
                Commands::spec_from_repr(cmd.cmd_id) is Some,
            ),
            result == (if Commands::spec_from_repr(cmd.cmd_id) is Some {
                Ok::<(), Error>(())
            } else {
                Err::<(), Error>(Error::UnsupportedCommand)
            }),
    {
        proof {
            lemma_accepted(cmd.cmd_id);
        }
        match Commands::try_from(cmd.cmd_id)? {
            Commands::Pause => Ok(()),
            Commands::Stop => Ok(()),
            Commands::Start => Ok(()),
            Commands::Resume => Ok(()),
        }
    }
}

impl Handler for OvenCavityOperationalStateCluster {
    open spec fn cluster(&self) -> ClusterView {
        spec_cluster()
    }

    open spec fn dataver(&self) -> u32 {
        self@.dataver()
    }

    open spec fn cell(&self, id: AttrId) -> Option<AttrValueView> {
        self@.cell(id)
    }

    open spec fn handles(&self, id: CmdId) -> bool {
        Commands::spec_from_repr(id) is Some
    }

    proof fn lemma_dispatch_matches_metadata(&self, id: AttrId) {
        lemma_declared(id);
    }

    proof fn lemma_handlers_match_metadata(&self, id: CmdId) {
        lemma_accepted(id);
    }

    fn read(&self, attr: &AttrDetails, encoder: AttrDataEncoder<'_>) -> (result: Result<(), Error>) {
        proof {
            self.lemma_dispatch_matches_metadata(attr.attr_id);
        }
        OvenCavityOperationalStateCluster::read(self, attr, encoder)
    }

    fn invoke(&self, cmd: &CmdDetails, _data: &[u8]) -> (result: Result<(), Error>) {
        proof {
            lemma_accepted(cmd.cmd_id);
        }
        OvenCavityOperationalStateCluster::invoke(self, cmd, _data)
    }
}

impl ChangeNotifier<()> for OvenCavityOperationalStateCluster {
    open spec fn change_pending(&self) -> bool {
        self@.data_ver.pending
    }

    fn consume_change(&mut self) -> (change: Option<()>)
        ensures
            change == signal(old(self)@.data_ver.pending),
            final(self)@ == (OvenCavityOperationalState {
                data_ver: old(self)@.data_ver.drained(),
                ..old(self)@
            }),
    {
        self.data_ver.consume_change(())
    }
}

} // verus!
