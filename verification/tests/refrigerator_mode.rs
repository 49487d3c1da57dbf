use matter_data_model::data_model::cluster_refrigerator_and_temperature_controlled_cabinet_mode::{
    cluster, Attributes, RefrigeratorAndTemperatureControlledCabinetModeCluster, ID,
};
use matter_data_model::data_model::objects::{
    AttrDataEncoder, AttrDetails, AttrSink, AttrValue, ChangeNotifier, CmdDetails, Dataver,
    Emitted, Handler,
};
use matter_data_model::error::Error;

#[test]
fn refrigerator_starts_with_zeros() {
    let cluster = RefrigeratorAndTemperatureControlledCabinetModeCluster::new(Dataver::new(2));
    assert_eq!(cluster.get_supported_mode(), [0u8; 8]);
    assert_eq!(cluster.get_current_mode(), 0);
    assert_eq!(cluster.get_start_up_mode(), 0);
    assert_eq!(cluster.get_on_mode(), [0u8; 8]);
    assert_eq!(cluster.data_ver().get(), 2);
}

#[test]
fn refrigerator_setters_change_their_own_attribute() {
    let mut cluster = RefrigeratorAndTemperatureControlledCabinetModeCluster::new(Dataver::new(0));
    assert!(cluster.set_supported_mode([1, 2, 3, 0, 0, 0, 0, 0]));
    assert!(cluster.set_current_mode(2));
    assert!(cluster.set_start_up_mode(1));
    assert!(cluster.set_on_mode([3, 0, 0, 0, 0, 0, 0, 0]));
    assert_eq!(cluster.get_supported_mode(), [1, 2, 3, 0, 0, 0, 0, 0]);
    assert_eq!(cluster.get_current_mode(), 2);
    assert_eq!(cluster.get_start_up_mode(), 1);
    assert_eq!(cluster.get_on_mode(), [3, 0, 0, 0, 0, 0, 0, 0]);
    assert_eq!(cluster.data_ver().get(), 4);
}

#[test]
fn refrigerator_writes_are_idempotent() {
    let mut cluster = RefrigeratorAndTemperatureControlledCabinetModeCluster::new(Dataver::new(0));
    assert!(!cluster.set_supported_mode([0; 8]));
    assert!(!cluster.set_current_mode(0));
    assert!(!cluster.set_start_up_mode(0));
    assert!(!cluster.set_on_mode([0; 8]));
    assert_eq!(cluster.data_ver().get(), 0);
    assert_eq!(cluster.consume_change(), None);
    assert!(cluster.set_on_mode([0, 0, 0, 0, 0, 0, 0, 9]));
    assert!(!cluster.set_on_mode([0, 0, 0, 0, 0, 0, 0, 9]));
    assert_eq!(cluster.data_ver().get(), 1);
    assert_eq!(cluster.consume_change(), Some(()));
    assert_eq!(cluster.consume_change(), None);
}

#[test]
fn refrigerator_reads_each_cell() {
    let mut cluster = RefrigeratorAndTemperatureControlledCabinetModeCluster::new(Dataver::new(0));
    cluster.set_supported_mode([1, 2, 0, 0, 0, 0, 0, 0]);
    cluster.set_current_mode(2);
    cluster.set_start_up_mode(1);
    cluster.set_on_mode([2, 0, 0, 0, 0, 0, 0, 0]);
    let expected = [
        (0u32, AttrValue::U8Array8([1, 2, 0, 0, 0, 0, 0, 0])),
        (1, AttrValue::U8(2)),
        (2, AttrValue::U8(1)),
        (3, AttrValue::U8Array8([2, 0, 0, 0, 0, 0, 0, 0])),
    ];
    for (id, value) in expected {
        let mut sink = AttrSink::new(2);
        let attr = AttrDetails::new(id, Some(3));
        assert_eq!(cluster.read(&attr, AttrDataEncoder::new(&attr, &mut sink)), Ok(()));
        assert_eq!(sink.items(), &vec![Emitted::Value(value), Emitted::DataVersion(4)]);
    }
}

#[test]
fn refrigerator_reads_every_declared_attribute() {
    let cluster = RefrigeratorAndTemperatureControlledCabinetModeCluster::new(Dataver::new(0));
    let declared = declared_ids();
    assert_eq!(declared, vec![0xFFF8, 0xFFF9, 0xFFFB, 0xFFFC, 0xFFFD, 0, 1, 2, 3]);
    for id in declared {
        let mut sink = AttrSink::new(2);
        let attr = AttrDetails::new(id, None);
        assert_eq!(cluster.read(&attr, AttrDataEncoder::new(&attr, &mut sink)), Ok(()));
        assert_eq!(sink.len(), 2);
    }
}

fn declared_ids() -> Vec<u32> {
    cluster().attribute_ids()
}

#[test]
fn refrigerator_rejects_undeclared_attributes() {
    let cluster = RefrigeratorAndTemperatureControlledCabinetModeCluster::new(Dataver::new(0));
    for id in [4u32, 5, 0xFFFA, 0xFFFE, u32::MAX] {
        let mut sink = AttrSink::new(2);
        let attr = AttrDetails::new(id, None);
        assert_eq!(
            cluster.read(&attr, AttrDataEncoder::new(&attr, &mut sink)),
            Err(Error::UnsupportedAttribute)
        );
        assert_eq!(
            Handler::read(&cluster, &attr, AttrDataEncoder::new(&attr, &mut sink)),
            Err(Error::UnsupportedAttribute)
        );
        assert_eq!(sink.len(), 0);
    }
}

#[test]
fn refrigerator_read_skips_known_version() {
    let cluster = RefrigeratorAndTemperatureControlledCabinetModeCluster::new(Dataver::new(6));
    let mut sink = AttrSink::new(2);
    let attr = AttrDetails::new(1, Some(6));
    assert_eq!(cluster.read(&attr, AttrDataEncoder::new(&attr, &mut sink)), Ok(()));
    assert_eq!(sink.len(), 0);
}

#[test]
fn refrigerator_accepts_no_command() {
    let cluster = RefrigeratorAndTemperatureControlledCabinetModeCluster::new(Dataver::new(6));
    for id in [0u32, 1, u32::MAX] {
        assert_eq!(
            Handler::invoke(&cluster, &CmdDetails::new(id), &[]),
            Err(Error::UnsupportedCommand)
        );
    }
}

#[test]
fn refrigerator_attribute_numbers() {
    assert_eq!(ID, 0x0052);
    let all = [
        (Attributes::SupportedModes, 0u32),
        (Attributes::CurrentMode, 1),
        (Attributes::StartupMode, 2),
        (Attributes::OnMode, 3),
    ];
    for (attribute, id) in all {
        assert_eq!(attribute.id(), id);
        assert_eq!(Attributes::from_repr(id), Some(attribute));
        assert_eq!(Attributes::try_from(id), Ok(attribute));
    }
    assert_eq!(Attributes::from_repr(4), None);
    assert_eq!(Attributes::try_from(4), Err(Error::UnsupportedAttribute));
}

#[test]
fn refrigerator_metadata() {
    let metadata = cluster();
    assert_eq!(metadata.id, 0x0052);
    assert_eq!(metadata.revision, 1);
    assert_eq!(metadata.feature_map, 0);
    assert_eq!(metadata.attributes.len(), 9);
    assert!(metadata.accepted_commands.is_empty());
    assert!(metadata.generated_commands.is_empty());
}

#[test]
fn refrigerator_clone_is_independent() {
    let mut cluster = RefrigeratorAndTemperatureControlledCabinetModeCluster::new(Dataver::new(6));
    let copy = cluster.clone();
    cluster.set_current_mode(4);
    assert_eq!(copy.get_current_mode(), 0);
    assert_eq!(copy.data_ver().get(), 6);
    assert_eq!(cluster.data_ver().get(), 7);
}
