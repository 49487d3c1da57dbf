use matter_data_model::data_model::cluster_temperature_measurement::{
    cluster, Attributes, TemperatureMeasurementCluster, ID,
};
use matter_data_model::data_model::objects::{
    AttrDataEncoder, AttrDetails, AttrSink, AttrValue, ChangeNotifier, CmdDetails, Dataver,
    Emitted, Handler,
};
use matter_data_model::error::Error;

#[test]
fn temperature_measurement_starts_with_defaults() {
    let cluster = TemperatureMeasurementCluster::new(Dataver::new(1));
    assert_eq!(cluster.get_measured_value(), 0);
    assert_eq!(cluster.get_min_measured_value(), i16::MIN);
    assert_eq!(cluster.get_max_measured_value(), i16::MAX);
    assert_eq!(cluster.data_ver().get(), 1);
    assert!(!cluster.data_ver().is_changed());
}

#[test]
fn temperature_measurement_scenario() {
    let mut cluster = TemperatureMeasurementCluster::new(Dataver::new(40));
    assert_eq!(cluster.get_measured_value(), 0);
    let old_version = cluster.data_ver().get();

    assert!(cluster.set_measured_value(250));
    assert_eq!(cluster.get_measured_value(), 250);
    assert_eq!(cluster.data_ver().get(), old_version + 1);
    assert_eq!(cluster.consume_change(), Some(()));
    assert_eq!(cluster.consume_change(), None);

    let mut sink = AttrSink::new(8);
    let attr = AttrDetails::new(Attributes::MeasuredValue.id(), Some(old_version));
    assert_eq!(cluster.read(&attr, AttrDataEncoder::new(&attr, &mut sink)), Ok(()));
    assert_eq!(
        sink.items(),
        &vec![Emitted::Value(AttrValue::I16(250)), Emitted::DataVersion(old_version + 1)]
    );
}

#[test]
fn temperature_measurement_write_is_idempotent() {
    let mut cluster = TemperatureMeasurementCluster::new(Dataver::new(0));
    assert!(cluster.set_measured_value(-40));
    assert_eq!(cluster.data_ver().get(), 1);
    assert!(!cluster.set_measured_value(-40));
    assert_eq!(cluster.data_ver().get(), 1);
    assert_eq!(cluster.get_measured_value(), -40);
}

#[test]
fn temperature_measurement_write_of_default_changes_nothing() {
    let mut cluster = TemperatureMeasurementCluster::new(Dataver::new(0));
    assert!(!cluster.set_measured_value(0));
    assert!(!cluster.set_min_measured_value(i16::MIN));
    assert!(!cluster.set_max_measured_value(i16::MAX));
    assert_eq!(cluster.data_ver().get(), 0);
    assert_eq!(cluster.consume_change(), None);
}

#[test]
fn temperature_measurement_each_attribute_shares_the_version() {
    let mut cluster = TemperatureMeasurementCluster::new(Dataver::new(0));
    assert!(cluster.set_min_measured_value(-100));
    assert!(cluster.set_max_measured_value(100));
    assert!(cluster.set_measured_value(21));
    assert_eq!(cluster.data_ver().get(), 3);
    assert_eq!(cluster.get_min_measured_value(), -100);
    assert_eq!(cluster.get_max_measured_value(), 100);
    assert_eq!(cluster.get_measured_value(), 21);
    assert_eq!(cluster.consume_change(), Some(()));
    assert_eq!(cluster.consume_change(), None);
    assert_eq!(cluster.data_ver().get(), 3);
}

#[test]
fn temperature_measurement_store_applies_no_range() {
    let mut cluster = TemperatureMeasurementCluster::new(Dataver::new(0));
    assert!(cluster.set_min_measured_value(10));
    assert!(cluster.set_max_measured_value(-10));
    assert!(cluster.set_measured_value(i16::MAX));
    assert_eq!(cluster.get_measured_value(), i16::MAX);
    assert_eq!(cluster.data_ver().get(), 3);
}

#[test]
fn temperature_measurement_distinct_writes_count() {
    let mut cluster = TemperatureMeasurementCluster::new(Dataver::new(7));
    let values: [i16; 5] = [1, 2, 3, 4, 5];
    for v in values {
        assert!(cluster.set_measured_value(v));
    }
    assert_eq!(cluster.data_ver().get(), 12);
}

#[test]
fn temperature_measurement_read_skips_known_version() {
    let mut cluster = TemperatureMeasurementCluster::new(Dataver::new(7));
    cluster.set_measured_value(5);
    let mut sink = AttrSink::new(8);
    let attr = AttrDetails::new(0, Some(8));
    assert_eq!(cluster.read(&attr, AttrDataEncoder::new(&attr, &mut sink)), Ok(()));
    assert_eq!(sink.len(), 0);
    assert_eq!(sink.room(), 8);
}

#[test]
fn temperature_measurement_read_skips_before_it_dispatches() {
    let cluster = TemperatureMeasurementCluster::new(Dataver::new(7));
    let mut sink = AttrSink::new(8);
    let attr = AttrDetails::new(0x99, Some(7));
    assert_eq!(cluster.read(&attr, AttrDataEncoder::new(&attr, &mut sink)), Ok(()));
    assert_eq!(sink.len(), 0);
}

#[test]
fn temperature_measurement_reads_every_declared_attribute() {
    let mut cluster = TemperatureMeasurementCluster::new(Dataver::new(3));
    cluster.set_measured_value(1);
    let declared = declared_ids();
    assert_eq!(declared, vec![0xFFF8, 0xFFF9, 0xFFFB, 0xFFFC, 0xFFFD, 0, 1, 2]);
    for id in declared {
        for last_known in [None, Some(3), Some(4)] {
            let mut sink = AttrSink::new(2);
            let attr = AttrDetails::new(id, last_known);
            let result = cluster.read(&attr, AttrDataEncoder::new(&attr, &mut sink));
            assert_eq!(result, Ok(()));
            assert_eq!(sink.len(), if last_known == Some(4) { 0 } else { 2 });
        }
    }
}

fn declared_ids() -> Vec<u32> {
    cluster().attribute_ids()
}

#[test]
fn temperature_measurement_rejects_undeclared_attributes() {
    let cluster = TemperatureMeasurementCluster::new(Dataver::new(3));
    for id in [3u32, 4, 0x99, 0xFFF7, 0xFFFA, 0xFFFE, 0xFFFF, 0x10000, u32::MAX] {
        for last_known in [None, Some(2)] {
            let mut sink = AttrSink::new(8);
            let attr = AttrDetails::new(id, last_known);
            let result = cluster.read(&attr, AttrDataEncoder::new(&attr, &mut sink));
            assert_eq!(result, Err(Error::UnsupportedAttribute));
            assert_eq!(sink.len(), 0);
            assert_eq!(sink.room(), 8);
        }
    }
}

#[test]
fn temperature_measurement_reads_each_cell() {
    let mut cluster = TemperatureMeasurementCluster::new(Dataver::new(0));
    cluster.set_measured_value(215);
    cluster.set_min_measured_value(-500);
    cluster.set_max_measured_value(1250);
    let mut sink = AttrSink::new(6);
    for id in [0u32, 1, 2] {
        let attr = AttrDetails::new(id, None);
        assert_eq!(cluster.read(&attr, AttrDataEncoder::new(&attr, &mut sink)), Ok(()));
    }
    assert_eq!(
        sink.items(),
        &vec![
            Emitted::Value(AttrValue::I16(215)),
            Emitted::DataVersion(3),
            Emitted::Value(AttrValue::I16(-500)),
            Emitted::DataVersion(3),
            Emitted::Value(AttrValue::I16(1250)),
            Emitted::DataVersion(3),
        ]
    );
    assert_eq!(sink.room(), 0);
}

#[test]
fn temperature_measurement_reads_global_attributes() {
    let cluster = TemperatureMeasurementCluster::new(Dataver::new(9));
    let expected = [
        (0xFFFDu32, AttrValue::U16(1)),
        (0xFFFC, AttrValue::U32(0)),
        (0xFFFB, AttrValue::IdList(vec![0xFFF8, 0xFFF9, 0xFFFB, 0xFFFC, 0xFFFD, 0, 1, 2])),
        (0xFFF9, AttrValue::IdList(vec![])),
        (0xFFF8, AttrValue::IdList(vec![])),
    ];
    for (id, value) in expected {
        let mut sink = AttrSink::new(2);
        let attr = AttrDetails::new(id, Some(8));
        assert_eq!(cluster.read(&attr, AttrDataEncoder::new(&attr, &mut sink)), Ok(()));
        assert_eq!(sink.items(), &vec![Emitted::Value(value), Emitted::DataVersion(9)]);
    }
}

#[test]
fn temperature_measurement_read_is_all_or_nothing() {
    let mut cluster = TemperatureMeasurementCluster::new(Dataver::new(0));
    cluster.set_measured_value(1);
    let mut sink = AttrSink::new(3);
    let attr = AttrDetails::new(0, None);
    assert_eq!(cluster.read(&attr, AttrDataEncoder::new(&attr, &mut sink)), Ok(()));
    assert_eq!(
        cluster.read(&attr, AttrDataEncoder::new(&attr, &mut sink)),
        Err(Error::EncodingFailure)
    );
    assert_eq!(sink.items(), &vec![Emitted::Value(AttrValue::I16(1)), Emitted::DataVersion(1)]);
    assert_eq!(sink.room(), 1);
    let unknown = AttrDetails::new(0x77, None);
    assert_eq!(
        cluster.read(&unknown, AttrDataEncoder::new(&unknown, &mut sink)),
        Err(Error::UnsupportedAttribute)
    );
    assert_eq!(sink.len(), 2);
}

#[test]
fn temperature_measurement_read_goes_by_the_encoder_filter() {
    let cluster = TemperatureMeasurementCluster::new(Dataver::new(5));
    let mut sink = AttrSink::new(4);
    let asked = AttrDetails::new(0, Some(5));
    let other = AttrDetails::new(2, None);
    assert_eq!(cluster.read(&asked, AttrDataEncoder::new(&other, &mut sink)), Ok(()));
    assert_eq!(sink.items(), &vec![Emitted::Value(AttrValue::I16(0)), Emitted::DataVersion(5)]);
}

#[test]
fn temperature_measurement_handler_reads_as_the_cluster_does() {
    let mut cluster = TemperatureMeasurementCluster::new(Dataver::new(5));
    cluster.set_measured_value(33);
    let mut sink = AttrSink::new(4);
    let attr = AttrDetails::new(0, None);
    assert_eq!(Handler::read(&cluster, &attr, AttrDataEncoder::new(&attr, &mut sink)), Ok(()));
    assert_eq!(sink.items(), &vec![Emitted::Value(AttrValue::I16(33)), Emitted::DataVersion(6)]);
    let unknown = AttrDetails::new(3, None);
    assert_eq!(
        Handler::read(&cluster, &unknown, AttrDataEncoder::new(&unknown, &mut sink)),
        Err(Error::UnsupportedAttribute)
    );
}

#[test]
fn temperature_measurement_accepts_no_command() {
    let cluster = TemperatureMeasurementCluster::new(Dataver::new(5));
    for id in [0u32, 1, 2, 3, 0xFFFF, u32::MAX] {
        assert_eq!(
            Handler::invoke(&cluster, &CmdDetails::new(id), &[]),
            Err(Error::UnsupportedCommand)
        );
    }
}

#[test]
fn temperature_measurement_attribute_numbers() {
    assert_eq!(ID, 0x0402);
    let all = [
        (Attributes::MeasuredValue, 0u32),
        (Attributes::MinMeasuredValue, 1),
        (Attributes::MaxMeasuredValue, 2),
    ];
    for (attribute, id) in all {
        assert_eq!(attribute.id(), id);
        assert_eq!(Attributes::from_repr(id), Some(attribute));
        assert_eq!(Attributes::try_from(id), Ok(attribute));
    }
    assert_eq!(Attributes::from_repr(3), None);
    assert_eq!(Attributes::try_from(3), Err(Error::UnsupportedAttribute));
    assert_eq!(Attributes::try_from(0xFFFD), Err(Error::UnsupportedAttribute));
}

#[test]
fn temperature_measurement_metadata() {
    let metadata = cluster();
    assert_eq!(metadata.id, 0x0402);
    assert_eq!(metadata.revision, 1);
    assert_eq!(metadata.feature_map, 0);
    assert_eq!(metadata.attributes.len(), 8);
    assert!(metadata.accepted_commands.is_empty());
    assert!(metadata.generated_commands.is_empty());
    assert!(metadata.has_attribute(2));
    assert!(!metadata.has_attribute(3));
}

#[test]
fn temperature_measurement_clone_is_independent() {
    let mut cluster = TemperatureMeasurementCluster::new(Dataver::new(5));
    cluster.set_measured_value(1);
    let copy = cluster.clone();
    cluster.set_measured_value(2);
    assert_eq!(copy.get_measured_value(), 1);
    assert_eq!(copy.data_ver().get(), 6);
    assert!(copy.data_ver().is_changed());
    assert_eq!(cluster.data_ver().get(), 7);
}

#[test]
fn temperature_measurement_write_at_the_last_version_needs_no_room_if_unchanged() {
    let mut cluster = TemperatureMeasurementCluster::new(Dataver::new(u32::MAX - 1));
    assert!(cluster.set_measured_value(1));
    assert_eq!(cluster.data_ver().get(), u32::MAX);
    assert!(!cluster.set_measured_value(1));
    assert_eq!(cluster.data_ver().get(), u32::MAX);
    let mut sink = AttrSink::new(2);
    let attr = AttrDetails::new(0, Some(u32::MAX - 1));
    assert_eq!(cluster.read(&attr, AttrDataEncoder::new(&attr, &mut sink)), Ok(()));
    assert_eq!(
        sink.items(),
        &vec![Emitted::Value(AttrValue::I16(1)), Emitted::DataVersion(u32::MAX)]
    );
}
