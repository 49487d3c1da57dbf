use matter_data_model::data_model::objects::{
    cluster_attrs, Access, AttrDataWriter, AttrDetails, AttrSink, AttrValue, Attribute, Cluster,
    CmdDetails, Emitted, GlobalElements, Quality,
};
use matter_data_model::error::Error;

fn sample() -> Cluster {
    Cluster {
        id: 0x1234,
        revision: 3,
        feature_map: 0x5,
        attributes: cluster_attrs(vec![
            Attribute::new(0x10, Access::RV, Quality::NONE),
            Attribute::new(0x11, Access::RWVM, Quality::X),
        ]),
        accepted_commands: vec![0x1, 0x7],
        generated_commands: vec![0x2],
    }
}

#[test]
fn global_elements_round_trip() {
    let all = [
        (GlobalElements::GeneratedCmdList, 0xFFF8u32),
        (GlobalElements::AcceptedCmdList, 0xFFF9),
        (GlobalElements::AttributeList, 0xFFFB),
        (GlobalElements::FeatureMap, 0xFFFC),
        (GlobalElements::ClusterRevision, 0xFFFD),
    ];
    for (global, id) in all {
        assert_eq!(global.id(), id);
        assert_eq!(GlobalElements::from_repr(id), Some(global));
    }
}

#[test]
fn numbers_around_the_global_range_are_not_global() {
    for id in [0u32, 1, 0xFFF7, 0xFFFA, 0xFFFE, 0xFFFF, 0x1FFFD, u32::MAX] {
        assert_eq!(GlobalElements::from_repr(id), None);
        assert!(!Attribute::is_system_attr(id));
        assert!(!AttrDetails::new(id, None).is_system());
    }
    for id in [0xFFF8u32, 0xFFF9, 0xFFFB, 0xFFFC, 0xFFFD] {
        assert!(Attribute::is_system_attr(id));
        assert!(AttrDetails::new(id, Some(1)).is_system());
    }
}

#[test]
fn details_keep_what_they_are_given() {
    let attr = AttrDetails::new(0x12, Some(9));
    assert_eq!(attr.attr_id, 0x12);
    assert_eq!(attr.dataver, Some(9));
    let cmd = CmdDetails::new(0x3);
    assert_eq!(cmd.cmd_id, 0x3);
    let attribute = Attribute::new(0x4, Access::RWVA, Quality::F);
    assert_eq!(attribute, Attribute { id: 0x4, access: Access::RWVA, quality: Quality::F });
}

#[test]
fn cluster_attrs_puts_the_global_attributes_first() {
    let list = cluster_attrs(vec![Attribute::new(0x10, Access::RV, Quality::F)]);
    let ids: Vec<u32> = list.iter().map(|a| a.id).collect();
    assert_eq!(ids, vec![0xFFF8, 0xFFF9, 0xFFFB, 0xFFFC, 0xFFFD, 0x10]);
    assert_eq!(list[5], Attribute { id: 0x10, access: Access::RV, quality: Quality::F });
    for global in &list[..5] {
        assert_eq!(global.access, Access::RV);
        assert_eq!(global.quality, Quality::NONE);
    }
    assert_eq!(cluster_attrs(Vec::new()).len(), 5);
}

#[test]
fn attribute_ids_follow_the_attribute_list() {
    assert_eq!(
        sample().attribute_ids(),
        vec![0xFFF8, 0xFFF9, 0xFFFB, 0xFFFC, 0xFFFD, 0x10, 0x11]
    );
}

#[test]
fn has_attribute_and_accepts_command() {
    let cluster = sample();
    assert!(cluster.has_attribute(0x10));
    assert!(cluster.has_attribute(0x11));
    assert!(cluster.has_attribute(0xFFFD));
    assert!(!cluster.has_attribute(0x12));
    assert!(!cluster.has_attribute(0xFFFA));
    assert!(cluster.accepts_command(0x1));
    assert!(cluster.accepts_command(0x7));
    assert!(!cluster.accepts_command(0x2));
    assert!(!cluster.accepts_command(0x0));
}

#[test]
fn global_values_come_from_the_metadata() {
    let cluster = sample();
    assert_eq!(cluster.global(GlobalElements::ClusterRevision), AttrValue::U16(3));
    assert_eq!(cluster.global(GlobalElements::FeatureMap), AttrValue::U32(0x5));
    assert_eq!(
        cluster.global(GlobalElements::AttributeList),
        AttrValue::IdList(vec![0xFFF8, 0xFFF9, 0xFFFB, 0xFFFC, 0xFFFD, 0x10, 0x11])
    );
    assert_eq!(cluster.global(GlobalElements::AcceptedCmdList), AttrValue::IdList(vec![0x1, 0x7]));
    assert_eq!(cluster.global(GlobalElements::GeneratedCmdList), AttrValue::IdList(vec![0x2]));
}

#[test]
fn metadata_read_answers_global_attributes() {
    let cluster = sample();
    let mut sink = AttrSink::new(4);
    let writer = AttrDataWriter { dataver: 8, sink: &mut sink };
    assert_eq!(cluster.read(0xFFFC, writer), Ok(()));
    assert_eq!(sink.items(), &vec![Emitted::Value(AttrValue::U32(0x5)), Emitted::DataVersion(8)]);
}

#[test]
fn metadata_read_knows_no_other_attribute() {
    let cluster = sample();
    let mut sink = AttrSink::new(4);
    let writer = AttrDataWriter { dataver: 8, sink: &mut sink };
    assert_eq!(cluster.read(0x10, writer), Err(Error::UnsupportedAttribute));
    assert_eq!(sink.len(), 0);
    assert_eq!(sink.room(), 4);
}

#[test]
fn metadata_read_needs_room() {
    let cluster = sample();
    let mut sink = AttrSink::new(1);
    let writer = AttrDataWriter { dataver: 8, sink: &mut sink };
    assert_eq!(cluster.read(0xFFFD, writer), Err(Error::EncodingFailure));
    assert_eq!(sink.len(), 0);
    assert_eq!(sink.room(), 1);
}

#[test]
fn unhandled_tells_unsupported_from_inconsistent() {
    let cluster = sample();
    assert_eq!(cluster.unhandled(0x1), Error::InternalInconsistency);
    assert_eq!(cluster.unhandled(0x7), Error::InternalInconsistency);
    assert_eq!(cluster.unhandled(0x2), Error::UnsupportedCommand);
    assert_eq!(cluster.unhandled(u32::MAX), Error::UnsupportedCommand);
}

#[test]
fn metadata_clone_is_equal() {
    let cluster = sample();
    let copy = cluster.clone();
    assert_eq!(copy, cluster);
    assert_eq!(copy.attribute_ids(), cluster.attribute_ids());
}

#[test]
fn values_clone_equal() {
    let mut names: [&'static str; 32] = [""; 32];
    names[2] = "roast";
    let values = vec![
        AttrValue::U8(1),
        AttrValue::U16(2),
        AttrValue::U32(3),
        AttrValue::I16(-4),
        AttrValue::U8Array8([5; 8]),
        AttrValue::U8Array32([6; 32]),
        AttrValue::StrArray32(names),
        AttrValue::IdList(vec![7, 8, 9]),
        AttrValue::IdList(vec![]),
    ];
    for value in values {
        assert_eq!(value.clone(), value);
        let piece = Emitted::Value(value);
        assert_eq!(piece.clone(), piece);
    }
    assert_eq!(Emitted::DataVersion(10).clone(), Emitted::DataVersion(10));
    assert_ne!(Emitted::DataVersion(10), Emitted::Value(AttrValue::U32(10)));
    assert_ne!(AttrValue::U8Array8([0; 8]), AttrValue::IdList(vec![0; 8]));
}
