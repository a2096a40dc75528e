use extension_sdk_mongodb::stage_properties::{
    default_map_stage_static_properties, StagePosition, StageProperties, StreamType,
};

#[test]
fn default_properties_three_fields_and_idl_strings() {
    let d = StageProperties::default().to_document();
    assert_eq!(d, StageProperties::transform_stage_default().to_document());
    assert_eq!(d.len(), 3);
    assert_eq!(d.get_str("streamType").unwrap(), "streaming");
    assert_eq!(d.get_str("position").unwrap(), "none");
    assert_eq!(d.get_bool("requiresInputDocSource").unwrap(), true);
}

#[test]
fn source_stage_default_is_streaming_first_requires_input() {
    let d = StageProperties::source_stage_default().to_document();
    assert_eq!(d.get_str("streamType").unwrap(), "streaming");
    assert_eq!(d.get_str("position").unwrap(), "first");
    assert_eq!(d.get_bool("requiresInputDocSource").unwrap(), true);
}

#[test]
fn custom_properties_serialize_three_fields() {
    let p = StageProperties {
        stream_type: StreamType::Blocking,
        position: StagePosition::First,
        requires_input: false,
    };
    let d = p.to_document();
    assert_eq!(d.len(), 3);
    assert_eq!(d.get_str("streamType").unwrap(), "blocking");
    assert_eq!(d.get_str("position").unwrap(), "first");
    assert_eq!(d.get_bool("requiresInputDocSource").unwrap(), false);
}

#[test]
fn last_position_serializes() {
    let p = StageProperties {
        position: StagePosition::Last,
        ..StageProperties::default()
    };
    assert_eq!(p.to_document().get_str("position").unwrap(), "last");
}

#[test]
fn anywhere_maps_to_none_string() {
    assert_eq!(StagePosition::Anywhere.as_idl_str(), "none");
}

#[test]
fn idl_strings_of_every_variant() {
    assert_eq!(StreamType::Streaming.as_idl_str(), "streaming");
    assert_eq!(StreamType::Blocking.as_idl_str(), "blocking");
    assert_eq!(StagePosition::First.as_idl_str(), "first");
    assert_eq!(StagePosition::Last.as_idl_str(), "last");
}

#[test]
fn properties_document_keeps_field_order() {
    let d = default_map_stage_static_properties();
    let keys: Vec<&String> = d.keys().collect();
    assert_eq!(keys, vec!["streamType", "position", "requiresInputDocSource"]);
}
