use npmi::decode::DecodingError;

#[test]
fn missing_field_carries_its_field_name() {
    match DecodingError::missing_field("name") {
        DecodingError::MissingField { field } => assert_eq!(field, "name"),
        other => panic!("wrong variant: {:?}", other),
    }
}

#[test]
fn unexpected_field_carries_its_field_name() {
    match DecodingError::unexpected_field("stray".to_string()) {
        DecodingError::UnexpectedField { field } => assert_eq!(field, "stray"),
        other => panic!("wrong variant: {:?}", other),
    }
}

#[test]
fn unexpected_object_carries_both_names() {
    match DecodingError::unexpected_object("dictionary", "list") {
        DecodingError::UnexpectedObject { expected_object, actual_object } => {
            assert_eq!(expected_object, "dictionary");
            assert_eq!(actual_object, "list");
        }
        other => panic!("wrong variant: {:?}", other),
    }
}
