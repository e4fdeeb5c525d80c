use std::str::FromStr;

use graphql_parser::schema::ast::DirectiveLocation;

const ALL_LOCATIONS: [DirectiveLocation; 19] = [
    DirectiveLocation::Query,
    DirectiveLocation::Mutation,
    DirectiveLocation::Subscription,
    DirectiveLocation::Field,
    DirectiveLocation::FragmentDefinition,
    DirectiveLocation::FragmentSpread,
    DirectiveLocation::InlineFragment,
    DirectiveLocation::Schema,
    DirectiveLocation::Scalar,
    DirectiveLocation::Object,
    DirectiveLocation::FieldDefinition,
    DirectiveLocation::ArgumentDefinition,
    DirectiveLocation::Interface,
    DirectiveLocation::Union,
    DirectiveLocation::Enum,
    DirectiveLocation::EnumValue,
    DirectiveLocation::InputObject,
    DirectiveLocation::InputFieldDefinition,
    DirectiveLocation::VariableDefinition,
];

#[test]
fn directive_location_round_trip() {
    for loc in ALL_LOCATIONS {
        assert_eq!(DirectiveLocation::from_str(loc.as_str()), Ok(loc));
        assert_eq!(
            DirectiveLocation::from_name(loc.as_str().as_bytes()),
            Some(loc)
        );
    }
    assert!(DirectiveLocation::from_str("NOT_A_LOCATION").is_err());
    assert_eq!(DirectiveLocation::from_name(b"NOT_A_LOCATION"), None);
    assert_eq!(DirectiveLocation::from_name(b"query"), None);
}

#[test]
fn directive_location_spellings() {
    assert_eq!(DirectiveLocation::Query.as_str(), "QUERY");
    assert_eq!(
        DirectiveLocation::InputFieldDefinition.as_str(),
        "INPUT_FIELD_DEFINITION"
    );
    assert_eq!(DirectiveLocation::VariableDefinition.as_str(), "VARIABLE_DEFINITION");
}

#[test]
fn executable_and_type_system_locations_split_the_set() {
    let executable: Vec<DirectiveLocation> = ALL_LOCATIONS
        .iter()
        .copied()
        .filter(|l| l.is_query())
        .collect();
    assert_eq!(executable.len(), 7);
    for loc in ALL_LOCATIONS {
        assert_eq!(loc.is_schema(), !loc.is_query());
    }
    assert!(DirectiveLocation::Field.is_query());
    assert!(DirectiveLocation::FieldDefinition.is_schema());
}
