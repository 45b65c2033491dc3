use enum_companion::artifact::{enum_companion_derive, GeneratedArtifact};
use enum_companion::companion::EnumCompanionTrait;
use enum_companion::record::Record;
use enum_companion::schema::{CompanionConfig, Declaration, DeclarationBody, FieldSpec};
use enum_companion::types::TypeExpr;
use enum_companion::variant::{FieldVariant, ValueVariant};

/// The values that the records of these tests hold.
#[derive(Clone, Debug, PartialEq)]
enum Datum {
    Text(String),
    Str(&'static str),
    U32(u32),
    U64(u64),
    U8Opt(Option<u8>),
    Bool(bool),
}

fn names(list: &[&str]) -> Vec<String> {
    list.iter().map(|s| s.to_string()).collect()
}

fn deriving(field: &[&str], value: &[&str]) -> CompanionConfig {
    let mut config = CompanionConfig::default();
    config.field_enum_derive_list = names(field);
    config.value_enum_derive_list = names(value);
    config
}

/// The case of the field enumeration that bears `label`.
fn case(artifact: &GeneratedArtifact, label: &str) -> FieldVariant {
    let position = artifact.variants.iter().position(|v| v.label == label);
    let field = FieldVariant { ordinal: position.expect("no such case") };
    assert_eq!(artifact.label(field), label);
    field
}

fn tagged(artifact: &GeneratedArtifact, label: &str, payload: Datum) -> ValueVariant<Datum> {
    ValueVariant { field: case(artifact, label), payload }
}

#[test]
fn test_simple_enum_companion() {
    let declaration = Declaration::record(
        "Example",
        vec![
            FieldSpec::new("id", TypeExpr::named("u32")),
            FieldSpec::new("name", TypeExpr::named("String")),
        ],
    );
    let artifact = enum_companion_derive(declaration, deriving(&[], &["Debug", "PartialEq"]));
    artifact.expect("a record with named fields");
}

#[test]
fn test_enum_companion() {
    let declaration = Declaration::record(
        "Test",
        vec![
            FieldSpec::new("name", TypeExpr::named("String")),
            FieldSpec::new("distance", TypeExpr::named("u32")),
        ],
    );
    let config = deriving(&["PartialEq", "Debug"], &["Debug", "PartialEq"]);
    let artifact = enum_companion_derive(declaration, config).unwrap();

    let test = Record::new(&artifact, vec![Datum::Text("Test".to_string()), Datum::U32(42)]).unwrap();
    assert_eq!(
        test.value(case(&artifact, "Name")),
        tagged(&artifact, "Name", Datum::Text("Test".to_string()))
    );
    assert_eq!(test.fields(), [case(&artifact, "Name"), case(&artifact, "Distance")]);
}

#[test]
fn test_with_lifetime() {
    let declaration = Declaration::record(
        "TestLifetime",
        vec![
            FieldSpec::new("name", TypeExpr::new("& 'a str", vec![], vec![TypeExpr::named("str")])),
            FieldSpec::new("distance", TypeExpr::named("u32")),
        ],
    );
    let config = deriving(&["PartialEq", "Debug"], &["Debug", "PartialEq"]);
    let artifact = enum_companion_derive(declaration, config).unwrap();

    let test = Record::new(&artifact, vec![Datum::Str("Test"), Datum::U32(42)]).unwrap();
    assert_eq!(
        test.value(case(&artifact, "Name")),
        tagged(&artifact, "Name", Datum::Str("Test"))
    );
    assert_eq!(test.fields(), [case(&artifact, "Name"), case(&artifact, "Distance")]);
}

#[test]
fn test_with_generic() {
    let mut declaration = Declaration::record(
        "TestGeneric",
        vec![
            FieldSpec::new("name", TypeExpr::named("String")),
            FieldSpec::new("data", TypeExpr::named("T")),
        ],
    );
    declaration.generic_parameters = names(&["T"]);
    let config = deriving(&["PartialEq", "Debug"], &["Debug", "PartialEq"]);
    let artifact = enum_companion_derive(declaration, config).unwrap();

    let test = Record::new(&artifact, vec![Datum::Text("Test".to_string()), Datum::U32(42u32)]).unwrap();
    assert_eq!(
        test.value(case(&artifact, "Data")),
        tagged(&artifact, "Data", Datum::U32(42u32))
    );

    let test2 = Record::new(
        &artifact,
        vec![Datum::Text("Test2".to_string()), Datum::Text("hello".to_string())],
    )
    .unwrap();
    assert_eq!(
        test2.value(case(&artifact, "Data")),
        tagged(&artifact, "Data", Datum::Text("hello".to_string()))
    );
    assert_eq!(test2.fields(), [case(&artifact, "Name"), case(&artifact, "Data")]);
}

#[test]
fn test_visibility() {
    let mut declaration = Declaration::record(
        "TestVisibility",
        vec![FieldSpec::new("name", TypeExpr::named("String"))],
    );
    declaration.visibility = "pub(super)".to_string();
    let config = deriving(&["PartialEq", "Debug"], &["Debug", "PartialEq"]);
    let artifact = enum_companion_derive(declaration, config).unwrap();
    assert_eq!(artifact.schema.visibility, "pub(super)");

    let test = Record::new(&artifact, vec![Datum::Text("Test".to_string())]).unwrap();
    assert_eq!(
        test.value(case(&artifact, "Name")),
        tagged(&artifact, "Name", Datum::Text("Test".to_string()))
    );
    assert_eq!(test.fields(), &[case(&artifact, "Name")]);
}

#[test]
fn test_from_str() {
    let declaration = Declaration::record(
        "Test",
        vec![
            FieldSpec::new("field_one", TypeExpr::named("String")),
            FieldSpec::new("field_two", TypeExpr::named("u32")).renamed("Field2"),
        ],
    );
    let artifact = enum_companion_derive(declaration, deriving(&["PartialEq", "Debug"], &[])).unwrap();

    assert_eq!(artifact.resolve("field_one"), Ok(case(&artifact, "FieldOne")));
    assert_eq!(artifact.resolve("FieldOne"), Ok(case(&artifact, "FieldOne")));
    assert_eq!(artifact.resolve("field_two"), Ok(case(&artifact, "Field2")));
    assert_eq!(artifact.resolve("Field2"), Ok(case(&artifact, "Field2")));
    assert!(artifact.resolve("field_three").is_err());
}

/// A record of `test_trait`, bound to the capability interface.
struct Bound<'a> {
    record: Record<'a, Datum>,
}

impl<'a> EnumCompanionTrait<FieldVariant, ValueVariant<Datum>> for Bound<'a> {
    fn value(&self, field: FieldVariant) -> ValueVariant<Datum> {
        self.record.value(field)
    }

    fn update(&mut self, value: ValueVariant<Datum>) {
        self.record.update(value)
    }

    fn fields() -> &'static [FieldVariant] {
        &[FieldVariant { ordinal: 0 }, FieldVariant { ordinal: 1 }]
    }

    fn as_values(&self) -> Vec<ValueVariant<Datum>> {
        self.record.as_values()
    }
}

#[test]
fn test_trait() {
    let declaration = Declaration::record(
        "Test",
        vec![
            FieldSpec::new("name", TypeExpr::named("String")),
            FieldSpec::new("distance", TypeExpr::named("u32")),
        ],
    );
    let config = deriving(&["PartialEq", "Debug"], &["Debug", "PartialEq"]);
    let artifact = enum_companion_derive(declaration, config).unwrap();
    assert!(artifact.binds_capability);

    let record = Record::new(&artifact, vec![Datum::Text("Test".to_string()), Datum::U32(42)]).unwrap();
    let mut test = Bound { record };

    assert_eq!(
        test.value(case(&artifact, "Name")),
        tagged(&artifact, "Name", Datum::Text("Test".to_string()))
    );
    test.update(tagged(&artifact, "Distance", Datum::U32(100)));
    assert_eq!(test.record.values[1], Datum::U32(100));
    assert_eq!(Bound::fields(), &[case(&artifact, "Name"), case(&artifact, "Distance")]);
    assert_eq!(Bound::fields(), test.record.fields());
    assert_eq!(
        test.as_values(),
        vec![
            tagged(&artifact, "Name", Datum::Text("Test".to_string())),
            tagged(&artifact, "Distance", Datum::U32(100))
        ]
    );
}

#[test]
fn test_with_serde() {
    let declaration = Declaration {
        name: "UserProfile".to_string(),
        visibility: String::new(),
        generic_parameters: vec![],
        body: DeclarationBody::NamedFields(vec![
            FieldSpec::new("id", TypeExpr::named("u64")).renamed("UserId"),
            FieldSpec::new("username", TypeExpr::named("String")).renamed("DisplayName"),
            FieldSpec::new("email", TypeExpr::named("String")),
            FieldSpec::new("password_hash", TypeExpr::named("String")).skipped(),
            FieldSpec::new(
                "age",
                TypeExpr::new("Option < u8 >", names(&["Option"]), vec![TypeExpr::named("u8")]),
            ),
            FieldSpec::new("is_verified", TypeExpr::named("bool")),
        ]),
    };
    let config = CompanionConfig {
        value_fn_name: "get_field".to_string(),
        update_fn_name: "set_field".to_string(),
        fields_fn_name: "get_all_fields".to_string(),
        field_enum_derive_list: names(&["Hash", "Eq", "PartialEq", "Debug", "Serialize", "Deserialize"]),
        value_enum_derive_list: names(&["Serialize", "Deserialize", "Debug", "PartialEq"]),
        field_enum_attr: Some("rename_all = \"camelCase\"".to_string()),
        value_enum_attr: Some(
            "rename_all = \"camelCase\", tag = \"type\", content = \"value\"".to_string(),
        ),
    };
    let artifact = enum_companion_derive(declaration, config).unwrap();

    // The operations bear the configured names, so the record is not bound
    // to the capability interface.
    assert_eq!(artifact.config.value_fn_name, "get_field");
    assert_eq!(artifact.config.update_fn_name, "set_field");
    assert_eq!(artifact.config.fields_fn_name, "get_all_fields");
    assert!(!artifact.binds_capability);

    let mut profile = Record::new(
        &artifact,
        vec![
            Datum::U64(12345),
            Datum::Text("alice_dev".to_string()),
            Datum::Text("alice@example.com".to_string()),
            Datum::Text("secret_hash".to_string()),
            Datum::U8Opt(Some(28)),
            Datum::Bool(true),
        ],
    )
    .unwrap();

    let user_id = profile.value(case(&artifact, "UserId"));
    assert_eq!(user_id, tagged(&artifact, "UserId", Datum::U64(12345)));

    profile.update(tagged(&artifact, "DisplayName", Datum::Text("alice_developer".to_string())));
    assert_eq!(profile.values[1], Datum::Text("alice_developer".to_string()));

    // The skipped field is in neither enumeration.
    let fields = profile.fields();
    assert_eq!(
        fields,
        &[
            case(&artifact, "UserId"),
            case(&artifact, "DisplayName"),
            case(&artifact, "Email"),
            case(&artifact, "Age"),
            case(&artifact, "IsVerified")
        ]
    );
    assert_eq!(profile.values[3], Datum::Text("secret_hash".to_string()));

    profile.update(tagged(&artifact, "Age", Datum::U8Opt(None)));
    assert_eq!(profile.values[4], Datum::U8Opt(None));

    // The attributes reach the enumerations as they were given.
    assert_eq!(artifact.field_enum.attribute.as_deref(), Some("rename_all = \"camelCase\""));
    assert_eq!(
        artifact.value_enum.attribute.as_deref(),
        Some("rename_all = \"camelCase\", tag = \"type\", content = \"value\"")
    );
    assert_eq!(
        artifact.value_enum.derives,
        ["Clone", "Serialize", "Deserialize", "Debug", "PartialEq"]
    );
    let all_values = profile.as_values();
    assert_eq!(all_values.len(), 5);
    assert_eq!(all_values[0], tagged(&artifact, "UserId", Datum::U64(12345)));
}

#[test]
fn test_try_from() {
    let declaration = Declaration::record(
        "Test",
        vec![
            FieldSpec::new("name", TypeExpr::named("String")),
            FieldSpec::new("distance", TypeExpr::named("u32")),
            FieldSpec::new("speed", TypeExpr::named("u32")),
        ],
    );
    let config = deriving(&["PartialEq", "Debug"], &["Debug", "PartialEq"]);
    let artifact = enum_companion_derive(declaration, config).unwrap();
    let into_string = artifact.conversion_for(&TypeExpr::named("String")).unwrap();
    let into_u32 = artifact.conversion_for(&TypeExpr::named("u32")).unwrap();

    let test = Record::new(
        &artifact,
        vec![Datum::Text("Test".to_string()), Datum::U32(42), Datum::U32(100)],
    )
    .unwrap();

    // Test successful conversion
    let name_value = test.value(case(&artifact, "Name"));
    let name = into_string.try_into_raw(name_value.clone()).unwrap();
    assert_eq!(name, Datum::Text("Test".to_string()));

    let distance_value = test.value(case(&artifact, "Distance"));
    let distance = into_u32.try_into_raw(distance_value.clone()).unwrap();
    assert_eq!(distance, Datum::U32(42));

    let speed_value = test.value(case(&artifact, "Speed"));
    let speed = into_u32.try_into_raw(speed_value.clone()).unwrap();
    assert_eq!(speed, Datum::U32(100));

    // Test failed conversion
    let name_value_fail = test.value(case(&artifact, "Name"));
    let name_res = into_u32.try_into_raw(name_value_fail);
    assert!(name_res.is_err());
}

#[test]
fn test_try_from_tuple() {
    let declaration = Declaration::record(
        "Test",
        vec![
            FieldSpec::new("name", TypeExpr::named("String")),
            FieldSpec::new("distance", TypeExpr::named("u32")),
        ],
    );
    let config = deriving(&["PartialEq", "Debug"], &["Debug", "PartialEq"]);
    let artifact = enum_companion_derive(declaration, config).unwrap();
    let from_string = artifact.conversion_for(&TypeExpr::named("String")).unwrap();
    let from_u32 = artifact.conversion_for(&TypeExpr::named("u32")).unwrap();

    // Test successful conversion
    let name_value = from_string
        .try_from_raw(case(&artifact, "Name"), Datum::Text("Test".to_string()))
        .unwrap();
    assert_eq!(name_value, tagged(&artifact, "Name", Datum::Text("Test".to_string())));

    let distance_value = from_u32.try_from_raw(case(&artifact, "Distance"), Datum::U32(42u32)).unwrap();
    assert_eq!(distance_value, tagged(&artifact, "Distance", Datum::U32(42)));

    // Test failed conversion
    let name_res = from_u32.try_from_raw(case(&artifact, "Name"), Datum::U32(42u32));
    assert!(name_res.is_err());
    assert_eq!(name_res.unwrap_err(), case(&artifact, "Name"));
}
