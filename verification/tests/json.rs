use synthetic_data::decode::{
    decode_coordinate, decode_feature, decode_feature_collection, decode_geometry,
    decode_properties,
};
use synthetic_data::error::ParseError;
use synthetic_data::json::{parse_json, same_text, JsonValue};

fn text(s: &str) -> JsonValue {
    JsonValue::String(s.to_string())
}

fn number(x: f64) -> JsonValue {
    JsonValue::Number(Some(x.to_bits()))
}

fn object(members: Vec<(&str, JsonValue)>) -> JsonValue {
    JsonValue::Object(members.into_iter().map(|(k, v)| (k.to_string(), v)).collect())
}

fn point(longitude: f64, latitude: f64) -> JsonValue {
    JsonValue::Array(vec![number(longitude), number(latitude)])
}

fn show(value: &JsonValue) -> String {
    format!("{:?}", value)
}

#[test]
fn parse_json_builds_the_tree_of_the_text() {
    let parsed = parse_json(r#"{"b": [1, -2, 2.5, "x", null, true, false, {}], "a": {"c": []}}"#)
        .unwrap();
    let expected = object(vec![
        ("a", object(vec![("c", JsonValue::Array(vec![]))])),
        (
            "b",
            JsonValue::Array(vec![
                number(1.0),
                number(-2.0),
                number(2.5),
                text("x"),
                JsonValue::Null,
                JsonValue::Bool(true),
                JsonValue::Bool(false),
                object(vec![]),
            ]),
        ),
    ]);
    assert_eq!(show(&parsed), show(&expected));
}

#[test]
fn parse_json_reads_scalars() {
    assert_eq!(show(&parse_json("null").unwrap()), show(&JsonValue::Null));
    assert_eq!(show(&parse_json(" 12 ").unwrap()), show(&number(12.0)));
    assert_eq!(show(&parse_json("-1.7494674").unwrap()), show(&number(-1.7494674)));
    assert_eq!(show(&parse_json(r#""a\tb""#).unwrap()), show(&text("a\tb")));
    match parse_json("52.5582538").unwrap() {
        JsonValue::Number(Some(bits)) => assert_eq!(bits, 52.5582538f64.to_bits()),
        other => panic!("{:?}", other),
    }
}

#[test]
fn parse_json_rejects_what_is_not_json() {
    for bad in ["", " ", "{", "[1,]", "tru", "1 2", "{\"a\" 1}", "'a'", "\"open"] {
        assert_eq!(parse_json(bad).unwrap_err(), ParseError::InvalidJson, "{}", bad);
    }
}

#[test]
fn parse_json_keeps_one_member_for_each_key() {
    match parse_json(r#"{"k": 1, "k": 2}"#).unwrap() {
        JsonValue::Object(members) => {
            assert_eq!(members.len(), 1);
            assert_eq!(members[0].0, "k");
        }
        other => panic!("{:?}", other),
    }
}

#[test]
fn same_text_compares_character_for_character() {
    assert!(same_text("", ""));
    assert!(same_text("@id", "@id"));
    assert!(same_text("日本", "日本"));
    assert!(!same_text("id", "@id"));
    assert!(!same_text("type", "typo"));
    assert!(!same_text("type", "types"));
    assert!(!same_text("", "a"));
    assert!(!same_text("é", "e"));
}

#[test]
fn get_finds_the_first_member_with_the_key() {
    let value = object(vec![("a", number(1.0)), ("b", text("x")), ("a", number(2.0))]);
    assert_eq!(show(value.get("a").unwrap()), show(&number(1.0)));
    assert_eq!(show(value.get("b").unwrap()), show(&text("x")));
    assert!(value.get("c").is_none());
    assert!(value.get("").is_none());
    assert!(JsonValue::Array(vec![text("a")]).get("a").is_none());
    assert!(text("a").get("a").is_none());
    assert!(JsonValue::Null.get("a").is_none());
}

#[test]
fn decode_coordinate_takes_a_pair_of_numbers() {
    let c = decode_coordinate(&point(-1.7494674, 52.5582538)).unwrap();
    assert_eq!(f64::from_bits(c.longitude), -1.7494674);
    assert_eq!(f64::from_bits(c.latitude), 52.5582538);
    let c = decode_coordinate(&JsonValue::Array(vec![
        JsonValue::Number(Some(7)),
        JsonValue::Number(Some(9)),
    ]))
    .unwrap();
    assert_eq!((c.longitude, c.latitude), (7, 9));
    for bad in [
        JsonValue::Array(vec![]),
        JsonValue::Array(vec![number(1.0)]),
        JsonValue::Array(vec![number(1.0), number(2.0), number(3.0)]),
        JsonValue::Array(vec![number(1.0), text("2")]),
        JsonValue::Array(vec![JsonValue::Null, number(2.0)]),
        JsonValue::Array(vec![number(1.0), JsonValue::Number(None)]),
        object(vec![("longitude", number(1.0)), ("latitude", number(2.0))]),
        number(1.0),
        JsonValue::Null,
    ] {
        assert_eq!(decode_coordinate(&bad).unwrap_err(), ParseError::ShapeMismatch, "{:?}", bad);
    }
}

#[test]
fn decode_geometry_reads_type_and_path() {
    let value = object(vec![
        ("coordinates", JsonValue::Array(vec![point(1.0, 2.0), point(3.0, 4.0)])),
        ("type", text("LineString")),
    ]);
    let g = decode_geometry(&value).unwrap();
    assert_eq!(g.json_type, "LineString");
    assert_eq!(g.coordinates.len(), 2);
    assert_eq!(g.coordinates[1].longitude, 3.0f64.to_bits());
    assert_eq!(g.coordinates[1].latitude, 4.0f64.to_bits());
    let bad = object(vec![
        ("type", text("LineString")),
        ("coordinates", JsonValue::Array(vec![point(1.0, 2.0), number(3.0)])),
    ]);
    assert_eq!(decode_geometry(&bad).unwrap_err(), ParseError::ShapeMismatch);
    assert_eq!(decode_geometry(&JsonValue::Null).unwrap_err(), ParseError::ShapeMismatch);
}

#[test]
fn decode_properties_reads_the_two_that_are_kept() {
    let value = object(vec![("bicycle", text("no")), ("highway", text("motorway")), ("@id", text("way/1"))]);
    let p = decode_properties(&value).unwrap();
    assert_eq!(p.id, "way/1");
    assert_eq!(p.highway, "motorway");
    let no_prefix = object(vec![("id", text("way/1")), ("highway", text("motorway"))]);
    assert_eq!(decode_properties(&no_prefix).unwrap_err(), ParseError::ShapeMismatch);
}

#[test]
fn decode_feature_reads_each_part() {
    let value = object(vec![
        ("type", text("Feature")),
        ("properties", object(vec![("@id", text("p")), ("highway", text("h"))])),
        ("geometry", object(vec![("type", text("G")), ("coordinates", JsonValue::Array(vec![]))])),
        ("id", text("f")),
    ]);
    let f = decode_feature(&value).unwrap();
    assert_eq!(f.id, "f");
    assert_eq!(f.json_type, "Feature");
    assert_eq!(f.properties.id, "p");
    assert_eq!(f.properties.highway, "h");
    assert_eq!(f.geometry.json_type, "G");
    assert!(f.geometry.coordinates.is_empty());
}

#[test]
fn decode_feature_collection_agrees_with_deserializing() {
    let text_form = r#"{"type":"FC","generator":"g","copyright":"c","timestamp":"t",
        "features":[{"id":"f","type":"Feature","properties":{"@id":"p","highway":"h"},
        "geometry":{"type":"G","coordinates":[[1.5,-2]]}}]}"#;
    let built = object(vec![
        ("type", text("FC")),
        ("generator", text("g")),
        ("copyright", text("c")),
        ("timestamp", text("t")),
        (
            "features",
            JsonValue::Array(vec![object(vec![
                ("id", text("f")),
                ("type", text("Feature")),
                ("properties", object(vec![("@id", text("p")), ("highway", text("h"))])),
                (
                    "geometry",
                    object(vec![
                        ("type", text("G")),
                        ("coordinates", JsonValue::Array(vec![point(1.5, -2.0)])),
                    ]),
                ),
            ])]),
        ),
    ]);
    let from_tree = decode_feature_collection(&built).unwrap();
    let from_text =
        synthetic_data::feature_collection::deserialize_json(text_form.to_string()).unwrap();
    assert_eq!(format!("{:?}", from_tree), format!("{:?}", from_text));
    assert_eq!(from_tree.features[0].geometry.coordinates[0].longitude, 1.5f64.to_bits());
    assert_eq!(from_tree.features[0].geometry.coordinates[0].latitude, (-2.0f64).to_bits());
    assert_eq!(
        decode_feature_collection(&parse_json(text_form).unwrap()).unwrap().features.len(),
        1
    );
}

#[test]
fn decode_feature_collection_rejects_other_shapes() {
    for bad in [JsonValue::Null, JsonValue::Array(vec![]), object(vec![]), text("x")] {
        assert_eq!(
            decode_feature_collection(&bad).unwrap_err(),
            ParseError::ShapeMismatch,
            "{:?}",
            bad
        );
    }
}
