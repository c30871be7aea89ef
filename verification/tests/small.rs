use synthetic_data::feature_collection::deserialize_json;

#[test]
pub fn small_test() {
    let json = r#"
    {
        "type": "FeatureCollection",
        "generator": "overpass-ide",
        "copyright": "The data included in this document is from www.openstreetmap.org. The data is made available under ODbL.",
        "timestamp": "2022-06-30T15:06:01Z",
        "features": [
        {
            "type": "Feature",
            "properties": {
            "@id": "way/1166",
            "bicycle": "no",
            "highway": "motorway",
            "int_ref": "E 05",
            "lanes": "3",
            "lit": "no",
            "maxheight": "default",
            "maxspeed": "70 mph",
            "maxspeed:type": "GB:motorway",
            "oneway": "yes",
            "operator": "Midland Expressway Ltd",
            "ref": "M6 Toll",
            "toll": "yes"
            },
            "geometry": {
            "type": "LineString",
            "coordinates": [
                [
                -1.7494674,
                52.5582538
                ],
                [
                -1.7476485,
                52.5570226
                ],
                [
                -1.7458686,
                52.5559384
                ],
                [
                -1.7439692,
                52.5549363
                ],
                [
                -1.7422686,
                52.554129
                ],
                [
                -1.7390098,
                52.5526292
                ],
                [
                -1.7389154,
                52.5525873
                ]
            ]
            },
            "id": "way/1166"
        }
        ]
    }
    "#;

    let result = deserialize_json((&json).to_string()).unwrap();
    println!("{:?}", result);

    assert_eq!(7, result.features[0].geometry.coordinates.len());
}
