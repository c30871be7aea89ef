//! What holds of decoding for every document.

use crate::decode::{
    collection_of, coordinate_of, coordinates_of, feature_of, features_of, geometry_of,
    text_member,
};
use crate::error::{shaped, ParseError};
use crate::feature_collection::{deserialized, deserialized_bytes};
use crate::json::{json_document, JsonValue};
use crate::model::FeatureCollectionView;
use vstd::prelude::*;
use vstd::utf8::encode_utf8;

verus! {

/// A coordinate as the export writes it: an array of two numbers.
pub open spec fn is_coordinate(value: JsonValue) -> bool {
    &&& value.items() matches Some(pair)
    &&& pair.len() == 2
    &&& pair[0].number() is Some
    &&& pair[1].number() is Some
}

/// A geometry as the export writes it.
pub open spec fn is_geometry(value: JsonValue) -> bool {
    &&& text_member(value, "type"@) is Some
    &&& value.member("coordinates"@) matches Some(path)
    &&& path.items() matches Some(points)
    &&& forall|j: int| 0 <= j < points.len() ==> is_coordinate(#[trigger] points[j])
}

/// The properties of a feature as the export writes them; members besides
/// the two that are kept may stand among them.
pub open spec fn is_properties(value: JsonValue) -> bool {
    &&& text_member(value, "@id"@) is Some
    &&& text_member(value, "highway"@) is Some
}

/// A feature as the export writes it.
pub open spec fn is_feature(value: JsonValue) -> bool {
    &&& text_member(value, "id"@) is Some
    &&& text_member(value, "type"@) is Some
    &&& value.member("properties"@) matches Some(properties)
    &&& is_properties(properties)
    &&& value.member("geometry"@) matches Some(geometry)
    &&& is_geometry(geometry)
}

/// A feature collection as the export writes it.
pub open spec fn is_collection(value: JsonValue) -> bool {
    &&& text_member(value, "type"@) is Some
    &&& text_member(value, "generator"@) is Some
    &&& text_member(value, "copyright"@) is Some
    &&& text_member(value, "timestamp"@) is Some
    &&& value.member("features"@) matches Some(list)
    &&& list.items() matches Some(items)
    &&& forall|i: int| 0 <= i < items.len() ==> is_feature(#[trigger] items[i])
}

/// A geometry decodes exactly when it is written as the export writes one,
/// and then to its own type and points, point for point.
pub proof fn lemma_geometry_fields(value: JsonValue)
    ensures
        geometry_of(value) is Some <==> is_geometry(value),
        is_geometry(value) ==> {
            let geometry = geometry_of(value)->Some_0;
            let points = value.member("coordinates"@)->Some_0.items()->Some_0;
            &&& geometry.json_type == text_member(value, "type"@)->Some_0
            &&& geometry.coordinates.len() == points.len()
            &&& forall|j: int|
                #![trigger geometry.coordinates[j]]
                0 <= j < points.len() ==> {
                    &&& geometry.coordinates[j].longitude
                        == points[j].items()->Some_0[0].number()->Some_0
                    &&& geometry.coordinates[j].latitude
                        == points[j].items()->Some_0[1].number()->Some_0
                }
        },
{
    if let Some(path) = value.member("coordinates"@) {
        if let Some(points) = path.items() {
            assert forall|j: int| 0 <= j < points.len() implies (coordinate_of(
                #[trigger] points[j],
            ) is Some <==> is_coordinate(points[j])) by {}
            if is_geometry(value) {
                assert forall|j: int| 0 <= j < points.len() implies (#[trigger] coordinate_of(
                    points[j],
                )) is Some by {
                    assert(is_coordinate(points[j]));
                }
            }
            if coordinates_of(path) is Some {
                assert forall|j: int| 0 <= j < points.len() implies is_coordinate(
                    #[trigger] points[j],
                ) by {
                    assert(coordinate_of(points[j]) is Some);
                }
            }
        }
    }
}

/// A feature decodes exactly when it is written as the export writes one,
/// and then each of its fields is the value at its place in the document.
pub proof fn lemma_feature_fields(value: JsonValue)
    ensures
        feature_of(value) is Some <==> is_feature(value),
        is_feature(value) ==> {
            let feature = feature_of(value)->Some_0;
            let properties = value.member("properties"@)->Some_0;
            &&& feature.id == text_member(value, "id"@)->Some_0
            &&& feature.json_type == text_member(value, "type"@)->Some_0
            &&& feature.properties.id == text_member(properties, "@id"@)->Some_0
            &&& feature.properties.highway == text_member(properties, "highway"@)->Some_0
            &&& Some(feature.geometry) == geometry_of(value.member("geometry"@)->Some_0)
        },
{
    if let Some(geometry) = value.member("geometry"@) {
        lemma_geometry_fields(geometry);
    }
}

/// Decoding reads every field from its place and changes none. A document
/// decodes exactly when it is written as the export writes a collection;
/// then the four header fields are the strings under their keys, there are
/// as many features as items under `features`, in the same order, and each
/// is what its item alone decodes to.
pub proof fn lemma_collection_fields(document: JsonValue)
    ensures
        collection_of(document) is Some <==> is_collection(document),
        is_collection(document) ==> {
            let collection = collection_of(document)->Some_0;
            let items = document.member("features"@)->Some_0.items()->Some_0;
            &&& collection.json_type == text_member(document, "type"@)->Some_0
            &&& collection.generator == text_member(document, "generator"@)->Some_0
            &&& collection.copyright == text_member(document, "copyright"@)->Some_0
            &&& collection.timestamp == text_member(document, "timestamp"@)->Some_0
            &&& collection.features.len() == items.len()
            &&& forall|i: int|
                #![trigger collection.features[i]]
                0 <= i < items.len() ==> is_feature(items[i]) && Some(collection.features[i])
                    == feature_of(items[i])
        },
{
    if let Some(list) = document.member("features"@) {
        if let Some(items) = list.items() {
            assert forall|i: int| 0 <= i < items.len() implies (feature_of(
                #[trigger] items[i],
            ) is Some <==> is_feature(items[i])) by {
                lemma_feature_fields(items[i]);
            }
            if is_collection(document) {
                assert forall|i: int| 0 <= i < items.len() implies (#[trigger] feature_of(
                    items[i],
                )) is Some by {
                    assert(is_feature(items[i]));
                }
            }
            if features_of(list) is Some {
                assert forall|i: int| 0 <= i < items.len() implies is_feature(
                    #[trigger] items[i],
                ) by {
                    assert(feature_of(items[i]) is Some);
                }
            }
        }
    }
}

/// A text whose document is written as the export writes a collection
/// deserializes to what that document decodes to; a text with any other
/// document is a shape mismatch, and nothing of it is kept.
pub proof fn lemma_deserialized_by_shape(text: Seq<char>)
    ensures
        json_document(text) matches Some(document) ==> (deserialized(text) is Ok <==> is_collection(
            document,
        )) && (is_collection(document) ==> Some(deserialized(text)->Ok_0) == collection_of(
            document,
        )) && (!is_collection(document) ==> deserialized(text) == Err::<FeatureCollectionView, ParseError>(
            ParseError::ShapeMismatch,
        )),
        json_document(text) is None ==> deserialized(text) == Err::<FeatureCollectionView, ParseError>(
            ParseError::InvalidJson,
        ),
{
    if let Some(document) = json_document(text) {
        lemma_collection_fields(document);
    }
}

/// A document in which the properties of some feature lack `@id` or
/// `highway` decodes to nothing, whatever else it holds.
pub proof fn lemma_missing_property_rejected(document: JsonValue, i: int)
    requires
        document.member("features"@) matches Some(list) && list.items() matches Some(items) && 0
            <= i < items.len() && (items[i].member("properties"@) matches Some(properties)
            ==> properties.member("@id"@) is None || properties.member("highway"@) is None),
    ensures
        collection_of(document) is None,
        shaped(collection_of(document)) == Err::<FeatureCollectionView, ParseError>(ParseError::ShapeMismatch),
{
    let items = document.member("features"@)->Some_0.items()->Some_0;
    assert(feature_of(items[i]) is None);
}

/// The features of a decoded collection are as many as the items under
/// `features` and stand in their order, and so do the points of each
/// geometry.
pub proof fn lemma_order_and_length_kept(document: JsonValue)
    requires
        collection_of(document) is Some,
    ensures
        ({
            let collection = collection_of(document)->Some_0;
            let items = document.member("features"@)->Some_0.items()->Some_0;
            &&& collection.features.len() == items.len()
            &&& forall|i: int|
                #![trigger collection.features[i]]
                0 <= i < items.len() ==> {
                    let points = items[i].member("geometry"@)->Some_0.member(
                        "coordinates"@,
                    )->Some_0.items()->Some_0;
                    &&& Some(collection.features[i]) == feature_of(items[i])
                    &&& collection.features[i].geometry.coordinates.len() == points.len()
                    &&& forall|j: int|
                        #![trigger collection.features[i].geometry.coordinates[j]]
                        0 <= j < points.len() ==> Some(
                            collection.features[i].geometry.coordinates[j],
                        ) == coordinate_of(points[j])
                }
        }),
{
    let items = document.member("features"@)->Some_0.items()->Some_0;
    assert forall|i: int| 0 <= i < items.len() implies feature_of(#[trigger] items[i]) is Some by {}
}

/// The bytes that encode a text in UTF-8 deserialize to what the text
/// deserializes to.
pub proof fn lemma_bytes_agree_with_text(text: Seq<char>)
    ensures
        deserialized_bytes(encode_utf8(text)) == deserialized(text),
{
    vstd::utf8::encode_utf8_valid_utf8(text);
    vstd::utf8::encode_utf8_decode_utf8(text);
}

} // verus!
