//! The mapping of a JSON document onto the records of a feature collection.
//!
//! Each record has a spec function that says which values decode to it and
//! to what, and an executable decoder that computes exactly that. Members
//! that the records do not model are passed over.

use crate::error::{shaped, ParseError};
use crate::json::JsonValue;
use crate::model::{
    Coordinate, Feature, FeatureCollection, FeatureCollectionView, FeatureProperty,
    FeaturePropertyView, FeatureView, Geometry, GeometryView,
};
use vstd::prelude::*;

verus! {

/// The text that an object holds under `key`, where it holds a string there.
pub open spec fn text_member(value: JsonValue, key: Seq<char>) -> Option<Seq<char>> {
    match value.member(key) {
        Some(found) => found.text(),
        None => None,
    }
}

/// A coordinate is an array of exactly two numbers, longitude first.
pub open spec fn coordinate_of(value: JsonValue) -> Option<Coordinate> {
    match value.items() {
        Some(items) => if items.len() == 2 {
            match (items[0].number(), items[1].number()) {
                (Some(longitude), Some(latitude)) => Some(Coordinate { longitude, latitude }),
                _ => None,
            }
        } else {
            None
        },
        None => None,
    }
}

/// A path is an array of coordinates; one item that is no coordinate
/// spoils the whole.
pub open spec fn coordinates_of(value: JsonValue) -> Option<Seq<Coordinate>> {
    match value.items() {
        Some(items) => if forall|i: int|
            0 <= i < items.len() ==> (#[trigger] coordinate_of(items[i])) is Some {
            Some(Seq::new(items.len(), |i: int| coordinate_of(items[i])->Some_0))
        } else {
            None
        },
        None => None,
    }
}

/// A geometry is an object with a string under `type` and a path under
/// `coordinates`.
pub open spec fn geometry_of(value: JsonValue) -> Option<GeometryView> {
    match (text_member(value, "type"@), value.member("coordinates"@)) {
        (Some(json_type), Some(path)) => match coordinates_of(path) {
            Some(coordinates) => Some(GeometryView { json_type, coordinates }),
            None => None,
        },
        _ => None,
    }
}

/// The properties are an object with strings under `@id` and `highway`.
pub open spec fn properties_of(value: JsonValue) -> Option<FeaturePropertyView> {
    match (text_member(value, "@id"@), text_member(value, "highway"@)) {
        (Some(id), Some(highway)) => Some(FeaturePropertyView { id, highway }),
        _ => None,
    }
}

/// A feature is an object with strings under `id` and `type`, properties
/// under `properties` and a geometry under `geometry`.
pub open spec fn feature_of(value: JsonValue) -> Option<FeatureView> {
    match (
        text_member(value, "id"@),
        text_member(value, "type"@),
        value.member("properties"@),
        value.member("geometry"@),
    ) {
        (Some(id), Some(json_type), Some(p), Some(g)) => {
            match (properties_of(p), geometry_of(g)) {
                (Some(properties), Some(geometry)) => Some(
                    FeatureView { id, json_type, properties, geometry },
                ),
                _ => None,
            }
        },
        _ => None,
    }
}

/// An array of features; one item that is no feature spoils the whole.
pub open spec fn features_of(value: JsonValue) -> Option<Seq<FeatureView>> {
    match value.items() {
        Some(items) => if forall|i: int|
            0 <= i < items.len() ==> (#[trigger] feature_of(items[i])) is Some {
            Some(Seq::new(items.len(), |i: int| feature_of(items[i])->Some_0))
        } else {
            None
        },
        None => None,
    }
}

/// A feature collection is an object with strings under `type`,
/// `generator`, `copyright` and `timestamp`, and features under `features`.
pub open spec fn collection_of(value: JsonValue) -> Option<FeatureCollectionView> {
    match (
        text_member(value, "type"@),
        text_member(value, "generator"@),
        text_member(value, "copyright"@),
        text_member(value, "timestamp"@),
        value.member("features"@),
    ) {
        (Some(json_type), Some(generator), Some(copyright), Some(timestamp), Some(list)) => {
            match features_of(list) {
                Some(features) => Some(
                    FeatureCollectionView { json_type, generator, copyright, timestamp, features },
                ),
                None => None,
            }
        },
        _ => None,
    }
}

/// The string that `value` holds under `key`.
fn decode_text(value: &JsonValue, key: &str) -> (res: Result<String, ParseError>)
    ensures
        match res {
            Ok(text) => text_member(*value, key@) == Some(text@),
            Err(e) => text_member(*value, key@) is None && e == ParseError::ShapeMismatch,
        },
{
    match value.get(key) {
        Some(JsonValue::String(text)) => Ok(text.clone()),
        _ => Err(ParseError::ShapeMismatch),
    }
}

/// Decodes one coordinate.
pub fn decode_coordinate(value: &JsonValue) -> (res: Result<Coordinate, ParseError>)
    ensures
        res == shaped(coordinate_of(*value)),
{
    match value {
        JsonValue::Array(items) => {
            if items.len() != 2 {
                return Err(ParseError::ShapeMismatch);
            }
            match (&items[0], &items[1]) {
                (JsonValue::Number(Some(longitude)), JsonValue::Number(Some(latitude))) => Ok(
                    Coordinate { longitude: *longitude, latitude: *latitude },
                ),
                _ => Err(ParseError::ShapeMismatch),
            }
        },
        _ => Err(ParseError::ShapeMismatch),
    }
}

/// Decodes a path, item by item.
#[verifier::loop_isolation(false)]
fn decode_coordinates(value: &JsonValue) -> (res: Result<Vec<Coordinate>, ParseError>)
    ensures
        match res {
            Ok(path) => coordinates_of(*value) == Some(path@),
            Err(e) => coordinates_of(*value) is None && e == ParseError::ShapeMismatch,
        },
{
    match value {
        JsonValue::Array(items) => {
            let mut path: Vec<Coordinate> = Vec::new();
            let mut i: usize = 0;
            while i < items.len()
                invariant
                    i <= items@.len(),
                    path@.len() == i,
                    forall|j: int|
                        0 <= j < i ==> coordinate_of(#[trigger] items@[j]) == Some(path@[j]),
                decreases items@.len() - i,
            {
                match decode_coordinate(&items[i]) {
                    Ok(point) => path.push(point),
                    Err(e) => {
                        assert(coordinate_of(items@[i as int]) is None);
                        return Err(e);
                    },
                }
                i += 1;
            }
            proof {
                let decoded = coordinates_of(*value);
                assert(decoded is Some);
                assert(decoded->Some_0 =~= path@);
            }
            Ok(path)
        },
        _ => Err(ParseError::ShapeMismatch),
    }
}

/// Decodes a geometry.
pub fn decode_geometry(value: &JsonValue) -> (res: Result<Geometry, ParseError>)
    ensures
        match res {
            Ok(geometry) => geometry_of(*value) == Some(geometry@),
            Err(e) => geometry_of(*value) is None && e == ParseError::ShapeMismatch,
        },
{
    let json_type = match decode_text(value, "type") {
        Ok(text) => text,
        Err(e) => {
            return Err(e);
        },
    };
    let coordinates = match value.get("coordinates") {
        Some(path) => match decode_coordinates(path) {
            Ok(coordinates) => coordinates,
            Err(e) => {
                return Err(e);
            },
        },
        None => {
            return Err(ParseError::ShapeMismatch);
        },
    };
    Ok(Geometry { json_type, coordinates })
}

/// Decodes the properties of a feature.
pub fn decode_properties(value: &JsonValue) -> (res: Result<FeatureProperty, ParseError>)
    ensures
        match res {
            Ok(properties) => properties_of(*value) == Some(properties@),
            Err(e) => properties_of(*value) is None && e == ParseError::ShapeMismatch,
        },
{
    let id = match decode_text(value, "@id") {
        Ok(text) => text,
        Err(e) => {
            return Err(e);
        },
    };
    let highway = match decode_text(value, "highway") {
        Ok(text) => text,
        Err(e) => {
            return Err(e);
        },
    };
    Ok(FeatureProperty { id, highway })
}

/// Decodes one feature.
pub fn decode_feature(value: &JsonValue) -> (res: Result<Feature, ParseError>)
    ensures
        match res {
            Ok(feature) => feature_of(*value) == Some(feature@),
            Err(e) => feature_of(*value) is None && e == ParseError::ShapeMismatch,
        },
{
    let id = match decode_text(value, "id") {
        Ok(text) => text,
        Err(e) => {
            return Err(e);
        },
    };
    let json_type = match decode_text(value, "type") {
        Ok(text) => text,
        Err(e) => {
            return Err(e);
        },
    };
    let properties = match value.get("properties") {
        Some(found) => match decode_properties(found) {
            Ok(properties) => properties,
            Err(e) => {
                return Err(e);
            },
        },
        None => {
            return Err(ParseError::ShapeMismatch);
        },
    };
    let geometry = match value.get("geometry") {
        Some(found) => match decode_geometry(found) {
            Ok(geometry) => geometry,
            Err(e) => {
                return Err(e);
            },
        },
        None => {
            return Err(ParseError::ShapeMismatch);
        },
    };
    Ok(Feature { id, json_type, properties, geometry })
}

/// Decodes an array of features, item by item.
#[verifier::loop_isolation(false)]
fn decode_features(value: &JsonValue) -> (res: Result<Vec<Feature>, ParseError>)
    ensures
        match res {
            Ok(features) => features_of(*value) == Some(
                features@.map_values(|f: Feature| f@),
            ),
            Err(e) => features_of(*value) is None && e == ParseError::ShapeMismatch,
        },
{
    match value {
        JsonValue::Array(items) => {
            let mut features: Vec<Feature> = Vec::new();
            let mut i: usize = 0;
            while i < items.len()
                invariant
                    i <= items@.len(),
                    features@.len() == i,
                    forall|j: int|
                        0 <= j < i ==> feature_of(#[trigger] items@[j]) == Some(features@[j]@),
                decreases items@.len() - i,
            {
                match decode_feature(&items[i]) {
                    Ok(feature) => features.push(feature),
                    Err(e) => {
                        assert(feature_of(items@[i as int]) is None);
                        return Err(e);
                    },
                }
                i += 1;
            }
            proof {
                let decoded = features_of(*value);
                assert(decoded is Some);
                assert(decoded->Some_0 =~= features@.map_values(|f: Feature| f@));
            }
            Ok(features)
        },
        _ => Err(ParseError::ShapeMismatch),
    }
}

/// Decodes a whole document. It yields a collection exactly when the
/// document has the shape of one, and then every field of the collection
/// is the value at its place in the document; no part of a document that
/// fails is kept.
pub fn decode_feature_collection(value: &JsonValue) -> (res: Result<
    FeatureCollection,
    ParseError,
>)
    ensures
        match res {
            Ok(collection) => collection_of(*value) == Some(collection@),
            Err(e) => collection_of(*value) is None && e == ParseError::ShapeMismatch,
        },
{
    let json_type = match decode_text(value, "type") {
        Ok(text) => text,
        Err(e) => {
            return Err(e);
        },
    };
    let generator = match decode_text(value, "generator") {
        Ok(text) => text,
        Err(e) => {
            return Err(e);
        },
    };
    let copyright = match decode_text(value, "copyright") {
        Ok(text) => text,
        Err(e) => {
            return Err(e);
        },
    };
    let timestamp = match decode_text(value, "timestamp") {
        Ok(text) => text,
        Err(e) => {
            return Err(e);
        },
    };
    let features = match value.get("features") {
        Some(list) => match decode_features(list) {
            Ok(features) => features,
            Err(e) => {
                return Err(e);
            },
        },
        None => {
            return Err(ParseError::ShapeMismatch);
        },
    };
    Ok(FeatureCollection { json_type, generator, copyright, timestamp, features })
}

} // verus!
