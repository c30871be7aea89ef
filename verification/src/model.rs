//! The records of a feature collection, and their mathematical views.

use vstd::prelude::*;

verus! {

/// The two properties of a feature that are kept: its identifier, which
/// the document holds under the key `@id`, and its highway class.
#[derive(Debug)]
pub struct FeatureProperty {
    pub id: String,
    pub highway: String,
}

/// A point. Each field is the IEEE 754 binary64 bit pattern of the number
/// in the document; no range is imposed on either.
#[derive(Debug, Clone, Copy, PartialEq, Eq)]
pub struct Coordinate {
    pub longitude: u64,
    pub latitude: u64,
}

/// A kind of shape with its points, in the order of the document.
#[derive(Debug)]
pub struct Geometry {
    pub json_type: String,
    pub coordinates: Vec<Coordinate>,
}

/// One geographic entity. Its `id` and that of its properties come from
/// two places in the document and need not agree.
#[derive(Debug)]
pub struct Feature {
    pub id: String,
    pub json_type: String,
    pub properties: FeatureProperty,
    pub geometry: Geometry,
}

/// A set of features with the header of the export, the features in the
/// order of the document.
#[derive(Debug)]
pub struct FeatureCollection {
    pub json_type: String,
    pub generator: String,
    pub copyright: String,
    pub timestamp: String,
    pub features: Vec<Feature>,
}

pub struct FeaturePropertyView {
    pub id: Seq<char>,
    pub highway: Seq<char>,
}

pub struct GeometryView {
    pub json_type: Seq<char>,
    pub coordinates: Seq<Coordinate>,
}

pub struct FeatureView {
    pub id: Seq<char>,
    pub json_type: Seq<char>,
    pub properties: FeaturePropertyView,
    pub geometry: GeometryView,
}

pub struct FeatureCollectionView {
    pub json_type: Seq<char>,
    pub generator: Seq<char>,
    pub copyright: Seq<char>,
    pub timestamp: Seq<char>,
    pub features: Seq<FeatureView>,
}

impl View for FeatureProperty {
    type V = FeaturePropertyView;

    open spec fn view(&self) -> FeaturePropertyView {
        FeaturePropertyView { id: self.id@, highway: self.highway@ }
    }
}

impl View for Geometry {
    type V = GeometryView;

    open spec fn view(&self) -> GeometryView {
        GeometryView { json_type: self.json_type@, coordinates: self.coordinates@ }
    }
}

impl View for Feature {
    type V = FeatureView;

    open spec fn view(&self) -> FeatureView {
        FeatureView {
            id: self.id@,
            json_type: self.json_type@,
            properties: self.properties@,
            geometry: self.geometry@,
        }
    }
}

impl View for FeatureCollection {
    type V = FeatureCollectionView;

    open spec fn view(&self) -> FeatureCollectionView {
        FeatureCollectionView {
            json_type: self.json_type@,
            generator: self.generator@,
            copyright: self.copyright@,
            timestamp: self.timestamp@,
            features: self.features@.map_values(|f: Feature| f@),
        }
    }
}

} // verus!
