//! Loading a feature collection from JSON text or from the bytes of a file.

use crate::decode::{collection_of, decode_feature_collection};
use crate::error::{shaped, LoadError, ParseError};
use crate::json::{json_document, parse_json};
pub use crate::model::{
    Coordinate, Feature, FeatureCollection, FeatureCollectionView, FeatureProperty,
    FeaturePropertyView, FeatureView, Geometry, GeometryView,
};
use vstd::prelude::*;
use vstd::utf8::{decode_utf8, encode_utf8, valid_utf8};

verus! {

/// What a text deserializes to: the collection that its document decodes
/// to, where the text is JSON and the document has the shape of one.
pub open spec fn deserialized(text: Seq<char>) -> Result<FeatureCollectionView, ParseError> {
    match json_document(text) {
        Some(document) => shaped(collection_of(document)),
        None => Err(ParseError::InvalidJson),
    }
}

/// What the bytes of a file deserialize to: what the text does that they
/// encode in UTF-8. Bytes that encode no text are not JSON.
pub open spec fn deserialized_bytes(bytes: Seq<u8>) -> Result<FeatureCollectionView, ParseError> {
    if valid_utf8(bytes) {
        deserialized(decode_utf8(bytes))
    } else {
        Err(ParseError::InvalidJson)
    }
}

/// Reads a feature collection from a complete JSON document. A text that
/// is not JSON, the empty text among them, is `InvalidJson`; a document of
/// another shape is `ShapeMismatch`; either way nothing is returned of it.
pub fn deserialize_json(json: String) -> (res: Result<FeatureCollection, ParseError>)
    ensures
        match res {
            Ok(collection) => deserialized(json@) == Ok::<_, ParseError>(collection@),
            Err(e) => deserialized(json@) == Err::<FeatureCollectionView, _>(e),
        },
        json@.len() == 0 ==> res is Err && res->Err_0 == ParseError::InvalidJson,
{
    match parse_json(json.as_str()) {
        Ok(document) => decode_feature_collection(&document),
        Err(e) => Err(e),
    }
}

/// `String::from_utf8`: it yields a string exactly for bytes that are valid
/// UTF-8, and the string is then made of those bytes.
#[verifier::external_body]
fn text_of_bytes(bytes: Vec<u8>) -> (res: Option<String>)
    ensures
        valid_utf8(bytes@) ==> res is Some,
        res is Some ==> encode_utf8(res->Some_0@) == bytes@,
{
    String::from_utf8(bytes).ok()
}

/// Reads a feature collection from what reading a file gave: the bytes of
/// the file, or the reason it could not be read. A failure to read comes
/// back as it is; bytes are deserialized as their text is.
pub fn deserialize_json_from_file_contents(contents: Result<Vec<u8>, std::io::Error>) -> (res:
    Result<FeatureCollection, LoadError>)
    ensures
        match contents {
            Err(failure) => res is Err && res->Err_0 == LoadError::Io(failure),
            Ok(bytes) => match deserialized_bytes(bytes@) {
                Ok(collection) => res is Ok && res->Ok_0@ == collection,
                Err(e) => res is Err && res->Err_0 == LoadError::Parse(e),
            },
        },
{
    let bytes = match contents {
        Ok(bytes) => bytes,
        Err(failure) => {
            return Err(LoadError::Io(failure));
        },
    };
    let ghost given = bytes@;
    let text = match text_of_bytes(bytes) {
        Some(text) => text,
        None => {
            return Err(LoadError::Parse(ParseError::InvalidJson));
        },
    };
    proof {
        vstd::utf8::encode_utf8_valid_utf8(text@);
        vstd::utf8::encode_utf8_decode_utf8(text@);
        assert(decode_utf8(given) == text@);
    }
    match deserialize_json(text) {
        Ok(collection) => Ok(collection),
        Err(e) => Err(LoadError::Parse(e)),
    }
}

} // verus!
