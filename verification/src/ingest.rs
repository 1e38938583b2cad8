//! Ingestion: decoding a highlights document into raw records, and the
//! error kinds a data source can report.

use vstd::prelude::*;
use std::collections::HashMap;
use crate::highlights::RawView;
use crate::highlights::StoredHighlight;

verus! {

/// Why ingestion failed.
#[derive(Clone, Copy, Debug, PartialEq, Eq, Structural)]
pub enum HighlightError {
    /// The document was malformed: not a JSON array of objects with the
    /// three required string fields.
    DocumentParse,
    /// The document decoded to zero records, which the data source rejects
    /// as a business rule rather than reporting an empty success.
    EmptyResult,
    /// The remote call could not complete.
    Transport,
}

#[verifier::external_type_specification]
#[verifier::external_body]
pub struct ExJsonError(serde_json::Error);

/// What a JSON document decodes to as an array of string-to-string objects:
/// the field maps in array order, or nothing if the text is not such a
/// document. `serde_json::from_str` computes this from the text alone.
pub uninterp spec fn doc_objects(s: Seq<char>) -> Option<Seq<Map<Seq<char>, Seq<char>>>>;

/// The fields a decoded object holds: its keys mapped to its string values.
pub uninterp spec fn fields_of(m: HashMap<String, String>) -> Map<Seq<char>, Seq<char>>;

/// Relies on `serde_json::from_str`: it decodes exactly the JSON arrays of
/// objects whose values are all strings, it depends on the text alone, and
/// each returned map holds the fields of the corresponding object.
#[verifier::external_body]
fn decode_objects(s: &str) -> (r: Result<Vec<HashMap<String, String>>, serde_json::Error>)
    ensures
        r is Ok <==> doc_objects(s@) is Some,
        r matches Ok(v) ==> doc_objects(s@) == Some(
            Seq::new(v@.len(), |i: int| fields_of(v@[i])),
        ),
{
    serde_json::from_str(s)
}

/// Relies on `HashMap::get`: it returns the value stored under the key, if
/// there is one.
#[verifier::external_body]
fn get_field<'a>(m: &'a HashMap<String, String>, key: &str) -> (r: Option<&'a String>)
    ensures
        match r {
            Some(v) => fields_of(*m).contains_key(key@) && v@ == fields_of(*m)[key@],
            None => !fields_of(*m).contains_key(key@),
        },
{
    m.get(key)
}

/// The raw record a decoded object yields: its three required fields, or
/// nothing if one is missing.
pub open spec fn record_of_obj(m: Map<Seq<char>, Seq<char>>) -> Option<RawView> {
    if m.contains_key("period"@) && m.contains_key("category"@) && m.contains_key(
        "description"@,
    ) {
        Some(
            RawView {
                period: m["period"@],
                category: m["category"@],
                description: m["description"@],
            },
        )
    } else {
        None
    }
}

/// The raw records a decoded object sequence yields: one per object, in
/// order, or nothing if any object misses a required field.
pub open spec fn records_of(objs: Seq<Map<Seq<char>, Seq<char>>>) -> Option<Seq<RawView>> {
    if forall|i: int| 0 <= i < objs.len() ==> record_of_obj(objs[i]) is Some {
        Some(Seq::new(objs.len(), |i: int| record_of_obj(objs[i]).unwrap()))
    } else {
        None
    }
}

/// Shapes decoded objects into raw records: every object must carry the
/// `period`, `category` and `description` fields, and the records come out
/// in object order; a missing field anywhere is a parse failure.
pub fn records_from_objects(objs: &Vec<HashMap<String, String>>) -> (r: Result<
    Vec<StoredHighlight>,
    HighlightError,
>)
    ensures
        match r {
            Ok(recs) => records_of(obj_models(objs@)) == Some(crate::grouping::raws_model(recs@)),
            Err(e) => e == HighlightError::DocumentParse && records_of(obj_models(objs@)) is None,
        },
{
    let ghost ms = obj_models(objs@);
    let mut out: Vec<StoredHighlight> = Vec::new();
    let mut i: usize = 0;
    while i < objs.len()
        invariant
            i <= objs.len(),
            ms == obj_models(objs@),
            out@.len() == i,
            forall|j: int| 0 <= j < i ==> record_of_obj(ms[j]) is Some,
            forall|j: int| 0 <= j < i ==> #[trigger] out@[j]@ == record_of_obj(ms[j]).unwrap(),
        decreases objs.len() - i,
    {
        let m = &objs[i];
        proof {
            assert(fields_of(objs@[i as int]) == ms[i as int]);
        }
        let period = match get_field(m, "period") {
            Some(v) => v.clone(),
            None => {
                proof {
                    assert(record_of_obj(ms[i as int]) is None);
                }
                return Err(HighlightError::DocumentParse);
            },
        };
        let category = match get_field(m, "category") {
            Some(v) => v.clone(),
            None => {
                proof {
                    assert(record_of_obj(ms[i as int]) is None);
                }
                return Err(HighlightError::DocumentParse);
            },
        };
        let description = match get_field(m, "description") {
            Some(v) => v.clone(),
            None => {
                proof {
                    assert(record_of_obj(ms[i as int]) is None);
                }
                return Err(HighlightError::DocumentParse);
            },
        };
        out.push(StoredHighlight { period, category, description });
        proof {
            assert(record_of_obj(ms[i as int]) is Some);
            assert(out@[i as int]@ =~~= record_of_obj(ms[i as int]).unwrap());
        }
        i = i + 1;
    }
    proof {
        assert(records_of(ms) is Some);
        assert(crate::grouping::raws_model(out@) =~= records_of(ms).unwrap());
    }
    Ok(out)
}

/// The field maps of a sequence of decoded objects.
pub open spec fn obj_models(objs: Seq<HashMap<String, String>>) -> Seq<Map<Seq<char>, Seq<char>>> {
    objs.map_values(|m: HashMap<String, String>| fields_of(m))
}

/// The raw records a document text yields: the shaped records of what it
/// decodes to, or nothing if it does not decode or an object misses a
/// required field.
pub open spec fn parsed_records(s: Seq<char>) -> Option<Seq<RawView>> {
    match doc_objects(s) {
        Some(objs) => records_of(objs),
        None => None,
    }
}

/// Parses a document into raw records: a JSON array of objects, each with
/// the three required string fields. Any malformed document is a parse
/// error; an empty array is a successful empty result here.
pub fn parse_document(s: &str) -> (r: Result<Vec<StoredHighlight>, HighlightError>)
    ensures
        match r {
            Ok(recs) => parsed_records(s@) == Some(crate::grouping::raws_model(recs@)),
            Err(e) => e == HighlightError::DocumentParse && parsed_records(s@) is None,
        },
{
    match decode_objects(s) {
        Ok(objs) => {
            proof {
                assert(obj_models(objs@) =~= doc_objects(s@).unwrap());
            }
            records_from_objects(&objs)
        },
        Err(_) => Err(HighlightError::DocumentParse),
    }
}

/// Loads a document as a data source would: parses it, and rejects a
/// document that decodes to zero records with the distinct empty-result
/// error instead of succeeding with an empty list.
pub fn load_document(s: &str) -> (r: Result<Vec<StoredHighlight>, HighlightError>)
    ensures
        match r {
            Ok(recs) => parsed_records(s@) == Some(crate::grouping::raws_model(recs@))
                && recs@.len() > 0,
            Err(e) => match parsed_records(s@) {
                Some(rs) => rs.len() == 0 && e == HighlightError::EmptyResult,
                None => e == HighlightError::DocumentParse,
            },
        },
{
    let recs = parse_document(s)?;
    if recs.len() == 0 {
        return Err(HighlightError::EmptyResult);
    }
    Ok(recs)
}

/// The embedded highlights document: a compile-time constant that the
/// simulated data source serves in place of a real database.
pub open spec fn embedded_document_text() -> Seq<char> {
    r#"
    [
        {"period": "January 2025", "category": "Release Management", "description": "Managed the release of version 1.0, ensuring all features were tested and documented."},
        {"period": "January 2025", "category": "Configuration Management", "description": "Developed new features for the application, including user authentication and profile management."},
        {"period": "January 2025", "category": "Control Plane", "description": "Start of requirements gathering."},
        {"period": "February 2025", "category": "Configuration Management", "description": "Started study on AC3."},
        {"period": "February 2025", "category": "Release Management", "description": "Managed the release of version 1.1, ensuring all features were tested and documented."},
        {"period": "February 2025", "category": "Configuration Management", "description": "Creation of AC3 lib prototype."}
    ]
    "#@
}

/// The embedded document as text.
pub fn embedded_document() -> (r: &'static str)
    ensures
        r@ == embedded_document_text(),
{
    r#"
    [
        {"period": "January 2025", "category": "Release Management", "description": "Managed the release of version 1.0, ensuring all features were tested and documented."},
        {"period": "January 2025", "category": "Configuration Management", "description": "Developed new features for the application, including user authentication and profile management."},
        {"period": "January 2025", "category": "Control Plane", "description": "Start of requirements gathering."},
        {"period": "February 2025", "category": "Configuration Management", "description": "Started study on AC3."},
        {"period": "February 2025", "category": "Release Management", "description": "Managed the release of version 1.1, ensuring all features were tested and documented."},
        {"period": "February 2025", "category": "Configuration Management", "description": "Creation of AC3 lib prototype."}
    ]
    "#
}

/// Fetches the highlight records as the simulated data source does: decodes
/// the embedded document, and reports the distinct empty-result error if it
/// decodes to zero records.
pub fn fetch_highlights() -> (r: Result<Vec<StoredHighlight>, HighlightError>)
    ensures
        match r {
            Ok(recs) => parsed_records(embedded_document_text()) == Some(
                crate::grouping::raws_model(recs@),
            ) && recs@.len() > 0,
            Err(e) => match parsed_records(embedded_document_text()) {
                Some(rs) => rs.len() == 0 && e == HighlightError::EmptyResult,
                None => e == HighlightError::DocumentParse,
            },
        },
{
    load_document(embedded_document())
}

} // verus!
