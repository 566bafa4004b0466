//! The codec: a record to its JSON document and back.
//!
//! A document is a JSON object with eight members, `fps`, `format`, `res_y`,
//! `res_x`, `capture_start`, `logger_id`, `device_id` and `tick`. Reading and
//! printing JSON is `serde_json`'s work; which members a document must have,
//! of which kind, and what record they make is decided here.

use crate::json::json_parse;
use crate::json::json_text;
use crate::json::map_insert;
use crate::json::map_new;
use crate::json::members;
use crate::json::parse_value;
use crate::json::value_as_str;
use crate::json::value_as_u64;
use crate::json::value_from_map;
use crate::json::value_from_string;
use crate::json::value_from_u64;
use crate::json::value_member;
use crate::json::value_text;
use crate::json::Scalar;
use crate::json::ScalarView;
use crate::record::MetaError;
use crate::record::Record;
use crate::record::VideoMeta;
use serde_json::Value;
use vstd::prelude::*;

verus! {

/// The eight members of a document as they were found: `None` where the
/// document has no member of that name.
pub struct DocumentView {
    pub fps: Option<ScalarView>,
    pub format: Option<ScalarView>,
    pub res_y: Option<ScalarView>,
    pub res_x: Option<ScalarView>,
    pub capture_start: Option<ScalarView>,
    pub logger_id: Option<ScalarView>,
    pub device_id: Option<ScalarView>,
    pub tick: Option<ScalarView>,
}

/// The eight members of a document as they were found: `None` where the
/// document has no member of that name.
#[derive(Debug, Clone, PartialEq, Eq)]
pub struct Document {
    pub fps: Option<Scalar>,
    pub format: Option<Scalar>,
    pub res_y: Option<Scalar>,
    pub res_x: Option<Scalar>,
    pub capture_start: Option<Scalar>,
    pub logger_id: Option<Scalar>,
    pub device_id: Option<Scalar>,
    pub tick: Option<Scalar>,
}

/// The model of a member that may be missing.
pub open spec fn found(member: Option<Scalar>) -> Option<ScalarView> {
    match member {
        Some(s) => Some(s@),
        None => None,
    }
}

impl View for Document {
    type V = DocumentView;

    open spec fn view(&self) -> DocumentView {
        DocumentView {
            fps: found(self.fps),
            format: found(self.format),
            res_y: found(self.res_y),
            res_x: found(self.res_x),
            capture_start: found(self.capture_start),
            logger_id: found(self.logger_id),
            device_id: found(self.device_id),
            tick: found(self.tick),
        }
    }
}

/// The member that stands under a key, if any.
pub open spec fn member(all: Map<Seq<char>, ScalarView>, key: Seq<char>) -> Option<ScalarView> {
    if all.dom().contains(key) {
        Some(all[key])
    } else {
        None
    }
}

/// What a document's eight names find among the members of an object.
/// Members of other names are passed over.
pub open spec fn document_of_members(all: Map<Seq<char>, ScalarView>) -> DocumentView {
    DocumentView {
        fps: member(all, "fps"@),
        format: member(all, "format"@),
        res_y: member(all, "res_y"@),
        res_x: member(all, "res_x"@),
        capture_start: member(all, "capture_start"@),
        logger_id: member(all, "logger_id"@),
        device_id: member(all, "device_id"@),
        tick: member(all, "tick"@),
    }
}

/// The number of a member that is an unsigned integer of at most 32 bits.
pub open spec fn narrow(member: Option<ScalarView>) -> Option<nat> {
    match member {
        Some(ScalarView::Unsigned(n)) if n <= u32::MAX => Some(n as nat),
        _ => None,
    }
}

/// The number of a member that is an unsigned integer of at most 64 bits.
pub open spec fn wide(member: Option<ScalarView>) -> Option<nat> {
    match member {
        Some(ScalarView::Unsigned(n)) => Some(n as nat),
        _ => None,
    }
}

/// The characters of a member that is a string.
pub open spec fn text(member: Option<ScalarView>) -> Option<Seq<char>> {
    match member {
        Some(ScalarView::Text(s)) => Some(s),
        _ => None,
    }
}

/// Whether each of the eight members is there and of its kind: `fps`,
/// `res_y` and `res_x` integers of 32 bits, `capture_start` and `tick`
/// integers of 64 bits, the other three strings.
pub open spec fn conforms(d: DocumentView) -> bool {
    &&& narrow(d.fps) is Some
    &&& text(d.format) is Some
    &&& narrow(d.res_y) is Some
    &&& narrow(d.res_x) is Some
    &&& wide(d.capture_start) is Some
    &&& text(d.logger_id) is Some
    &&& text(d.device_id) is Some
    &&& wide(d.tick) is Some
}

/// The record that a document describes, or why it describes none. No
/// field is checked beyond its kind: an empty identifier, or a tick that
/// does not fit the start, passes.
pub open spec fn record_of_document(d: DocumentView) -> Result<Record, MetaError> {
    if conforms(d) {
        Ok(
            Record {
                frame_rate: narrow(d.fps)->0,
                format: text(d.format)->0,
                resolution_height: narrow(d.res_y)->0,
                resolution_width: narrow(d.res_x)->0,
                capture_start: wide(d.capture_start)->0,
                logger_identifier: text(d.logger_id)->0,
                device_identifier: text(d.device_id)->0,
                tick: wide(d.tick)->0,
            },
        )
    } else {
        Err(MetaError::SchemaMismatch)
    }
}

/// What decoding makes of a parse: a text that is no JSON is malformed, and
/// one that is JSON is held to the schema.
pub open spec fn decoded(parsed: Option<Map<Seq<char>, ScalarView>>) -> Result<Record, MetaError> {
    match parsed {
        None => Err(MetaError::MalformedDocument),
        Some(all) => record_of_document(document_of_members(all)),
    }
}

/// The members of the document that stands for a record.
pub open spec fn record_members(r: Record) -> Map<Seq<char>, ScalarView> {
    Map::<Seq<char>, ScalarView>::empty().insert(
        "fps"@,
        ScalarView::Unsigned(r.frame_rate as u64),
    ).insert("format"@, ScalarView::Text(r.format)).insert(
        "res_y"@,
        ScalarView::Unsigned(r.resolution_height as u64),
    ).insert("res_x"@, ScalarView::Unsigned(r.resolution_width as u64)).insert(
        "capture_start"@,
        ScalarView::Unsigned(r.capture_start as u64),
    ).insert("logger_id"@, ScalarView::Text(r.logger_identifier)).insert(
        "device_id"@,
        ScalarView::Text(r.device_identifier),
    ).insert("tick"@, ScalarView::Unsigned(r.tick as u64))
}

/// Whether a text is what `serde_json` prints for an object with exactly
/// the members of a record's document.
pub open spec fn encodes(r: Record, text: Seq<char>) -> bool {
    exists|value: Value| #[trigger] json_text(value) == text && members(value) == record_members(r)
}

/// The model of what a decoding gave.
pub open spec fn outcome(result: Result<VideoMeta, MetaError>) -> Result<Record, MetaError> {
    match result {
        Ok(meta) => Ok(meta@),
        Err(e) => Err(e),
    }
}

fn narrow_of(member: Option<Scalar>) -> (number: Option<u32>)
    ensures
        match number {
            Some(n) => narrow(found(member)) == Some(n as nat),
            None => narrow(found(member)) is None,
        },
{
    match member {
        Some(Scalar::Unsigned(n)) => {
            if n <= u32::MAX as u64 {
                Some(n as u32)
            } else {
                None
            }
        },
        _ => None,
    }
}

fn wide_of(member: Option<Scalar>) -> (number: Option<u64>)
    ensures
        match number {
            Some(n) => wide(found(member)) == Some(n as nat),
            None => wide(found(member)) is None,
        },
{
    match member {
        Some(Scalar::Unsigned(n)) => Some(n),
        _ => None,
    }
}

fn text_of(member: Option<Scalar>) -> (string: Option<String>)
    ensures
        match string {
            Some(s) => text(found(member)) == Some(s@),
            None => text(found(member)) is None,
        },
{
    match member {
        Some(Scalar::Text(s)) => Some(s),
        _ => None,
    }
}

/// Holds the members found in a document to the schema and makes the record
/// of them. Fails with `SchemaMismatch` where a member is missing or of the
/// wrong kind.
pub fn record_from_document(document: Document) -> (result: Result<VideoMeta, MetaError>)
    ensures
        outcome(result) == record_of_document(document@),
{
    let fps = narrow_of(document.fps);
    let format = text_of(document.format);
    let res_y = narrow_of(document.res_y);
    let res_x = narrow_of(document.res_x);
    let capture_start = wide_of(document.capture_start);
    let logger_id = text_of(document.logger_id);
    let device_id = text_of(document.device_id);
    let tick = wide_of(document.tick);
    match (fps, format, res_y, res_x, capture_start, logger_id, device_id, tick) {
        (
            Some(fps),
            Some(format),
            Some(res_y),
            Some(res_x),
            Some(capture_start),
            Some(logger_id),
            Some(device_id),
            Some(tick),
        ) => Ok(
            VideoMeta { fps, format, res_y, res_x, capture_start, logger_id, device_id, tick },
        ),
        _ => Err(MetaError::SchemaMismatch),
    }
}

/// Reads the member under a key as a scalar.
fn read_member(value: &Value, key: &str) -> (read: Option<Scalar>)
    ensures
        found(read) == member(members(*value), key@),
{
    match value_member(value, key) {
        None => None,
        Some(inner) => {
            match value_as_u64(inner) {
                Some(n) => Some(Scalar::Unsigned(n)),
                None => {
                    match value_as_str(inner) {
                        Some(s) => Some(Scalar::Text(s.to_owned())),
                        None => Some(Scalar::Other),
                    }
                },
            }
        },
    }
}

/// Looks up the eight members of a document in a JSON value.
fn document_from_value(value: &Value) -> (document: Document)
    ensures
        document@ == document_of_members(members(*value)),
{
    Document {
        fps: read_member(value, "fps"),
        format: read_member(value, "format"),
        res_y: read_member(value, "res_y"),
        res_x: read_member(value, "res_x"),
        capture_start: read_member(value, "capture_start"),
        logger_id: read_member(value, "logger_id"),
        device_id: read_member(value, "device_id"),
        tick: read_member(value, "tick"),
    }
}

/// Reads a record from the text of its document. Fails with
/// `MalformedDocument` where the text is no JSON, and with `SchemaMismatch`
/// where it is JSON but one of the eight members is missing or of the wrong
/// kind.
pub fn decode(text: &str) -> (result: Result<VideoMeta, MetaError>)
    ensures
        outcome(result) == decoded(json_parse(text@)),
{
    match parse_value(text) {
        Err(_) => Err(MetaError::MalformedDocument),
        Ok(value) => record_from_document(document_from_value(&value)),
    }
}

/// Builds the JSON object that stands for a record, its members in the
/// order `fps`, `format`, `res_y`, `res_x`, `capture_start`, `logger_id`,
/// `device_id`, `tick`.
fn value_from_record(record: &VideoMeta) -> (value: Value)
    ensures
        members(value) == record_members(record@),
{
    let mut object = map_new();
    map_insert(&mut object, "fps".to_owned(), value_from_u64(record.fps as u64));
    map_insert(&mut object, "format".to_owned(), value_from_string(record.format.clone()));
    map_insert(&mut object, "res_y".to_owned(), value_from_u64(record.res_y as u64));
    map_insert(&mut object, "res_x".to_owned(), value_from_u64(record.res_x as u64));
    map_insert(&mut object, "capture_start".to_owned(), value_from_u64(record.capture_start));
    map_insert(&mut object, "logger_id".to_owned(), value_from_string(record.logger_id.clone()));
    map_insert(&mut object, "device_id".to_owned(), value_from_string(record.device_id.clone()));
    map_insert(&mut object, "tick".to_owned(), value_from_u64(record.tick));
    value_from_map(object)
}

/// Writes a record as the text of its document: one JSON object with
/// exactly the eight members, in compact form.
pub fn encode(record: &VideoMeta) -> (text: String)
    ensures
        encodes(record@, text@),
{
    let value = value_from_record(record);
    let text = value_text(&value);
    assert(json_text(value) == text@ && members(value) == record_members(record@));
    text
}

/// The eight names of a document are pairwise distinct.
proof fn lemma_names_distinct()
    ensures
        "fps"@ != "format"@,
        "fps"@ != "res_y"@,
        "fps"@ != "res_x"@,
        "fps"@ != "capture_start"@,
        "fps"@ != "logger_id"@,
        "fps"@ != "device_id"@,
        "fps"@ != "tick"@,
        "format"@ != "res_y"@,
        "format"@ != "res_x"@,
        "format"@ != "capture_start"@,
        "format"@ != "logger_id"@,
        "format"@ != "device_id"@,
        "format"@ != "tick"@,
        "res_y"@ != "res_x"@,
        "res_y"@ != "capture_start"@,
        "res_y"@ != "logger_id"@,
        "res_y"@ != "device_id"@,
        "res_y"@ != "tick"@,
        "res_x"@ != "capture_start"@,
        "res_x"@ != "logger_id"@,
        "res_x"@ != "device_id"@,
        "res_x"@ != "tick"@,
        "capture_start"@ != "logger_id"@,
        "capture_start"@ != "device_id"@,
        "capture_start"@ != "tick"@,
        "logger_id"@ != "device_id"@,
        "logger_id"@ != "tick"@,
        "device_id"@ != "tick"@,
{
    reveal_strlit("fps");
    reveal_strlit("format");
    reveal_strlit("res_y");
    reveal_strlit("res_x");
    reveal_strlit("capture_start");
    reveal_strlit("logger_id");
    reveal_strlit("device_id");
    reveal_strlit("tick");
    assert("fps"@.len() == 3);
    assert("format"@.len() == 6);
    assert("res_y"@.len() == 5);
    assert("res_x"@.len() == 5);
    assert("capture_start"@.len() == 13);
    assert("logger_id"@.len() == 9);
    assert("device_id"@.len() == 9);
    assert("tick"@.len() == 4);
    assert("res_y"@[4] != "res_x"@[4]);
    assert("logger_id"@[0] != "device_id"@[0]);
}

/// The document that stands for a record has each of the eight members,
/// with the record's value.
pub proof fn lemma_document_of_record(record: VideoMeta)
    ensures
        document_of_members(record_members(record@)) == (DocumentView {
            fps: Some(ScalarView::Unsigned(record.fps as u64)),
            format: Some(ScalarView::Text(record.format@)),
            res_y: Some(ScalarView::Unsigned(record.res_y as u64)),
            res_x: Some(ScalarView::Unsigned(record.res_x as u64)),
            capture_start: Some(ScalarView::Unsigned(record.capture_start)),
            logger_id: Some(ScalarView::Text(record.logger_id@)),
            device_id: Some(ScalarView::Text(record.device_id@)),
            tick: Some(ScalarView::Unsigned(record.tick)),
        }),
{
    lemma_names_distinct();
}

/// Decoding undoes encoding, as far as this library's part goes: whatever
/// JSON object has exactly the members that `encode` writes for a record is
/// read back as that record, equal in all eight fields.
pub proof fn lemma_decode_inverts_encode(record: VideoMeta, all: Map<Seq<char>, ScalarView>)
    requires
        all == record_members(record@),
    ensures
        decoded(Some(all)) == outcome(Ok(record)),
{
    lemma_document_of_record(record);
}

/// Decoding the text that `serde_json` prints for a record's document gives
/// the record back, provided that `serde_json` reads from that text an
/// object with the members that it printed.
pub proof fn lemma_round_trip(record: VideoMeta, value: Value)
    requires
        members(value) == record_members(record@),
        json_parse(json_text(value)) == Some(members(value)),
    ensures
        encodes(record@, json_text(value)),
        decoded(json_parse(json_text(value))) == outcome(Ok(record)),
{
    lemma_decode_inverts_encode(record, record_members(record@));
}

} // verus!
