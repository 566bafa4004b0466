use metamagic::codec::record_from_document;
use metamagic::codec::Document;
use metamagic::decode;
use metamagic::encode;
use metamagic::json::Scalar;
use metamagic::MetaError;
use metamagic::VideoMeta;

fn sample() -> VideoMeta {
    VideoMeta {
        fps: 30,
        format: "video/h264".to_string(),
        res_y: 1080,
        res_x: 1920,
        capture_start: 1_492_712_968_567,
        logger_id: "logger \"one\"".to_string(),
        device_id: "1fc0c10b0a534202".to_string(),
        tick: 1_492_712_970_000,
    }
}

fn sample_text() -> String {
    "{\"fps\":30,\"format\":\"video/h264\",\"res_y\":1080,\"res_x\":1920,\
     \"capture_start\":1492712968567,\"logger_id\":\"logger \\\"one\\\"\",\
     \"device_id\":\"1fc0c10b0a534202\",\"tick\":1492712970000}"
        .to_string()
}

fn sample_document() -> Document {
    Document {
        fps: Some(Scalar::Unsigned(30)),
        format: Some(Scalar::Text("video/h264".to_string())),
        res_y: Some(Scalar::Unsigned(1080)),
        res_x: Some(Scalar::Unsigned(1920)),
        capture_start: Some(Scalar::Unsigned(1_492_712_968_567)),
        logger_id: Some(Scalar::Text("logger \"one\"".to_string())),
        device_id: Some(Scalar::Text("1fc0c10b0a534202".to_string())),
        tick: Some(Scalar::Unsigned(1_492_712_970_000)),
    }
}

#[test]
fn encode_then_decode_gives_the_record_back() {
    let record = sample();
    assert_eq!(decode(&encode(&record)), Ok(record));
}

#[test]
fn round_trip_keeps_the_largest_numbers() {
    let record = VideoMeta {
        fps: u32::MAX,
        format: String::new(),
        res_y: u32::MAX,
        res_x: 0,
        capture_start: u64::MAX,
        logger_id: String::new(),
        device_id: String::new(),
        tick: u64::MAX,
    };
    assert_eq!(decode(&encode(&record)), Ok(record));
}

#[test]
fn round_trip_keeps_strings_that_need_escapes() {
    let record = VideoMeta {
        fps: 1,
        format: "a\\b/c\n\t\u{1}".to_string(),
        res_y: 2,
        res_x: 3,
        capture_start: 4,
        logger_id: "caf\u{e9} \u{1f3a5} \u{2028}".to_string(),
        device_id: "\"}{,:".to_string(),
        tick: 5,
    };
    assert_eq!(decode(&encode(&record)), Ok(record));
}

#[test]
fn encode_writes_the_members_in_order() {
    assert_eq!(encode(&sample()), sample_text());
}

#[test]
fn decode_reads_a_document() {
    assert_eq!(decode(&sample_text()), Ok(sample()));
}

#[test]
fn decode_reads_members_in_any_order_and_layout() {
    let text = " {\n  \"tick\": 6,\n  \"device_id\": \"d\",\n  \"logger_id\": \"l\",\n  \
                \"capture_start\": 5,\n  \"res_x\": 4,\n  \"res_y\": 3,\n  \"format\": \"f\",\n  \
                \"fps\": 2\n}\n";
    let expected = VideoMeta {
        fps: 2,
        format: "f".to_string(),
        res_y: 3,
        res_x: 4,
        capture_start: 5,
        logger_id: "l".to_string(),
        device_id: "d".to_string(),
        tick: 6,
    };
    assert_eq!(decode(text), Ok(expected));
}

#[test]
fn decode_passes_over_members_of_other_names() {
    let text = "{\"fps\":30,\"format\":\"video/h264\",\"res_y\":1080,\"res_x\":1920,\
                \"capture_start\":1492712968567,\"logger_id\":\"logger \\\"one\\\"\",\
                \"device_id\":\"1fc0c10b0a534202\",\"tick\":1492712970000,\
                \"note\":{\"kept\":[1,2.5,null,true]}}";
    assert_eq!(decode(text), Ok(sample()));
}

#[test]
fn decode_accepts_empty_identifiers_and_any_tick() {
    let text = "{\"fps\":0,\"format\":\"\",\"res_y\":0,\"res_x\":0,\"capture_start\":0,\
                \"logger_id\":\"\",\"device_id\":\"\",\"tick\":123}";
    let expected = VideoMeta {
        fps: 0,
        format: String::new(),
        res_y: 0,
        res_x: 0,
        capture_start: 0,
        logger_id: String::new(),
        device_id: String::new(),
        tick: 123,
    };
    assert_eq!(decode(text), Ok(expected));
}

#[test]
fn decode_rejects_text_that_is_no_json() {
    assert_eq!(decode("{\"fps\": 30,"), Err(MetaError::MalformedDocument));
    assert_eq!(decode(""), Err(MetaError::MalformedDocument));
    assert_eq!(decode("not json"), Err(MetaError::MalformedDocument));
    let mut twice = sample_text();
    twice.push_str(&sample_text());
    assert_eq!(decode(&twice), Err(MetaError::MalformedDocument));
}

#[test]
fn decode_rejects_a_document_without_a_member() {
    let text = "{\"fps\":30,\"format\":\"video/h264\",\"res_y\":1080,\"res_x\":1920,\
                \"capture_start\":1492712968567,\"logger_id\":\"l\",\"tick\":1492712970000}";
    assert_eq!(decode(text), Err(MetaError::SchemaMismatch));
    assert_eq!(decode("{}"), Err(MetaError::SchemaMismatch));
}

#[test]
fn decode_rejects_json_that_is_no_object() {
    assert_eq!(
        decode("[30,\"video/h264\",1080,1920,1,\"l\",\"d\",2]"),
        Err(MetaError::SchemaMismatch)
    );
    assert_eq!(decode("12"), Err(MetaError::SchemaMismatch));
    assert_eq!(decode("null"), Err(MetaError::SchemaMismatch));
}

fn with_member(name: &str, value: &str) -> String {
    let mut text = String::from("{");
    for (key, normal) in [
        ("fps", "30"),
        ("format", "\"f\""),
        ("res_y", "1080"),
        ("res_x", "1920"),
        ("capture_start", "1"),
        ("logger_id", "\"l\""),
        ("device_id", "\"d\""),
        ("tick", "2"),
    ] {
        if text.len() > 1 {
            text.push(',');
        }
        text.push_str(&format!("\"{}\":{}", key, if key == name { value } else { normal }));
    }
    text.push('}');
    text
}

#[test]
fn decode_rejects_a_member_of_the_wrong_kind() {
    assert!(decode(&with_member("fps", "30")).is_ok());
    assert_eq!(decode(&with_member("fps", "\"30\"")), Err(MetaError::SchemaMismatch));
    assert_eq!(decode(&with_member("fps", "30.0")), Err(MetaError::SchemaMismatch));
    assert_eq!(decode(&with_member("fps", "-1")), Err(MetaError::SchemaMismatch));
    assert_eq!(decode(&with_member("fps", "null")), Err(MetaError::SchemaMismatch));
    assert_eq!(decode(&with_member("format", "7")), Err(MetaError::SchemaMismatch));
    assert_eq!(decode(&with_member("res_y", "true")), Err(MetaError::SchemaMismatch));
    assert_eq!(decode(&with_member("res_x", "[1920]")), Err(MetaError::SchemaMismatch));
    assert_eq!(decode(&with_member("capture_start", "\"1\"")), Err(MetaError::SchemaMismatch));
    assert_eq!(decode(&with_member("capture_start", "-5")), Err(MetaError::SchemaMismatch));
    assert_eq!(decode(&with_member("logger_id", "{}")), Err(MetaError::SchemaMismatch));
    assert_eq!(decode(&with_member("device_id", "1")), Err(MetaError::SchemaMismatch));
    assert_eq!(decode(&with_member("tick", "1e3")), Err(MetaError::SchemaMismatch));
}

#[test]
fn decode_holds_numbers_to_their_width() {
    assert!(decode(&with_member("fps", "4294967295")).is_ok());
    assert_eq!(decode(&with_member("fps", "4294967296")), Err(MetaError::SchemaMismatch));
    assert_eq!(decode(&with_member("res_y", "4294967296")), Err(MetaError::SchemaMismatch));
    assert_eq!(decode(&with_member("res_x", "4294967296")), Err(MetaError::SchemaMismatch));
    assert!(decode(&with_member("tick", "18446744073709551615")).is_ok());
    assert_eq!(
        decode(&with_member("tick", "18446744073709551616")),
        Err(MetaError::SchemaMismatch)
    );
}

#[test]
fn record_from_document_takes_a_full_document() {
    assert_eq!(record_from_document(sample_document()), Ok(sample()));
}

#[test]
fn record_from_document_rejects_a_missing_member() {
    let mut document = sample_document();
    document.device_id = None;
    assert_eq!(record_from_document(document), Err(MetaError::SchemaMismatch));
    let mut document = sample_document();
    document.fps = None;
    assert_eq!(record_from_document(document), Err(MetaError::SchemaMismatch));
}

#[test]
fn record_from_document_rejects_a_wrong_kind() {
    let mut document = sample_document();
    document.tick = Some(Scalar::Text("1492712970000".to_string()));
    assert_eq!(record_from_document(document), Err(MetaError::SchemaMismatch));
    let mut document = sample_document();
    document.format = Some(Scalar::Other);
    assert_eq!(record_from_document(document), Err(MetaError::SchemaMismatch));
    let mut document = sample_document();
    document.res_x = Some(Scalar::Unsigned(4_294_967_296));
    assert_eq!(record_from_document(document), Err(MetaError::SchemaMismatch));
    let mut document = sample_document();
    document.res_x = Some(Scalar::Unsigned(4_294_967_295));
    assert!(record_from_document(document).is_ok());
}
