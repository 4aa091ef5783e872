use bb_rust::json::{find_field, find_present, RawJson};
use bb_rust::misc::{compress, decompress, CompressError, DecompressError, GzippedJSON};
use bb_rust::text::{contains_char, find_char, str_eq};
use std::io::Read;

#[test]
fn test_compress_decompress() {
    let input = "hejhej";
    let compressed = compress(&RawJson::string(input)).unwrap();
    let decompressed: String = decompress(&compressed).unwrap().as_string().unwrap();
    assert_eq!(input, decompressed)
}

#[test]
fn test_decompress() {
    let input = [
        72, 52, 115, 73, 65, 65, 65, 65, 65, 65, 65, 65, 65, 52, 117, 117, 86, 107, 112, 74,
        76, 69, 108, 85, 115, 113, 112, 87, 75, 105, 48, 65, 115, 108, 73, 100, 99, 120, 75,
        76, 99, 107, 72, 99, 122, 66, 81, 108, 75, 121, 85, 76, 115, 120, 81, 68, 83, 49, 78,
        106, 65, 49, 50, 68, 82, 70, 77, 84, 88, 85, 80, 68, 49, 71, 84, 100, 74, 68, 80, 76,
        78, 78, 51, 107, 78, 75, 79, 48, 112, 66, 82, 106, 111, 53, 82, 85, 99, 119, 79, 108,
        50, 116, 114, 97, 87, 65, 65, 57, 116, 83, 56, 84, 83, 65, 65, 65, 65, 65, 61, 61,
    ];
    let x = decompress(&base64::decode(input).unwrap()).unwrap();
    let first = x.items().unwrap().remove(0);
    let data = find_field(&first.fields().unwrap(), "data").unwrap().clone();
    let update = find_field(&data.fields().unwrap(), "updateAlarm").unwrap().clone();
    let id = find_field(&update.fields().unwrap(), "id").unwrap().as_string().unwrap();
    assert_eq!(id, "86d09530-0a54-11ec-b69f-cf2fbd32de70")
}

#[test]
fn test_gzip_wrapper() {
    let gzipped = GzippedJSON(RawJson::string("hej"));
    let stored = gzipped.clone().to_bytes().unwrap();
    // The stored form is binary: a gzip stream.
    assert!(stored.starts_with(&[0x1f, 0x8b]));
    let back = GzippedJSON::from_bytes(&stored).unwrap();
    assert_eq!(gzipped.0, back.0)
}

#[test]
fn compress_writes_a_gzip_stream_of_the_text() {
    let doc = RawJson::from_text("{\"a\":[1,2,3]}").unwrap();
    let compressed = compress(&doc).unwrap();
    assert_ne!(compressed, doc.as_str().as_bytes());
    let mut text = String::new();
    flate2::read::GzDecoder::new(&compressed[..]).read_to_string(&mut text).unwrap();
    assert_eq!(text, "{\"a\":[1,2,3]}");
    // The same document compresses to the same bytes.
    assert_eq!(compress(&doc).unwrap(), compressed);
}

#[test]
fn decompress_round_trips_documents() {
    for text in ["null", "0", "\"\"", "[]", "{}", "{\"k\":{\"n\":[true,false,null,1.5e3]}}"] {
        let doc = RawJson::from_text(text).unwrap();
        let back = decompress(&compress(&doc).unwrap()).unwrap();
        assert_eq!(back, doc);
        assert_eq!(back.as_str(), text);
    }
}

#[test]
fn decompress_names_what_is_wrong() {
    assert_eq!(decompress(b"not gzip").unwrap_err(), DecompressError::DecoderWriterError);
    assert_eq!(decompress(b"").unwrap_err(), DecompressError::DecoderWriterError);
    // A gzip stream of something that is no JSON document.
    let mut encoder =
        flate2::read::GzEncoder::new(&b"{\"a\":"[..], flate2::Compression::default());
    let mut stream = Vec::new();
    encoder.read_to_end(&mut stream).unwrap();
    assert_eq!(decompress(&stream).unwrap_err(), DecompressError::UnexpectedJsonResponse);
    // A truncated stream.
    let whole = compress(&RawJson::string("hejhej")).unwrap();
    assert_eq!(
        decompress(&whole[..whole.len() - 4]).unwrap_err(),
        DecompressError::DecoderWriterError
    );
    assert_ne!(CompressError::EncoderWriterError, CompressError::UnexpectedJsonResponse);
}

#[test]
fn raw_json_reads_documents() {
    assert!(RawJson::parse(b"").is_none());
    assert!(RawJson::parse(b"{").is_none());
    assert!(RawJson::parse(b"1 2").is_none());
    assert!(RawJson::parse(&[0xff, 0xfe]).is_none());
    // The text of the value is kept as written, without what surrounds it.
    assert_eq!(RawJson::parse(b"  { \"a\" : 1 }\n").unwrap().as_str(), "{ \"a\" : 1 }");
    assert_eq!(RawJson::from_text(" [1, 2] ").unwrap().as_str(), "[1, 2]");
    assert_eq!(RawJson::from_text("null").unwrap().into_string(), "null");
}

#[test]
fn raw_json_strings() {
    let doc = RawJson::string("a\"b\\c\n\u{e9}");
    assert_eq!(doc.as_str(), "\"a\\\"b\\\\c\\n\u{e9}\"");
    assert_eq!(doc.as_string().unwrap(), "a\"b\\c\n\u{e9}");
    assert_eq!(RawJson::from_text("\"\\u0041\"").unwrap().as_string().unwrap(), "A");
    assert!(RawJson::from_text("1").unwrap().as_string().is_none());
    assert!(RawJson::from_text("null").unwrap().as_string().is_none());
}

#[test]
fn raw_json_numbers() {
    assert_eq!(RawJson::from_text("0").unwrap().as_u64(), Some(0));
    assert_eq!(RawJson::from_text("18446744073709551615").unwrap().as_u64(), Some(u64::MAX));
    assert_eq!(RawJson::from_text("18446744073709551616").unwrap().as_u64(), None);
    assert_eq!(RawJson::from_text("-1").unwrap().as_u64(), None);
    assert_eq!(RawJson::from_text("1.0").unwrap().as_u64(), None);
    assert_eq!(RawJson::from_text("\"1\"").unwrap().as_u64(), None);
}

#[test]
fn raw_json_null() {
    assert!(RawJson::from_text("null").unwrap().is_null());
    assert!(RawJson::from_text("  null ").unwrap().is_null());
    assert!(!RawJson::from_text("\"null\"").unwrap().is_null());
    assert!(!RawJson::from_text("0").unwrap().is_null());
}

#[test]
fn raw_json_items() {
    let doc = RawJson::from_text("[1, \"a\" ,[2,3], {\"k\": null}]").unwrap();
    let items: Vec<String> = doc.items().unwrap().into_iter().map(|i| i.into_string()).collect();
    assert_eq!(items, vec!["1", "\"a\"", "[2,3]", "{\"k\": null}"]);
    assert!(RawJson::from_text("[]").unwrap().items().unwrap().is_empty());
    assert!(RawJson::from_text("{}").unwrap().items().is_none());
    assert!(RawJson::from_text("\"[]\"").unwrap().items().is_none());
}

#[test]
fn raw_json_fields() {
    let doc = RawJson::from_text("{\"b\": [1], \"a\": null, \"c\": \"x\"}").unwrap();
    let fields = doc.fields().unwrap();
    let keys: Vec<&str> = fields.iter().map(|f| f.0.as_str()).collect();
    assert_eq!(keys, vec!["a", "b", "c"]);
    assert_eq!(find_field(&fields, "b").unwrap().as_str(), "[1]");
    assert_eq!(find_field(&fields, "a").unwrap().as_str(), "null");
    assert!(find_field(&fields, "d").is_none());
    // A member that is null counts as absent where a value is wanted.
    assert!(find_present(&fields, "a").is_none());
    assert!(find_present(&fields, "d").is_none());
    assert_eq!(find_present(&fields, "c").unwrap().as_str(), "\"x\"");
    assert!(RawJson::from_text("[]").unwrap().fields().is_none());
}

#[test]
fn text_helpers() {
    assert!(str_eq("abc", "abc"));
    assert!(str_eq("", ""));
    assert!(!str_eq("abc", "abd"));
    assert!(!str_eq("abc", "ab"));
    assert!(str_eq("é", "\u{e9}"));
    assert_eq!(find_char("a-b-c", '-'), 1);
    assert_eq!(find_char("abc", '-'), 3);
    assert_eq!(find_char("", '-'), 0);
    // Positions count characters, not bytes.
    assert_eq!(find_char("éé-", '-'), 2);
    assert!(contains_char("a#b", '#'));
    assert!(!contains_char("ab", '#'));
    assert!(!contains_char("", '#'));
    assert!(contains_char("éé-", 'é'));
}

#[test]
fn quoted_strings_read_back() {
    let all_low: String = (0u8..0x80).map(|b| b as char).collect();
    for text in ["", "\u{0}", "\u{7f}", "\u{2028}\u{2029}", "\u{1F600}", "\\u0041", all_low.as_str()] {
        let doc = RawJson::string(text);
        assert_eq!(doc.as_string().unwrap(), text);
        // The literal is a document of its own.
        assert_eq!(RawJson::from_text(doc.as_str()).unwrap(), doc);
        assert!(doc.as_str().starts_with('"') && doc.as_str().ends_with('"'));
    }
}

#[test]
fn parts_of_a_document_are_documents() {
    let doc = RawJson::parse(b" { \"a\" : [ 1 , { \"b\" : \"c\" } ] , \"d\" : null } ").unwrap();
    assert_eq!(RawJson::from_text(doc.as_str()).unwrap(), doc);
    for (_, value) in doc.fields().unwrap() {
        assert_eq!(RawJson::from_text(value.as_str()).unwrap(), value);
        if let Some(items) = value.items() {
            for item in items {
                assert_eq!(RawJson::from_text(item.as_str()).unwrap(), item);
            }
        }
    }
}

#[test]
fn compress_round_trips_large_and_odd_documents() {
    let long = format!("[{}]", vec!["\"x\""; 50_000].join(","));
    for text in [long.as_str(), "\"\u{1F600}\"", "1e400", "-0", "{\"\":{}}"] {
        let doc = RawJson::from_text(text).unwrap();
        assert_eq!(decompress(&compress(&doc).unwrap()).unwrap(), doc);
    }
}
