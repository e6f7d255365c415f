//! Packages, content conversion, text decoding and chunk concatenation.

use conveyor::{
    drive, to_package, to_text, ConcatStream, ConveyorError, Package, PackageContent, Station,
    VecStream,
};

#[test]
fn to_text_decodes_utf8() {
    let chain = to_text();
    let ret = drive(chain.execute(b"Hello".to_vec())).unwrap();
    assert_eq!(ret, "Hello");
}

#[test]
fn to_text_decodes_multibyte_sequences() {
    let bytes = vec![0xC3, 0xA9, 0x21];
    let ret = drive(to_text().execute(bytes)).unwrap();
    assert_eq!(ret, "\u{e9}!");
}

#[test]
fn to_text_rejects_invalid_bytes() {
    let ret = drive(to_text().execute(vec![0xFF, 0xFE]));
    assert!(ret.is_err());
}

#[test]
fn package_carries_named_content() {
    let station = to_package::<Vec<u8>>("greeting");
    let mut p = drive(station.execute(vec![1, 2, 3])).unwrap();
    assert_eq!(p.name(), "greeting");
    let body = drive(p.read_content()).unwrap();
    assert_eq!(body, vec![1, 2, 3]);
    // reading again finds the content already taken
    let again = drive(p.read_content()).unwrap();
    assert!(again.is_empty());
}

#[test]
fn package_renaming_keeps_content() {
    let p = Package::new("first", b"payload".as_slice().to_vec());
    let mut p = p.set_name("second");
    assert_eq!(p.name(), "second");
    let body = drive(p.read_content()).unwrap();
    assert_eq!(body, b"payload".to_vec());
}

#[test]
fn package_from_text() {
    let mut p = Package::new("text", "pay\u{e9}load");
    let body = drive(p.read_content()).unwrap();
    assert_eq!(body, "pay\u{e9}load".as_bytes().to_vec());
}

#[test]
fn set_value_replaces_content() {
    let p = Package::new("n", PackageContent::Empty);
    let mut p = p.set_value(vec![9u8]);
    let body = drive(p.read_content()).unwrap();
    assert_eq!(body, vec![9u8]);
}

#[test]
fn concat_stream_joins_chunks() {
    let chunks: Vec<Result<Vec<u8>, ConveyorError>> = vec![Ok(vec![1, 2]), Ok(vec![]), Ok(vec![3])];
    let c = ConcatStream::new(VecStream::new(chunks));
    let ret = drive(c).unwrap();
    assert_eq!(ret, vec![1, 2, 3]);
}

#[test]
fn concat_stream_stops_at_first_error() {
    let chunks: Vec<Result<Vec<u8>, ConveyorError>> = vec![
        Ok(vec![1]),
        Err(ConveyorError::new("broken chunk")),
        Ok(vec![2]),
    ];
    let c = ConcatStream::new(VecStream::new(chunks));
    let err = drive(c).unwrap_err();
    assert_eq!(err.message(), "broken chunk");
}

#[test]
fn concat_stream_of_nothing_is_empty() {
    let chunks: Vec<Result<Vec<u8>, ConveyorError>> = Vec::new();
    let c = ConcatStream::new(VecStream::new(chunks));
    let ret = drive(c).unwrap();
    assert!(ret.is_empty());
}
