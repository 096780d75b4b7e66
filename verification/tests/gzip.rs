use metrics_controller::gzip::{Gzip, HEADER_OS};

#[test]
fn test_encode() {
    let input = "11111222223333344444";
    let mut v_expected = Vec::new();
    v_expected.extend_from_slice(&[
        31, 139, 8, 0, 0, 0, 0, 0, 0, 7, 51, 52, 4, 2, 35, 16, 48, 6, 1, 19, 16, 0, 0, 103, 130,
        220, 216, 20, 0, 0, 0,
    ]);

    let compressed = Gzip::new(input).encode();

    assert_eq!(compressed, Some(v_expected));
}

#[test]
fn the_stream_begins_with_the_gzip_header() {
    let stream = Gzip::new("").encode().unwrap();
    assert_eq!(&stream[..4], &[0x1f, 0x8b, 8, 0]);
    assert_eq!(stream[9], HEADER_OS);
    assert_eq!(&stream[stream.len() - 4..], &[0, 0, 0, 0]);
}

#[test]
fn a_long_body_gets_shorter() {
    let line = "v=1&t=event&tid=UA-77033033-1&ec=category&ea=action&el=label&ev=1\n";
    let body = line.repeat(20);
    let stream = Gzip::new(&body).encode().unwrap();
    assert!(stream.len() < body.len());
    let size = (body.len() as u32).to_le_bytes();
    assert_eq!(&stream[stream.len() - 4..], &size);
}

#[test]
fn the_same_text_gives_the_same_stream() {
    let first = Gzip::new("héllo wörld").encode();
    let second = Gzip::new("héllo wörld").encode();
    assert!(first.is_some());
    assert_eq!(first, second);
    assert_ne!(first, Gzip::new("hello world").encode());
}
