use vox::wire::{
    bytes_arg_fits, extend_bytes, output_empty, output_error, output_handle_err, output_handle_ok, output_nil_error,
    output_str_err, output_str_ok, output_tag_bytes, output_tag_value, push_tag_bytes, push_tag_value, read_bytes_arg,
    read_value_arg, TAG_BYTES, TAG_VALUE,
};

fn tag_value(v: u64) -> Vec<u8> {
    let mut out = vec![0xE2];
    out.extend_from_slice(&v.to_le_bytes());
    out
}

fn tag_bytes(d: &[u8]) -> Vec<u8> {
    let mut out = vec![0xE3];
    out.extend_from_slice(&(d.len() as u32).to_le_bytes());
    out.extend_from_slice(d);
    out
}

#[test]
fn tags() {
    assert_eq!(TAG_VALUE, 0xE2);
    assert_eq!(TAG_BYTES, 0xE3);
}

#[test]
fn value_result_layout() {
    assert_eq!(output_tag_value(0x0102030405060708), vec![0xE2, 8, 7, 6, 5, 4, 3, 2, 1]);
    let mut v = vec![9];
    push_tag_value(&mut v, 1);
    assert_eq!(v, vec![9, 0xE2, 1, 0, 0, 0, 0, 0, 0, 0]);
}

#[test]
fn bytes_result_layout() {
    assert_eq!(output_tag_bytes(b"ab"), vec![0xE3, 2, 0, 0, 0, b'a', b'b']);
    let mut v = Vec::new();
    push_tag_bytes(&mut v, b"");
    assert_eq!(v, vec![0xE3, 0, 0, 0, 0]);
}

#[test]
fn composite_results() {
    assert!(output_empty().is_empty());
    assert_eq!(output_nil_error(), tag_bytes(b""));
    assert_eq!(output_error(b"bad"), tag_bytes(b"bad"));
    let mut ok = tag_value(3);
    ok.extend(tag_bytes(b""));
    assert_eq!(output_handle_ok(3), ok);
    let mut neg = tag_value(u64::MAX);
    neg.extend(tag_bytes(b""));
    assert_eq!(output_handle_ok(-1), neg);
    let mut err = tag_value(0);
    err.extend(tag_bytes(b"no"));
    assert_eq!(output_handle_err(b"no"), err);
    let mut sok = tag_bytes(b"out");
    sok.extend(tag_bytes(b""));
    assert_eq!(output_str_ok(b"out"), sok);
    let mut serr = tag_bytes(b"");
    serr.extend(tag_bytes(b"e"));
    assert_eq!(output_str_err(b"e"), serr);
}

#[test]
fn arguments_read_back() {
    let mut buf = Vec::new();
    buf.extend_from_slice(&77u64.to_le_bytes());
    buf.extend_from_slice(&3u32.to_le_bytes());
    buf.extend_from_slice(b"xyz");
    buf.push(0);
    let (v, off) = read_value_arg(&buf, 0);
    assert_eq!((v, off), (77, 8));
    assert!(bytes_arg_fits(&buf, off));
    let (d, end) = read_bytes_arg(&buf, off);
    assert_eq!(d, b"xyz");
    assert_eq!(end, 15);
}

#[test]
fn bytes_argument_that_does_not_fit() {
    let mut buf = Vec::new();
    buf.extend_from_slice(&10u32.to_le_bytes());
    buf.extend_from_slice(b"short");
    assert!(!bytes_arg_fits(&buf, 0));
    assert!(!bytes_arg_fits(&buf, 7));
    assert!(!bytes_arg_fits(&buf, 100));
    assert!(!bytes_arg_fits(&[1, 0], 0));
}

#[test]
fn tagged_bytes_read_back_past_the_tag() {
    let out = output_tag_bytes(b"hello");
    assert!(bytes_arg_fits(&out, 1));
    let (d, end) = read_bytes_arg(&out, 1);
    assert_eq!(d, b"hello");
    assert_eq!(end, out.len());
}

#[test]
fn extend_appends() {
    let mut v = vec![1, 2];
    extend_bytes(&mut v, &[3, 4]);
    assert_eq!(v, vec![1, 2, 3, 4]);
}
