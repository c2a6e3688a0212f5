use forge_core::utf8_stream::{scan_step, Utf8Step, Utf8StreamDecoder};

#[test]
fn utf8_stream_decoder_preserves_split_codepoints() {
    let mut decoder = Utf8StreamDecoder::default();
    let mut output = String::new();
    let mut chunks: Vec<String> = Vec::new();
    chunks.extend(decoder.push(&[0xf0, 0x9f], &mut output));
    chunks.extend(decoder.push(&[0x98, 0x80], &mut output));
    chunks.extend(decoder.finish(&mut output));
    assert_eq!(output, "😀");
    assert_eq!(chunks, vec!["😀"]);
}

#[test]
fn invalid_bytes_become_replacement_characters() {
    let mut decoder = Utf8StreamDecoder::default();
    let mut output = String::new();
    let chunks = decoder.push(b"ab\xffcd", &mut output);
    assert_eq!(output, "ab\u{fffd}cd");
    assert_eq!(chunks, vec!["ab", "\u{fffd}", "cd"]);
}

#[test]
fn truncated_sequence_is_replaced_at_finish() {
    let mut decoder = Utf8StreamDecoder::default();
    let mut output = String::new();
    assert!(decoder.push(&[b'x', 0xe2, 0x82], &mut output) == vec!["x"]);
    let tail = decoder.finish(&mut output);
    assert_eq!(tail, vec!["\u{fffd}"]);
    assert_eq!(output, "x\u{fffd}");
    assert!(decoder.finish(&mut output).is_empty());
}

#[test]
fn matches_lossy_decoding_for_every_split() {
    let bytes: Vec<u8> = b"h\xc3\xa9llo \xe2\x82\xac \xf0\x9f\x98\x80 \xed\xa0\x80 \xc0\xaf \xf4\x90".to_vec();
    let expected = String::from_utf8_lossy(&bytes).into_owned();
    for split in 0..=bytes.len() {
        let mut decoder = Utf8StreamDecoder::default();
        let mut output = String::new();
        let mut chunks: Vec<String> = Vec::new();
        chunks.extend(decoder.push(&bytes[..split], &mut output));
        chunks.extend(decoder.push(&bytes[split..], &mut output));
        chunks.extend(decoder.finish(&mut output));
        assert_eq!(output, expected, "split at {split}");
        assert_eq!(chunks.concat(), expected);
    }
}

#[test]
fn steps_follow_the_well_formed_byte_table() {
    assert_eq!(scan_step(&vec![0x41], 0), Utf8Step::Scalar(1));
    assert_eq!(scan_step(&vec![0xc3, 0xa9], 0), Utf8Step::Scalar(2));
    assert_eq!(scan_step(&vec![0xe0, 0x80, 0x80], 0), Utf8Step::Invalid(1));
    assert_eq!(scan_step(&vec![0xe2, 0x82, 0x41], 0), Utf8Step::Invalid(2));
    assert_eq!(scan_step(&vec![0xf0, 0x9f, 0x98], 0), Utf8Step::Incomplete);
    assert_eq!(scan_step(&vec![0xf0, 0x9f, 0x98, 0x41], 0), Utf8Step::Invalid(3));
    assert_eq!(scan_step(&vec![0x41, 0xf5], 1), Utf8Step::Invalid(1));
}

#[test]
fn many_pushes_give_the_lossy_decoding() {
    let parts: [&[u8]; 4] = [b"a\xf0\x9f", b"\x98", b"\x80\xffb", b"\xe2\x82"];
    let mut decoder = Utf8StreamDecoder::default();
    let mut output = String::from(">");
    let mut chunks: Vec<String> = Vec::new();
    for p in parts {
        chunks.extend(decoder.push(p, &mut output));
    }
    chunks.extend(decoder.finish(&mut output));
    let all: Vec<u8> = parts.concat();
    let expected = String::from_utf8_lossy(&all).into_owned();
    assert_eq!(output, format!(">{expected}"));
    assert_eq!(chunks.concat(), expected);
    assert_eq!(expected, "a\u{1F600}\u{FFFD}b\u{FFFD}");
}
