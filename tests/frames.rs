use robot_demos::{encode_frame, FrameError, FrameParser, Opcode};

fn stream() -> (Vec<u8>, Vec<(Opcode, Vec<u8>)>) {
    let frames = vec![
        (Opcode::Binary, vec![1, 2, 3]),
        (Opcode::Ping, vec![]),
        (Opcode::Binary, (0..=255u8).cycle().take(700).collect::<Vec<u8>>()),
        (Opcode::Text, b"hello".to_vec()),
        (Opcode::Pong, vec![0]),
    ];
    let mut bytes = Vec::new();
    for (o, p) in &frames {
        bytes.extend(encode_frame(*o, p));
    }
    (bytes, frames)
}

fn feed(chunks: &[&[u8]]) -> Vec<(Opcode, Vec<u8>)> {
    let mut parser = FrameParser::new();
    let mut out = Vec::new();
    for c in chunks {
        if let Some(fs) = parser.parse(c).unwrap() {
            assert!(!fs.is_empty());
            out.extend(fs);
        }
    }
    out
}

#[test]
fn frame_header_bytes() {
    assert_eq!(encode_frame(Opcode::Binary, &[7, 8]), vec![0x82, 0, 2, 0, 7, 8]);
    let big = encode_frame(Opcode::Text, &vec![0; 300]);
    assert_eq!(&big[..4], &[0x81, 0, 44, 1]);
}

#[test]
fn whole_stream_parses() {
    let (bytes, frames) = stream();
    assert_eq!(feed(&[&bytes]), frames);
}

#[test]
fn split_at_every_boundary() {
    let (bytes, frames) = stream();
    for cut in 0..=bytes.len() {
        let (a, b) = bytes.split_at(cut);
        assert_eq!(feed(&[a, b]), frames, "cut at {}", cut);
    }
}

#[test]
fn byte_by_byte() {
    let (bytes, frames) = stream();
    let chunks: Vec<&[u8]> = bytes.chunks(1).collect();
    assert_eq!(feed(&chunks), frames);
}

#[test]
fn partial_frame_waits() {
    let mut parser = FrameParser::new();
    assert_eq!(parser.parse(&[]), Ok(None));
    assert_eq!(parser.parse(&[0x82, 0, 3]), Ok(None));
    assert_eq!(parser.parse(&[0, 1, 2]), Ok(None));
    assert_eq!(parser.parse(&[3, 0x89]), Ok(Some(vec![(Opcode::Binary, vec![1, 2, 3])])));
}

#[test]
fn bad_header_then_resync() {
    let mut parser = FrameParser::new();
    assert_eq!(parser.parse(&[0x42, 0, 0, 0]), Err(FrameError::InvalidHeader));
    assert_eq!(parser.parse(&[0x85, 0, 0, 0]), Err(FrameError::InvalidHeader));
    let good = encode_frame(Opcode::Binary, &[9]);
    assert_eq!(parser.parse(&good), Ok(Some(vec![(Opcode::Binary, vec![9])])));
}
