use ut61e::{Frame, Framer, CR, FRAME_LEN, LF};

/// A well-terminated frame: twelve payload bytes, then CR LF.
fn clean_frame() -> Vec<u8> {
    let mut bytes = vec![0x32, 0x30, 0x30, 0x31, 0x32, 0x33, 0x3B, 0x30, 0x30, 0x30, 0x38, 0x30];
    bytes.push(CR);
    bytes.push(LF);
    bytes
}

fn push_all(framer: &mut Framer, bytes: &[u8]) -> Vec<Frame> {
    let mut emitted = Vec::new();
    for &b in bytes {
        if let Some(frame) = framer.push(b) {
            emitted.push(frame);
        }
    }
    emitted
}

#[test]
fn clean_frame_emits_exactly_once() {
    let bytes = clean_frame();
    let mut framer = Framer::new();
    for (i, &b) in bytes.iter().enumerate() {
        let emitted = framer.push(b);
        if i < FRAME_LEN - 1 {
            assert!(emitted.is_none(), "no frame may come before the final line feed");
        } else {
            let frame = emitted.expect("the final line feed completes the frame");
            assert_eq!(frame.bytes().as_slice(), bytes.as_slice());
        }
    }
}

#[test]
fn spurious_line_feed_resets_without_emitting() {
    let mut framer = Framer::new();
    // Five bytes of a partial frame, then a line feed: the window is
    // nowhere near full, so the framer resynchronizes silently.
    assert!(push_all(&mut framer, &[0x31, 0x32, 0x33, 0x34, 0x35, LF]).is_empty());
    // A full, well-terminated frame afterwards still comes out whole.
    let bytes = clean_frame();
    let emitted = push_all(&mut framer, &bytes);
    assert_eq!(emitted.len(), 1);
    assert_eq!(emitted[0].bytes().as_slice(), bytes.as_slice());
}

#[test]
fn line_feed_without_carriage_return_resets() {
    let mut framer = Framer::new();
    // Thirteen bytes, none of them CR, then a line feed: the window is
    // full but not properly terminated, so nothing is emitted.
    let mut noise = vec![0x31; 13];
    noise.push(LF);
    assert!(push_all(&mut framer, &noise).is_empty());
    // The reset leaves the framer clean for the next frame.
    let bytes = clean_frame();
    let emitted = push_all(&mut framer, &bytes);
    assert_eq!(emitted.len(), 1);
    assert_eq!(emitted[0].bytes().as_slice(), bytes.as_slice());
}

#[test]
fn window_slides_over_leading_noise() {
    let mut framer = Framer::new();
    // Eight bytes of leading noise, then a full frame: the ring
    // buffer evicts the noise byte by byte, and the line feed finds a
    // full window holding exactly the frame.
    let mut stream = vec![0x41, 0x42, 0x43, 0x44, 0x45, 0x46, 0x47, 0x48];
    let bytes = clean_frame();
    stream.extend_from_slice(&bytes);
    let emitted = push_all(&mut framer, &stream);
    assert_eq!(emitted.len(), 1);
    assert_eq!(emitted[0].bytes().as_slice(), bytes.as_slice());
}

#[test]
fn early_terminator_does_not_emit() {
    let mut framer = Framer::new();
    // CR LF after only five payload bytes: the window is not full, so
    // this is noise, not a frame.
    assert!(push_all(&mut framer, &[0x31, 0x32, 0x33, 0x34, 0x35, CR, LF]).is_empty());
}

#[test]
fn back_to_back_frames_both_emit() {
    let mut framer = Framer::new();
    let bytes = clean_frame();
    let mut stream = bytes.clone();
    stream.extend_from_slice(&bytes);
    let emitted = push_all(&mut framer, &stream);
    assert_eq!(emitted.len(), 2);
    assert_eq!(emitted[0].bytes().as_slice(), bytes.as_slice());
    assert_eq!(emitted[1].bytes().as_slice(), bytes.as_slice());
}

#[test]
fn frame_new_accepts_only_full_length() {
    assert!(Frame::new(vec![0; FRAME_LEN - 1]).is_none());
    assert!(Frame::new(vec![0; FRAME_LEN + 1]).is_none());
    let frame = Frame::new(clean_frame()).expect("fourteen bytes make a frame");
    assert_eq!(frame.bytes().as_slice(), clean_frame().as_slice());
}
