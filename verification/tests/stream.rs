use riprs::command::Command;
use riprs::error::DecodeError;
use riprs::parser::ripscrip;
use riprs::stream::StreamDecoder;
use riprs::structs::{PaletteColor, XY};

#[test]
fn split_inside_a_numeral() {
    let mut decoder = StreamDecoder::new();
    assert_eq!(decoder.feed(b"!|c0"), Err(DecodeError::NeedMoreInput));
    assert_eq!(decoder.pending(), 4);
    let (cmds, rest) = decoder.feed(b"3").unwrap();
    assert_eq!(decoder.pending(), 0);
    assert!(rest.is_empty());
    let (whole, used) = ripscrip("!|c03").unwrap();
    assert_eq!(cmds, whole);
    assert_eq!(used, 5);
    assert_eq!(cmds, vec![Command::Color { color: PaletteColor::try_from(3u8).unwrap() }]);
}

#[test]
fn every_split_of_a_viewport_command() {
    let text = b"!|v00000Z0Z";
    for cut in 0..text.len() {
        let want = vec![Command::Viewport { corners: (XY { x: 0, y: 0 }, XY { x: 35, y: 35 }) }];
        let mut decoder = StreamDecoder::new();
        assert_eq!(decoder.feed(&text[..cut]), Err(DecodeError::NeedMoreInput));
        assert_eq!(decoder.pending(), cut);
        assert_eq!(decoder.feed(&text[cut..]), Ok((want, vec![])));
    }
}

#[test]
fn byte_by_byte() {
    let text = b"!|*|g0102|c0F";
    let mut decoder = StreamDecoder::new();
    let mut results = Vec::new();
    for b in text.iter() {
        results.push(decoder.feed(&[*b]));
    }
    // "!|*" is a whole batch as soon as it has arrived; what follows it then
    // starts without a batch marker.
    assert_eq!(results[0], Err(DecodeError::NeedMoreInput));
    assert_eq!(results[1], Err(DecodeError::NeedMoreInput));
    assert_eq!(results[2], Ok((vec![Command::ResetWindows], vec![])));
    assert_eq!(results[3], Err(DecodeError::InvalidFraming));
    assert_eq!(decoder.pending(), 0);
}

#[test]
fn a_hard_error_drops_the_input() {
    let mut decoder = StreamDecoder::new();
    assert_eq!(decoder.feed(b"!|c9"), Err(DecodeError::NeedMoreInput));
    assert_eq!(decoder.feed(b"9"), Err(DecodeError::ValueOutOfRange));
    assert_eq!(decoder.pending(), 0);
    assert_eq!(decoder.feed(b"!|H"), Ok((vec![Command::Home], vec![])));
}

#[test]
fn what_follows_the_batch_is_handed_back() {
    let mut decoder = StreamDecoder::new();
    assert_eq!(decoder.feed(b"!|"), Err(DecodeError::NeedMoreInput));
    assert_eq!(decoder.feed(b"H\r\nplain"), Ok((vec![Command::Home], b"\r\nplain".to_vec())));
    assert_eq!(decoder.pending(), 0);
}

#[test]
fn an_empty_chunk_changes_nothing() {
    let mut decoder = StreamDecoder::new();
    assert_eq!(decoder.feed(b""), Err(DecodeError::NeedMoreInput));
    assert_eq!(decoder.feed(b"!|g01"), Err(DecodeError::NeedMoreInput));
    assert_eq!(decoder.feed(b""), Err(DecodeError::NeedMoreInput));
    assert_eq!(decoder.pending(), 5);
}
