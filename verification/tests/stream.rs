use uint_zigzag::stream::{ReadAction, ReadEvent, StreamReader};
use uint_zigzag::Uint;

fn feed(reader: &mut StreamReader, bytes: &[u8]) -> (usize, ReadAction) {
    let mut taken = 0;
    for b in bytes {
        taken += 1;
        let action = reader.step(ReadEvent::Byte(*b));
        if action != ReadAction::ReadByte {
            return (taken, action);
        }
    }
    (taken, ReadAction::ReadByte)
}

#[test]
fn reader_returns_what_writer_wrote() {
    let values = [
        0u128,
        1,
        127,
        128,
        2048,
        345678,
        u64::MAX as u128,
        1u128 << 126,
        u128::MAX,
    ];
    for v in values {
        let bytes = Uint(v).to_vec();
        let mut reader = StreamReader::new();
        assert_eq!(feed(&mut reader, &bytes), (bytes.len(), ReadAction::Finish(Uint(v))));
    }
}

#[test]
fn reader_handles_full_nineteen_byte_form() {
    let bytes = Uint(u128::MAX).to_vec();
    assert_eq!(bytes.len(), 19);
    let mut reader = StreamReader::new();
    for b in &bytes[..18] {
        assert_eq!(reader.step(ReadEvent::Byte(*b)), ReadAction::ReadByte);
    }
    assert_eq!(reader.step(ReadEvent::Byte(bytes[18])), ReadAction::Finish(Uint(u128::MAX)));
}

#[test]
fn reader_stops_at_closing_byte() {
    let mut bytes = Uint(345678).to_vec();
    bytes.extend_from_slice(&[0x11, 0x22]);
    let mut reader = StreamReader::new();
    assert_eq!(feed(&mut reader, &bytes), (3, ReadAction::Finish(Uint(345678))));
}

#[test]
fn reader_reads_values_one_after_another() {
    let mut bytes = Uint(128).to_vec();
    bytes.extend_from_slice(&Uint(5).to_vec());
    let mut reader = StreamReader::new();
    let (used, first) = feed(&mut reader, &bytes);
    assert_eq!(first, ReadAction::Finish(Uint(128)));
    assert_eq!(feed(&mut reader, &bytes[used..]), (1, ReadAction::Finish(Uint(5))));
}

#[test]
fn reader_rejects_nineteen_continuing_bytes() {
    let mut reader = StreamReader::new();
    assert_eq!(feed(&mut reader, &[0x80u8; 30]), (19, ReadAction::FailInvalid));
}

#[test]
fn reader_starts_afresh_after_invalid_sequence() {
    let mut reader = StreamReader::new();
    assert_eq!(feed(&mut reader, &[0xFFu8; 19]), (19, ReadAction::FailInvalid));
    assert_eq!(reader.step(ReadEvent::Byte(0x07)), ReadAction::Finish(Uint(7)));
}

#[test]
fn truncated_source_fails_with_source_error() {
    let bytes = Uint(345678).to_vec();
    for cut in 0..bytes.len() {
        let mut reader = StreamReader::new();
        assert_eq!(feed(&mut reader, &bytes[..cut]), (cut, ReadAction::ReadByte));
        assert_eq!(reader.step(ReadEvent::SourceFailed), ReadAction::FailSource);
    }
}

#[test]
fn empty_source_fails_with_source_error() {
    let mut reader = StreamReader::new();
    assert_eq!(reader.step(ReadEvent::SourceFailed), ReadAction::FailSource);
}

#[test]
fn source_failure_drops_bytes_read_so_far() {
    let mut reader = StreamReader::new();
    assert_eq!(reader.step(ReadEvent::Byte(0x80)), ReadAction::ReadByte);
    assert_eq!(reader.step(ReadEvent::SourceFailed), ReadAction::FailSource);
    assert_eq!(reader.step(ReadEvent::Byte(0x01)), ReadAction::Finish(Uint(1)));
}

#[test]
fn reader_drops_bits_beyond_128() {
    let mut bytes = vec![0x80u8; 18];
    bytes.push(0x7F);
    let mut reader = StreamReader::new();
    assert_eq!(feed(&mut reader, &bytes), (19, ReadAction::Finish(Uint(3u128 << 126))));
}
