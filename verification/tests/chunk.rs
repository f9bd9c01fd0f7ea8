use pmsg::{Chunk, ChunkType, Error};
use std::convert::TryFrom;

fn record(data_length: u32, chunk_type: &[u8; 4], data: &[u8], crc: u32) -> Vec<u8> {
    data_length
        .to_be_bytes()
        .iter()
        .chain(chunk_type.iter())
        .chain(data.iter())
        .chain(crc.to_be_bytes().iter())
        .copied()
        .collect()
}

fn testing_record() -> Vec<u8> {
    record(
        42,
        b"RuSt",
        b"This is where your secret message will be!",
        2882656334,
    )
}

fn testing_chunk() -> Chunk {
    let data_length: u32 = 42;
    let chunk_type = b"RuSt";
    let message_bytes = b"This is where your secret message will be!";
    let crc: u32 = 2882656334;

    let chunk_data: Vec<u8> = data_length
        .to_be_bytes()
        .iter()
        .chain(chunk_type.iter())
        .chain(message_bytes.iter())
        .chain(crc.to_be_bytes().iter())
        .copied()
        .collect();

    Chunk::try_from(chunk_data.as_ref()).unwrap()
}

#[test]
fn test_chunk_length() {
    let chunk = testing_chunk();
    assert_eq!(chunk.length(), 42);
}

#[test]
fn test_chunk_type() {
    let chunk = testing_chunk();
    assert_eq!(chunk.chunk_type().to_string(), String::from("RuSt"));
}

#[test]
fn test_chunk_string() {
    let chunk = testing_chunk();
    let chunk_string = chunk.data_as_string().unwrap();
    let expected_chunk_string = String::from("This is where your secret message will be!");
    assert_eq!(chunk_string, expected_chunk_string);
}

#[test]
fn test_chunk_crc() {
    let chunk = testing_chunk();
    assert_eq!(chunk.crc(), 2882656334);
}

#[test]
fn test_valid_chunk_from_bytes() {
    let data_length: u32 = 42;
    let chunk_type = b"RuSt";
    let message_bytes = b"This is where your secret message will be!";
    let crc: u32 = 2882656334;

    let chunk_data: Vec<u8> = data_length
        .to_be_bytes()
        .iter()
        .chain(chunk_type.iter())
        .chain(message_bytes.iter())
        .chain(crc.to_be_bytes().iter())
        .copied()
        .collect();

    let chunk = Chunk::try_from(chunk_data.as_ref()).unwrap();

    let chunk_string = chunk.data_as_string().unwrap();
    let expected_chunk_string = String::from("This is where your secret message will be!");

    assert_eq!(chunk.length(), 42);
    assert_eq!(chunk.chunk_type().to_string(), String::from("RuSt"));
    assert_eq!(chunk_string, expected_chunk_string);
    assert_eq!(chunk.crc(), 2882656334);
}

#[test]
fn test_invalid_chunk_from_bytes() {
    let data_length: u32 = 42;
    let chunk_type = b"RuSt";
    let message_bytes = b"This is where your secret message will be!";
    let crc: u32 = 2882656333;

    let chunk_data: Vec<u8> = data_length
        .to_be_bytes()
        .iter()
        .chain(chunk_type.iter())
        .chain(message_bytes.iter())
        .chain(crc.to_be_bytes().iter())
        .copied()
        .collect();

    let chunk = Chunk::try_from(chunk_data.as_ref());

    assert!(chunk.is_err());
}

#[test]
pub fn test_chunk_trait_impls() {
    let data_length: u32 = 42;
    let chunk_type = b"RuSt";
    let message_bytes = b"This is where your secret message will be!";
    let crc: u32 = 2882656334;

    let chunk_data: Vec<u8> = data_length
        .to_be_bytes()
        .iter()
        .chain(chunk_type.iter())
        .chain(message_bytes.iter())
        .chain(crc.to_be_bytes().iter())
        .copied()
        .collect();

    let chunk: Chunk = TryFrom::try_from(chunk_data.as_ref()).unwrap();

    let _chunk_string = chunk.to_string();
}

#[test]
fn new_computes_length_and_checksum() {
    let message = b"This is where your secret message will be!";
    let chunk = Chunk::new(ChunkType::new(*b"RuSt"), message.to_vec()).unwrap();
    assert_eq!(chunk.length(), 42);
    assert_eq!(*chunk.chunk_type(), ChunkType::new(*b"RuSt"));
    assert_eq!(chunk.data(), &message[..]);
    assert_eq!(chunk.crc(), 2882656334);
}

#[test]
fn new_of_a_blob() {
    let chunk = Chunk::new(ChunkType::new(*b"bLOb"), b"THE CHUNK DATA".to_vec()).unwrap();
    assert_eq!(chunk.length(), 14);
    assert_eq!(chunk.chunk_type().bytes(), *b"bLOb");
    assert_eq!(chunk.data(), b"THE CHUNK DATA");
    assert_eq!(chunk.crc(), 4148869028);
}

#[test]
fn new_of_no_data() {
    let chunk = Chunk::new(ChunkType::new(*b"IEND"), Vec::new()).unwrap();
    assert_eq!(chunk.length(), 0);
    assert_eq!(chunk.data(), b"");
    assert_eq!(chunk.crc(), 0xae42_6082);
    assert_eq!(
        chunk.as_bytes(),
        vec![0, 0, 0, 0, 0x49, 0x45, 0x4e, 0x44, 0xae, 0x42, 0x60, 0x82]
    );
}

#[test]
fn checksum_covers_type_and_data() {
    let data = b"123456789".to_vec();
    let one = Chunk::new(ChunkType::new(*b"RuSt"), data.clone()).unwrap();
    let other = Chunk::new(ChunkType::new(*b"RuSu"), data).unwrap();
    assert_ne!(one.crc(), other.crc());
    let short = Chunk::new(ChunkType::new(*b"1234"), b"56789".to_vec()).unwrap();
    assert_eq!(short.crc(), 0xcbf4_3926);
}

#[test]
fn new_accepts_a_type_that_is_not_valid() {
    let chunk_type = ChunkType::new(*b"R1st");
    assert!(!chunk_type.is_valid());
    let chunk = Chunk::new(chunk_type, vec![1, 2, 3]).unwrap();
    assert_eq!(chunk.chunk_type().bytes(), *b"R1st");
    let parsed = Chunk::try_from(chunk.as_bytes().as_slice()).unwrap();
    assert_eq!(parsed.chunk_type().bytes(), *b"R1st");
    assert_eq!(parsed.data(), &[1, 2, 3]);
}

#[test]
fn new_refuses_data_above_the_limit() {
    let data = vec![0u8; (1usize << 31) + 1];
    assert_eq!(
        Chunk::new(ChunkType::new(*b"RuSt"), data).err(),
        Some(Error::InvalidChunkLength)
    );
}

#[test]
fn as_bytes_is_the_record() {
    let chunk = testing_chunk();
    assert_eq!(chunk.as_bytes(), testing_record());
    let made = Chunk::new(ChunkType::new(*b"bLOb"), b"THE CHUNK DATA".to_vec()).unwrap();
    assert_eq!(
        made.as_bytes(),
        record(14, b"bLOb", b"THE CHUNK DATA", 4148869028)
    );
}

#[test]
fn round_trip_keeps_every_field() {
    let payloads: [&[u8]; 4] = [b"", b"a", b"THE CHUNK DATA", &[0xff, 0x00, 0x80, 0x7f, 0xc3]];
    let codes: [[u8; 4]; 3] = [*b"RuSt", *b"IDAT", *b"tEXt"];
    for code in codes.iter() {
        for payload in payloads.iter() {
            let made = Chunk::new(ChunkType::new(*code), payload.to_vec()).unwrap();
            let parsed = Chunk::try_from(made.as_bytes().as_slice()).unwrap();
            assert_eq!(parsed.length(), made.length());
            assert_eq!(parsed.chunk_type(), made.chunk_type());
            assert_eq!(parsed.data(), made.data());
            assert_eq!(parsed.crc(), made.crc());
            assert_eq!(parsed.as_bytes(), made.as_bytes());
        }
    }
}

#[test]
fn bytes_behind_the_record_are_not_read() {
    let mut raw = testing_record();
    raw.extend_from_slice(&[0xde, 0xad, 0xbe, 0xef, 0x00]);
    let chunk = Chunk::try_from(raw.as_slice()).unwrap();
    assert_eq!(chunk.length(), 42);
    assert_eq!(chunk.crc(), 2882656334);
    assert_eq!(chunk.as_bytes(), testing_record());
}

#[test]
fn every_shorter_input_is_truncated() {
    let raw = testing_record();
    assert_eq!(raw.len(), 4 + 4 + 42 + 4);
    for end in 0..raw.len() {
        assert_eq!(
            Chunk::try_from(&raw[..end]).err(),
            Some(Error::Truncated),
            "input of {} bytes",
            end
        );
    }
    assert!(Chunk::try_from(&raw[..]).is_ok());
}

#[test]
fn oversized_length_is_refused_whatever_follows() {
    let only_length: [u8; 4] = [0x80, 0x00, 0x00, 0x01];
    assert_eq!(
        Chunk::try_from(&only_length[..]).err(),
        Some(Error::InvalidChunkLength)
    );
    let all_ones: [u8; 4] = [0xff, 0xff, 0xff, 0xff];
    assert_eq!(
        Chunk::try_from(&all_ones[..]).err(),
        Some(Error::InvalidChunkLength)
    );
    let mut raw = testing_record();
    raw[0] = 0x90;
    assert_eq!(
        Chunk::try_from(raw.as_slice()).err(),
        Some(Error::InvalidChunkLength)
    );
}

#[test]
fn largest_length_is_allowed_and_then_truncated() {
    let mut raw = testing_record();
    raw[0] = 0x80;
    raw[3] = 0x00;
    assert_eq!(Chunk::try_from(raw.as_slice()).err(), Some(Error::Truncated));
}

#[test]
fn a_flipped_bit_in_type_or_data_is_an_invalid_checksum() {
    let raw = testing_record();
    for at in 4..(8 + 42) {
        for bit in 0..8 {
            let mut altered = raw.clone();
            altered[at] ^= 1 << bit;
            assert_eq!(
                Chunk::try_from(altered.as_slice()).err(),
                Some(Error::InvalidCRC),
                "byte {} bit {}",
                at,
                bit
            );
        }
    }
}

#[test]
fn an_altered_checksum_byte_is_an_invalid_checksum() {
    let raw = testing_record();
    for at in (8 + 42)..raw.len() {
        for bit in 0..8 {
            let mut altered = raw.clone();
            altered[at] ^= 1 << bit;
            assert_eq!(
                Chunk::try_from(altered.as_slice()).err(),
                Some(Error::InvalidCRC)
            );
        }
        let mut altered = raw.clone();
        altered[at] = altered[at].wrapping_add(1);
        assert_eq!(
            Chunk::try_from(altered.as_slice()).err(),
            Some(Error::InvalidCRC)
        );
    }
}

#[test]
fn parsing_recovers_the_exact_data() {
    let chunk = Chunk::try_from(testing_record().as_slice()).unwrap();
    assert_eq!(
        chunk.data(),
        b"This is where your secret message will be!"
    );
    assert_eq!(chunk.chunk_type().bytes(), *b"RuSt");
    assert!(chunk.chunk_type().is_valid());
}

#[test]
fn to_string_shows_type_and_quoted_data() {
    let chunk = testing_chunk();
    assert_eq!(
        chunk.to_string(),
        "RuSt\"This is where your secret message will be!\""
    );
    let empty = Chunk::new(ChunkType::new(*b"IEND"), Vec::new()).unwrap();
    assert_eq!(empty.to_string(), "IEND\"\"");
}

#[test]
fn data_that_is_not_utf8_is_shown_but_not_decoded() {
    let chunk = Chunk::new(ChunkType::new(*b"RuSt"), vec![0x41, 0xff, 0x42]).unwrap();
    assert_eq!(chunk.to_string(), "RuSt\"A\u{fffd}B\"");
    assert_eq!(chunk.data_as_string().err(), Some(Error::InvalidUtf8));
    let cut = Chunk::new(ChunkType::new(*b"RuSt"), vec![0xe2, 0x82]).unwrap();
    assert_eq!(cut.data_as_string().err(), Some(Error::InvalidUtf8));
    assert_eq!(cut.to_string(), "RuSt\"\u{fffd}\"");
}

#[test]
fn data_as_string_decodes_utf8() {
    let text = "gr\u{fc}\u{df}e \u{20ac} \u{1f600}";
    let chunk = Chunk::new(ChunkType::new(*b"tEXt"), text.as_bytes().to_vec()).unwrap();
    assert_eq!(chunk.data_as_string().unwrap(), text);
    assert_eq!(chunk.to_string(), format!("tEXt\"{}\"", text));
    let empty = Chunk::new(ChunkType::new(*b"tEXt"), Vec::new()).unwrap();
    assert_eq!(empty.data_as_string().unwrap(), "");
}
