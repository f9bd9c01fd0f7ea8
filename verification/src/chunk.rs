//! A chunk: data under a type code, guarded by a checksum, and the record
//! that carries it on the wire.

use crate::checksum::{checksum_ieee, crc32_ieee};
use crate::chunk_type::ChunkType;
use crate::endian::{
    be_bytes, be_value, from_be_bytes, lemma_bytes_of_value, lemma_value_of_bytes, to_be_bytes,
};
use crate::error::Error;
use crate::text::{ascii_text, decode_lossy, is_ascii_bytes, utf8_lossy};
use vstd::prelude::*;
use vstd::slice::{slice_subrange, slice_to_vec};
use vstd::string::StringExecFns;
use vstd::utf8::{decode_utf8, valid_utf8};

verus! {

/// The most bytes of data that a chunk can hold: 2^31.
pub const MAX_LENGTH: u32 = 0x8000_0000;

/// What a chunk is: a type code and data. Its length and its checksum follow
/// from these two.
pub struct ChunkView {
    /// The four bytes of the type code.
    pub chunk_type: Seq<u8>,
    /// The bytes of data.
    pub data: Seq<u8>,
}

impl ChunkView {
    /// Whether this can be a chunk: a code of four bytes, and no more data
    /// than the length field allows.
    pub open spec fn wf(self) -> bool {
        &&& self.chunk_type.len() == 4
        &&& self.data.len() <= MAX_LENGTH
    }

    /// The number of bytes of data.
    pub open spec fn length(self) -> nat {
        self.data.len()
    }

    /// The checksum: CRC-32/IEEE over the type code followed by the data.
    pub open spec fn crc(self) -> u32 {
        crc32_ieee(self.chunk_type + self.data)
    }

    /// The chunk as a line of text for a reader: the type code as text, then
    /// the data between double quotes, both read as UTF-8 with U+FFFD in
    /// place of what is not valid.
    pub open spec fn text(self) -> Seq<char> {
        utf8_lossy(self.chunk_type) + seq!['"'] + utf8_lossy(self.data) + seq!['"']
    }

    /// The record on the wire: the length, the type code, the data and the
    /// checksum, both numbers in big-endian order.
    pub open spec fn as_bytes(self) -> Seq<u8> {
        be_bytes(self.data.len() as u32) + self.chunk_type + self.data + be_bytes(self.crc())
    }
}

/// The data length that a record declares in its first four bytes.
pub open spec fn declared_length(raw: Seq<u8>) -> u32
    recommends
        raw.len() >= 4,
{
    be_value(raw.subrange(0, 4))
}

/// What reading a record from the front of `raw` gives. The steps, in this
/// order: the length is read, and one above 2^31 is `InvalidChunkLength`; the
/// type code, that many bytes of data and the checksum are read; a checksum
/// that is not the one computed over type code and data is `InvalidCRC`.
/// Input that ends before a step has its bytes is `Truncated`. Bytes behind
/// the record are not looked at.
pub open spec fn parse_record(raw: Seq<u8>) -> Result<ChunkView, Error> {
    if raw.len() < 4 {
        Err(Error::Truncated)
    } else if declared_length(raw) > MAX_LENGTH {
        Err(Error::InvalidChunkLength)
    } else if raw.len() < 12 + declared_length(raw) {
        Err(Error::Truncated)
    } else {
        let length = declared_length(raw) as int;
        let chunk = ChunkView { chunk_type: raw.subrange(4, 8), data: raw.subrange(8, 8 + length) };
        if chunk.crc() != be_value(raw.subrange(8 + length, 12 + length)) {
            Err(Error::InvalidCRC)
        } else {
            Ok(chunk)
        }
    }
}

/// Parsing the record of a chunk gives the chunk back: the same type code
/// and the same data, and with them the same length and checksum. Bytes that
/// follow the record change nothing.
pub proof fn lemma_record_then_more(chunk: ChunkView, more: Seq<u8>)
    requires
        chunk.wf(),
    ensures
        parse_record(chunk.as_bytes() + more) == Ok::<ChunkView, Error>(chunk),
{
    let length = chunk.data.len() as int;
    let raw = chunk.as_bytes() + more;
    lemma_value_of_bytes(length as u32);
    lemma_value_of_bytes(chunk.crc());
    assert(raw.subrange(0, 4) =~= be_bytes(length as u32));
    assert(raw.subrange(4, 8) =~= chunk.chunk_type);
    assert(raw.subrange(8, 8 + length) =~= chunk.data);
    assert(raw.subrange(8 + length, 12 + length) =~= be_bytes(chunk.crc()));
}

/// Round trip: parsing the record of a chunk gives the chunk back.
pub proof fn lemma_round_trip(chunk: ChunkView)
    requires
        chunk.wf(),
    ensures
        parse_record(chunk.as_bytes()) == Ok::<ChunkView, Error>(chunk),
{
    lemma_record_then_more(chunk, Seq::empty());
    assert(chunk.as_bytes() + Seq::<u8>::empty() =~= chunk.as_bytes());
}

/// What parses is a chunk, and the input starts with that chunk's record,
/// byte for byte.
pub proof fn lemma_parsed_is_record(raw: Seq<u8>)
    requires
        parse_record(raw) is Ok,
    ensures
        parse_record(raw)->Ok_0.wf(),
        parse_record(raw)->Ok_0.length() == declared_length(raw),
        raw.subrange(0, 12 + declared_length(raw)) == parse_record(raw)->Ok_0.as_bytes(),
{
    let chunk = parse_record(raw)->Ok_0;
    let length = declared_length(raw) as int;
    lemma_bytes_of_value(raw.subrange(0, 4));
    lemma_bytes_of_value(raw.subrange(8 + length, 12 + length));
    assert(raw.subrange(0, 12 + length) =~= chunk.as_bytes());
}

/// A declared length above 2^31 is refused with `InvalidChunkLength`,
/// however many bytes follow the length.
pub proof fn lemma_oversized_length_refused(raw: Seq<u8>)
    requires
        raw.len() >= 4,
        declared_length(raw) > MAX_LENGTH,
    ensures
        parse_record(raw) == Err::<ChunkView, Error>(Error::InvalidChunkLength),
{
}

/// Input that ends before the record does is refused with `Truncated`:
/// input too short to declare a length, and input shorter than the twelve
/// bytes around the data plus the length it declares, where that length is
/// one a chunk can have.
pub proof fn lemma_short_input_truncated(raw: Seq<u8>)
    requires
        raw.len() < 4 || (declared_length(raw) <= MAX_LENGTH && raw.len() < 12 + declared_length(
            raw,
        )),
    ensures
        parse_record(raw) == Err::<ChunkView, Error>(Error::Truncated),
{
}

/// No input shorter than the record it declares is parsed as a chunk,
/// whatever length it declares.
pub proof fn lemma_short_input_refused(raw: Seq<u8>)
    requires
        raw.len() < 4 || raw.len() < 12 + declared_length(raw),
    ensures
        parse_record(raw) is Err,
{
}

/// A record in which type code or data were altered while the length and
/// the checksum were kept is refused with `InvalidCRC`, if the altered bytes
/// have another checksum than the one kept. Whether they have is for the
/// checksum to say, of which nothing is known here.
pub proof fn lemma_altered_record_refused(chunk: ChunkView, altered: ChunkView)
    requires
        chunk.wf(),
        altered.wf(),
        altered.length() == chunk.length(),
        altered.crc() != chunk.crc(),
    ensures
        parse_record(
            be_bytes(chunk.length() as u32) + altered.chunk_type + altered.data + be_bytes(
                chunk.crc(),
            ),
        ) == Err::<ChunkView, Error>(Error::InvalidCRC),
{
    let length = chunk.data.len() as int;
    let raw = be_bytes(length as u32) + altered.chunk_type + altered.data + be_bytes(chunk.crc());
    lemma_value_of_bytes(length as u32);
    lemma_value_of_bytes(chunk.crc());
    assert(raw.subrange(0, 4) =~= be_bytes(length as u32));
    assert(raw.subrange(4, 8) =~= altered.chunk_type);
    assert(raw.subrange(8, 8 + length) =~= altered.data);
    assert(raw.subrange(8 + length, 12 + length) =~= be_bytes(chunk.crc()));
}

/// A record whose checksum field was altered in any way, with the rest
/// kept, is refused with `InvalidCRC`.
pub proof fn lemma_altered_checksum_refused(chunk: ChunkView, field: Seq<u8>)
    requires
        chunk.wf(),
        field.len() == 4,
        field != be_bytes(chunk.crc()),
    ensures
        parse_record(be_bytes(chunk.length() as u32) + chunk.chunk_type + chunk.data + field)
            == Err::<ChunkView, Error>(Error::InvalidCRC),
{
    let length = chunk.data.len() as int;
    let raw = be_bytes(length as u32) + chunk.chunk_type + chunk.data + field;
    lemma_value_of_bytes(length as u32);
    lemma_bytes_of_value(field);
    assert(raw.subrange(0, 4) =~= be_bytes(length as u32));
    assert(raw.subrange(4, 8) =~= chunk.chunk_type);
    assert(raw.subrange(8, 8 + length) =~= chunk.data);
    assert(raw.subrange(8 + length, 12 + length) =~= field);
}

/// A chunk of a PNG file. It owns its type code and its data; its length is
/// the number of data bytes and is at most 2^31, and its checksum is the
/// CRC-32/IEEE of type code and data. A chunk is made by [`Chunk::new`] or
/// parsed from a record, and does not change afterwards.
#[derive(Debug)]
pub struct Chunk {
    length: u32,
    chunk_type: ChunkType,
    chunk_data: Vec<u8>,
    crc: u32,
}

impl View for Chunk {
    type V = ChunkView;

    closed spec fn view(&self) -> ChunkView {
        ChunkView { chunk_type: self.chunk_type@, data: self.chunk_data@ }
    }
}

impl Chunk {
    #[verifier::type_invariant]
    spec fn inv(&self) -> bool {
        &&& self.length == self.chunk_data@.len()
        &&& self.length <= MAX_LENGTH
        &&& self.crc == crc32_ieee(self.chunk_type@ + self.chunk_data@)
    }

    /// Makes a chunk of the given type that holds the given data, and
    /// computes its checksum. The type code is not examined: one that is not
    /// valid is held as any other. Data of more than 2^31 bytes are refused
    /// with `InvalidChunkLength`.
    pub fn new(chunk_type: ChunkType, chunk_data: Vec<u8>) -> (made: Result<Chunk, Error>)
        ensures
            chunk_data@.len() <= MAX_LENGTH ==> (made matches Ok(chunk) && chunk@ == (ChunkView {
                chunk_type: chunk_type@,
                data: chunk_data@,
            })),
            chunk_data@.len() > MAX_LENGTH ==> made == Err::<Chunk, Error>(
                Error::InvalidChunkLength,
            ),
    {
        if chunk_data.len() > MAX_LENGTH as usize {
            return Err(Error::InvalidChunkLength);
        }
        let length: u32 = chunk_data.len() as u32;
        let code: [u8; 4] = chunk_type.bytes();
        let mut covered: Vec<u8> = Vec::new();
        covered.extend_from_slice(code.as_slice());
        covered.extend_from_slice(chunk_data.as_slice());
        assert(covered@ =~= chunk_type@ + chunk_data@);
        let crc: u32 = checksum_ieee(covered.as_slice());
        Ok(Chunk { length, chunk_type, chunk_data, crc })
    }

    /// The number of bytes of data.
    pub fn length(&self) -> (length: u32)
        ensures
            length == self@.length(),
            length <= MAX_LENGTH,
    {
        proof {
            use_type_invariant(self);
        }
        self.length
    }

    /// The type code.
    pub fn chunk_type(&self) -> (chunk_type: &ChunkType)
        ensures
            chunk_type@ == self@.chunk_type,
    {
        &self.chunk_type
    }

    /// The data.
    pub fn data(&self) -> (data: &[u8])
        ensures
            data@ == self@.data,
    {
        self.chunk_data.as_slice()
    }

    /// The checksum of type code and data.
    pub fn crc(&self) -> (crc: u32)
        ensures
            crc == self@.crc(),
    {
        proof {
            use_type_invariant(self);
        }
        self.crc
    }

    /// The data as text, where they are valid UTF-8; nothing is replaced or
    /// dropped. Data that are not valid UTF-8 give `InvalidUtf8`.
    pub fn data_as_string(&self) -> (text: Result<String, Error>)
        ensures
            valid_utf8(self@.data) ==> (text matches Ok(s) && s@ == decode_utf8(self@.data)),
            !valid_utf8(self@.data) ==> text == Err::<String, Error>(Error::InvalidUtf8),
    {
        match String::from_utf8(self.chunk_data.clone()) {
            Ok(text) => Ok(text),
            Err(_) => Err(Error::InvalidUtf8),
        }
    }

    /// The record that carries this chunk on the wire. Parsing it gives the
    /// chunk back.
    pub fn as_bytes(&self) -> (bytes: Vec<u8>)
        ensures
            bytes@ == self@.as_bytes(),
            parse_record(bytes@) == Ok::<ChunkView, Error>(self@),
    {
        proof {
            use_type_invariant(self);
            self.chunk_type.lemma_four_bytes();
            lemma_round_trip(self@);
        }
        let mut bytes: Vec<u8> = Vec::new();
        bytes.extend_from_slice(to_be_bytes(self.length).as_slice());
        bytes.extend_from_slice(self.chunk_type.bytes().as_slice());
        bytes.extend_from_slice(self.chunk_data.as_slice());
        bytes.extend_from_slice(to_be_bytes(self.crc).as_slice());
        assert(bytes@ =~= self@.as_bytes());
        bytes
    }

    /// The chunk as a line of text for a reader, not for recovery of the
    /// data: the type code, then the data between double quotes. Data that
    /// are not valid UTF-8 are shown with replacement characters; this never
    /// fails.
    pub fn to_string(&self) -> (text: String)
        ensures
            text@ == self@.text(),
            is_ascii_bytes(self@.chunk_type) && valid_utf8(self@.data) ==> text@ == ascii_text(
                self@.chunk_type,
            ) + seq!['"'] + decode_utf8(self@.data) + seq!['"'],
    {
        proof {
            reveal_strlit("\"");
        }
        let mut text: String = self.chunk_type.to_string();
        text.append("\"");
        text.append(decode_lossy(self.chunk_data.as_slice()).as_str());
        text.append("\"");
        assert(text@ =~= self@.text());
        text
    }
}

impl vstd::std_specs::convert::TryFromSpecImpl<&[u8]> for Chunk {
    /// A chunk is known by its view, and two chunks with one view need not
    /// be the same value. So `try_from` states its result itself, over
    /// views, and promises nothing through `try_from_spec`.
    open spec fn obeys_try_from_spec() -> bool {
        false
    }

    open spec fn try_from_spec(raw: &[u8]) -> Result<Chunk, Error> {
        match parse_record(raw@) {
            Ok(view) => Ok(choose|chunk: Chunk| chunk@ == view),
            Err(error) => Err(error),
        }
    }
}

impl TryFrom<&[u8]> for Chunk {
    type Error = Error;

    /// Reads one record from the front of `raw`, as `parse_record` says, and
    /// checks its checksum against the one computed here.
    fn try_from(raw: &[u8]) -> (parsed: Result<Chunk, Error>)
        ensures
            match parse_record(raw@) {
                Ok(view) => parsed matches Ok(chunk) && chunk@ == view,
                Err(error) => parsed == Err::<Chunk, Error>(error),
            },
    {
        let available: usize = raw.len();
        if available < 4 {
            return Err(Error::Truncated);
        }
        let length: u32 = from_be_bytes([raw[0], raw[1], raw[2], raw[3]]);
        assert(raw@.subrange(0, 4) =~= [raw[0], raw[1], raw[2], raw[3]]@);
        if length > MAX_LENGTH {
            return Err(Error::InvalidChunkLength);
        }
        if available < 12 || available - 12 < length as usize {
            return Err(Error::Truncated);
        }
        let data_end: usize = 8 + length as usize;
        let chunk_type = ChunkType::new([raw[4], raw[5], raw[6], raw[7]]);
        assert(raw@.subrange(4, 8) =~= chunk_type@);
        let chunk_data: Vec<u8> = slice_to_vec(slice_subrange(raw, 8, data_end));
        let computed: u32 = checksum_ieee(slice_subrange(raw, 4, data_end));
        assert(raw@.subrange(4, data_end as int) =~= chunk_type@ + chunk_data@);
        let crc: u32 = from_be_bytes(
            [raw[data_end], raw[data_end + 1], raw[data_end + 2], raw[data_end + 3]],
        );
        assert(raw@.subrange(data_end as int, data_end + 4) =~= [
            raw[data_end as int],
            raw[data_end + 1],
            raw[data_end + 2],
            raw[data_end + 3],
        ]@);
        if computed != crc {
            return Err(Error::InvalidCRC);
        }
        Ok(Chunk { length, chunk_type, chunk_data, crc })
    }
}

} // verus!
