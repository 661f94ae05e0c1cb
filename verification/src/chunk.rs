//! The RIFF chunk layer under a WAVE stream.
//!
//! A chunk is a four byte id, a little-endian length of four bytes, that many
//! bytes of contents, and one byte of padding where the length is odd. The
//! outer chunk of a stream holds a four byte form type and then its children,
//! one after another.
//!
//! Chunks are read and built by the `riff` crate, over a cursor on bytes in
//! memory. The functions that call it are believed, not verified; each says in
//! its documentation what it takes for granted.

use crate::error::WavError;
use crate::le_bytes::{u32_from_le, u32_le};
use vstd::prelude::*;

verus! {

/// The error of `std::io`, as the `riff` crate hands it out. Nothing is known
/// of a value of it.
#[verifier::external_type_specification]
#[verifier::external_body]
pub struct ExIoError(std::io::Error);

/// The id of the outer chunk: `"RIFF"`.
pub const RIFF_ID: [u8; 4] = [0x52, 0x49, 0x46, 0x46];

/// The form type of a wave stream: `"WAVE"`.
pub const WAVE_ID: [u8; 4] = [0x57, 0x41, 0x56, 0x45];

/// The id of the format chunk: `"fmt "`.
pub const FMT_ID: [u8; 4] = [0x66, 0x6d, 0x74, 0x20];

/// The id of the sample chunk: `"data"`.
pub const DATA_ID: [u8; 4] = [0x64, 0x61, 0x74, 0x61];

/// The head of one chunk: where it starts in the stream, its id, and how many
/// bytes of contents it announces.
#[derive(Debug, Copy, Clone, PartialEq, Eq)]
pub struct ChunkHead {
    pub pos: u64,
    pub id: [u8; 4],
    pub len: u32,
}

/// Whether the eight bytes that head a chunk lie within `s` at `pos`.
pub open spec fn head_in_stream(s: Seq<u8>, pos: int) -> bool {
    0 <= pos && pos + 8 <= s.len()
}

/// The id of the chunk that starts at `pos`.
pub open spec fn id_at(s: Seq<u8>, pos: int) -> Seq<u8> {
    s.subrange(pos, pos + 4)
}

/// The length that the chunk at `pos` announces.
pub open spec fn len_at(s: Seq<u8>, pos: int) -> u32 {
    u32_from_le(s.subrange(pos + 4, pos + 8))
}

/// Whether the head and the form type of a chunk lie within `s` at `pos`.
pub open spec fn type_in_stream(s: Seq<u8>, pos: int) -> bool {
    0 <= pos && pos + 12 <= s.len()
}

/// The form type of the chunk that starts at `pos`.
pub open spec fn type_at(s: Seq<u8>, pos: int) -> Seq<u8> {
    s.subrange(pos + 8, pos + 12)
}

/// Whether all the contents that the chunk at `pos` announces lie within `s`.
pub open spec fn contents_in_stream(s: Seq<u8>, pos: int) -> bool {
    head_in_stream(s, pos) && pos + 8 + len_at(s, pos) <= s.len()
}

/// The contents of the chunk that starts at `pos`.
pub open spec fn contents_at(s: Seq<u8>, pos: int) -> Seq<u8> {
    s.subrange(pos + 8, pos + 8 + len_at(s, pos))
}

/// Where the chunk after the one at `pos` starts: behind its contents and its
/// padding.
pub open spec fn next_at(s: Seq<u8>, pos: int) -> int {
    pos + 8 + len_at(s, pos) + len_at(s, pos) % 2
}

impl ChunkHead {
    /// Whether this is the head that stands in `s` at `self.pos`.
    pub open spec fn heads(self, s: Seq<u8>) -> bool {
        &&& head_in_stream(s, self.pos as int)
        &&& self.id@ == id_at(s, self.pos as int)
        &&& self.len == len_at(s, self.pos as int)
    }
}

/// Reads the head of the chunk at `pos` with `riff::Chunk::read`, and takes its
/// id, length and offset from the accessors of `riff::Chunk`.
///
/// Taken for granted: over a cursor on a slice the call fails exactly when
/// fewer than eight bytes follow `pos`; otherwise the id is the first four of
/// them and the length the little-endian value of the other four.
#[verifier::external_body]
pub(crate) fn read_chunk_head(stream: &[u8], pos: u64) -> (r: Result<ChunkHead, std::io::Error>)
    ensures
        r is Ok <==> head_in_stream(stream@, pos as int),
        r matches Ok(c) ==> c.pos == pos && c.heads(stream@),
{
    let chunk = riff::Chunk::read(&mut std::io::Cursor::new(stream), pos)?;
    Ok(ChunkHead { pos: chunk.offset(), id: chunk.id().value, len: chunk.len() })
}

/// Reads the form type of the chunk at `pos` with `riff::Chunk::read_type`, on
/// the chunk that `riff::Chunk::read` finds there.
///
/// Taken for granted: over a cursor on a slice the calls fail exactly when
/// fewer than twelve bytes follow `pos`; otherwise the form type is the last
/// four of them.
#[verifier::external_body]
pub(crate) fn read_chunk_type(stream: &[u8], pos: u64) -> (r: Result<[u8; 4], std::io::Error>)
    ensures
        r is Ok <==> type_in_stream(stream@, pos as int),
        r matches Ok(t) ==> t@ == type_at(stream@, pos as int),
{
    let mut cursor = std::io::Cursor::new(stream);
    let chunk = riff::Chunk::read(&mut cursor, pos)?;
    Ok(chunk.read_type(&mut cursor)?.value)
}

/// Reads the contents of the chunk at `pos` with `riff::Chunk::read_contents`,
/// on the chunk that `riff::Chunk::read` finds there.
///
/// The call makes room for the announced length before it reads, so it is only
/// made for a chunk whose contents lie within the stream. Taken for granted:
/// over a cursor on a slice the calls then succeed, and hand back the bytes
/// that follow the head, as many as it announces.
#[verifier::external_body]
pub(crate) fn read_chunk_contents(stream: &[u8], pos: u64) -> (r: Result<Vec<u8>, std::io::Error>)
    requires
        contents_in_stream(stream@, pos as int),
    ensures
        r is Ok,
        r matches Ok(v) ==> v@ == contents_at(stream@, pos as int),
{
    let mut cursor = std::io::Cursor::new(stream);
    let chunk = riff::Chunk::read(&mut cursor, pos)?;
    chunk.read_contents(&mut cursor)
}

/// Hands out the contents of the chunk that starts at `pos`.
///
/// The head is read first, and the contents only where all of them lie within
/// the stream, so that no more room is ever made than the stream is long.
///
/// ## Errors
///
/// [`WavError::Io`] where the stream ends before the head or the contents do.
pub fn read_contents(stream: &[u8], pos: u64) -> (r: Result<Vec<u8>, WavError>)
    ensures
        match r {
            Ok(v) => contents_in_stream(stream@, pos as int) && v@ == contents_at(
                stream@,
                pos as int,
            ),
            Err(e) => !contents_in_stream(stream@, pos as int) && e == WavError::Io,
        },
{
    let head = match read_chunk_head(stream, pos) {
        Ok(head) => head,
        Err(_) => {
            return Err(WavError::Io);
        },
    };
    let room: u64 = stream.len() as u64 - (pos + 8);
    if room < head.len as u64 {
        return Err(WavError::Io);
    }
    match read_chunk_contents(stream, pos) {
        Ok(v) => Ok(v),
        Err(_) => Err(WavError::Io),
    }
}

/// The padding behind contents of `n` bytes: one zero byte where `n` is odd.
pub open spec fn padding(n: nat) -> Seq<u8> {
    if n % 2 == 0 {
        Seq::empty()
    } else {
        seq![0u8]
    }
}

/// One chunk as it stands in a stream: id, length, contents, padding.
pub open spec fn chunk_image(id: Seq<u8>, contents: Seq<u8>) -> Seq<u8> {
    id + u32_le(contents.len() as u32) + contents + padding(contents.len())
}

/// A stream of form type `form` with two chunks: the outer id, the length of
/// all that follows it, the form type, and the two chunks in order.
pub open spec fn form_image(
    form: Seq<u8>,
    first_id: Seq<u8>,
    first: Seq<u8>,
    second_id: Seq<u8>,
    second: Seq<u8>,
) -> Seq<u8> {
    let body = form + chunk_image(first_id, first) + chunk_image(second_id, second);
    RIFF_ID@ + u32_le(body.len() as u32) + body
}

/// Whether a form with two chunks of these lengths can be written: every
/// length has to fit a field of four bytes, that of the outer chunk too.
pub open spec fn form_fits(first: nat, second: nat) -> bool {
    4 + (8 + first + first % 2) + (8 + second + second % 2) <= u32::MAX
}

/// Builds a stream of two chunks with `riff::ChunkContents::write`, into a
/// cursor on an empty vector.
///
/// The call adds up lengths in 32 bits, so it is only made where
/// [`form_fits`] holds. Taken for granted: the call fails only for a length of
/// more than 32 bits or for a failure of its sink, and a cursor on a vector
/// grows the vector and does not fail; so the call succeeds. What it has
/// written is the outer id `"RIFF"`, the length of the rest, the form type, and
/// each chunk as id, length, contents and padding.
#[verifier::external_body]
pub(crate) fn write_form(
    form: [u8; 4],
    first_id: [u8; 4],
    first: Vec<u8>,
    second_id: [u8; 4],
    second: Vec<u8>,
) -> (r: Result<Vec<u8>, std::io::Error>)
    requires
        form_fits(first@.len(), second@.len()),
    ensures
        r is Ok,
        r matches Ok(v) ==> v@ == form_image(form@, first_id@, first@, second_id@, second@),
{
    let first = riff::ChunkContents::Data(riff::ChunkId { value: first_id }, first);
    let second = riff::ChunkContents::Data(riff::ChunkId { value: second_id }, second);
    let form = riff::ChunkId { value: form };
    let tree = riff::ChunkContents::Children(riff::RIFF_ID.clone(), form, vec![first, second]);
    let mut sink = std::io::Cursor::new(Vec::new());
    tree.write(&mut sink)?;
    Ok(sink.into_inner())
}

/// How far a walk at `cur` is from `end`: nothing, once it has passed it.
pub open spec fn left(cur: int, end: int) -> nat {
    if cur < end {
        (end - cur) as nat
    } else {
        0
    }
}

/// What a walk over the children of a chunk comes to, for one id.
pub enum Scan {
    /// The first child with the id starts here.
    Found(int),
    /// The walk came to the end of the children and met no such child.
    Missing,
    /// The stream ends before the head of a child that should stand there.
    Broken,
}

/// Walks the children from `cur` up to `end` and stops at the first whose id is
/// `id`.
pub open spec fn scan(s: Seq<u8>, id: Seq<u8>, cur: int, end: int) -> Scan
    decreases left(cur, end),
{
    if cur >= end {
        Scan::Missing
    } else if !head_in_stream(s, cur) {
        Scan::Broken
    } else if id_at(s, cur) == id {
        Scan::Found(cur)
    } else {
        scan(s, id, next_at(s, cur), end)
    }
}

/// Where the children of the outer chunk `parent` start: behind its head and
/// its form type.
pub open spec fn children_start(parent: ChunkHead) -> int {
    parent.pos + 12
}

/// Where the walk over the children of `parent` stops.
pub open spec fn children_end(parent: ChunkHead) -> int {
    parent.pos + 4 + parent.len
}

/// Whether every position that a walk over the children of `parent` can come
/// to is a 64 bit value.
pub open spec fn walk_fits(parent: ChunkHead) -> bool {
    children_end(parent) + 8 + u32::MAX + 1 <= u64::MAX
}

/// Whether two ids are the same four bytes.
pub fn same_id(a: &[u8; 4], b: &[u8; 4]) -> (r: bool)
    ensures
        r == (a@ == b@),
{
    let r = a[0] == b[0] && a[1] == b[1] && a[2] == b[2] && a[3] == b[3];
    assert(r == (a@ =~= b@));
    r
}

/// Looks among the children of `parent` for the first chunk whose id is `id`.
///
/// The children are visited in stream order, each found behind the contents
/// and padding of the one before, and the first match ends the walk. A child
/// whose head is cut off by the end of the stream is a failure of the chunk
/// layer, unless a match came before it.
pub fn find_chunk(stream: &[u8], parent: &ChunkHead, id: &[u8; 4]) -> (r: Result<
    Option<ChunkHead>,
    WavError,
>)
    requires
        walk_fits(*parent),
    ensures
        match scan(stream@, id@, children_start(*parent), children_end(*parent)) {
            Scan::Found(pos) => r matches Ok(Some(c)) && c.pos == pos && c.heads(stream@),
            Scan::Missing => r == Ok::<Option<ChunkHead>, WavError>(None),
            Scan::Broken => r == Err::<Option<ChunkHead>, WavError>(WavError::Io),
        },
{
    let end: u64 = parent.pos + 4 + parent.len as u64;
    let mut cur: u64 = parent.pos + 12;
    while cur < end
        invariant
            walk_fits(*parent),
            end == children_end(*parent),
            scan(stream@, id@, cur as int, end as int) == scan(
                stream@,
                id@,
                children_start(*parent),
                children_end(*parent),
            ),
        decreases left(cur as int, end as int),
    {
        match read_chunk_head(stream, cur) {
            Err(_) => {
                return Err(WavError::Io);
            },
            Ok(c) => {
                if same_id(&c.id, id) {
                    return Ok(Some(c));
                }
                cur = cur + 8 + c.len as u64 + (c.len % 2) as u64;
            },
        }
    }
    Ok(None)
}

} // verus!
