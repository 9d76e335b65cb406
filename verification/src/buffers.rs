//! The owned buffer and collection types that cross the boundary.
//!
//! An owned byte buffer carries heap bytes whose ownership transfers with
//! the value; a buffer array carries a list of such buffers, used to
//! return lists of file names; a serialized buffer pairs bytes with the
//! offset at which the caller should begin reading.  Every allocation has
//! exactly one owner: release is a move, so a second release or a use
//! after release is rejected by the type system.

use vstd::prelude::*;
use vstd::string::StrSliceExecFns;
use vstd::string::StringSliceAdditionalSpecFns;
use vstd::utf8::decode_utf8;
use vstd::utf8::encode_utf8;
use vstd::utf8::valid_utf8;

verus! {

/// Relies on std's String::from_utf8: it succeeds exactly on valid
/// UTF-8 input and yields its decoding.
#[verifier::external_body]
pub(crate) fn decode_text(bytes: &Vec<u8>) -> (r: Option<String>)
    ensures
        r is Some <==> valid_utf8(bytes@),
        r matches Some(s) ==> s@ == decode_utf8(bytes@),
{
    match std::string::String::from_utf8(bytes.clone()) {
        Ok(s) => Some(s),
        Err(_) => None,
    }
}

/// An owned, growable byte buffer.  The `disable_free` flag marks a
/// buffer whose backing memory belongs to a third allocator and must not
/// be reclaimed by the bridge's own deallocation path.
pub struct ByteArray {
    pub bytes: Vec<u8>,
    pub disable_free: bool,
}

impl ByteArray {
    /// The byte content of the buffer.
    pub open spec fn view(self) -> Seq<u8> {
        self.bytes@
    }

    /// Takes ownership of a byte vector.  The bridge's release path will
    /// reclaim the allocation.
    pub fn from_vec(bytes: Vec<u8>) -> (b: ByteArray)
        ensures
            b.view() == bytes@,
            !b.disable_free,
    {
        ByteArray { bytes, disable_free: false }
    }

    /// Takes ownership of a byte vector whose backing memory another
    /// allocator owns: the bridge must hand it back untouched.
    pub fn from_vec_disable_free(bytes: Vec<u8>) -> (b: ByteArray)
        ensures
            b.view() == bytes@,
            b.disable_free,
    {
        ByteArray { bytes, disable_free: true }
    }

    /// Copies a string's text into an owned buffer, as its encoded bytes.
    pub fn from_string(s: &String) -> (b: ByteArray)
        ensures
            b.view() == encode_utf8(s@),
            !b.disable_free,
    {
        ByteArray { bytes: s.as_str().as_bytes_vec(), disable_free: false }
    }

    /// The number of bytes held.
    pub fn len(&self) -> (n: usize)
        ensures
            n == self.view().len(),
    {
        self.bytes.len()
    }
}

/// Releases an owned byte buffer.  Ownership is consumed by the move.
pub fn byte_array_free(b: ByteArray) {
    let _ = b;
}

/// An empty byte range stands for "absent"; anything else is a value.
/// This is how optional byte arguments cross the boundary.
pub fn to_option_vec(bytes: &Vec<u8>) -> (r: Option<Vec<u8>>)
    ensures
        bytes@.len() == 0 <==> r is None,
        r is Some ==> r->0@ == bytes@,
{
    if bytes.len() == 0 {
        None
    } else {
        Some(bytes.clone())
    }
}

/// An empty string stands for "absent"; anything else is a value.
pub fn to_option_string(s: &String) -> (r: Option<String>)
    ensures
        s@.len() == 0 <==> r is None,
        r is Some ==> r->0@ == s@,
{
    if s.as_str().is_empty() {
        None
    } else {
        Some(s.clone())
    }
}

/// An owned, contiguous sequence of owned byte buffers, used to return
/// lists of strings (file paths, URIs, deleted-file names).
pub struct DynamicArray {
    pub items: Vec<ByteArray>,
}

impl DynamicArray {
    /// The byte content of each element, in order.
    pub open spec fn view(self) -> Seq<Seq<u8>> {
        self.items@.map(|i: int, b: ByteArray| b.view())
    }

    /// Moves a list of strings into an array of owned buffers holding
    /// their encoded bytes, in the same order.
    pub fn from_vec_string(input: Vec<String>) -> (a: DynamicArray)
        ensures
            a.view().len() == input@.len(),
            forall|i: int|
                0 <= i < input@.len() ==> a.view()[i] == encode_utf8(input@[i]@),
    {
        let mut items: Vec<ByteArray> = Vec::with_capacity(input.len());
        let mut j: usize = 0;
        while j < input.len()
            invariant
                j <= input@.len(),
                items@.len() == j,
                forall|i: int|
                    0 <= i < j ==> items@[i].view() == encode_utf8(input@[i]@),
            decreases input@.len() - j,
        {
            items.push(ByteArray::from_string(&input[j]));
            j += 1;
        }
        DynamicArray { items }
    }

    /// The number of buffers held.
    pub fn len(&self) -> (n: usize)
        ensures
            n == self.view().len(),
    {
        self.items.len()
    }
}

/// Releases a buffer array together with every buffer it owns.
pub fn dynamic_array_free(a: DynamicArray) {
    let _ = a;
}

/// An owned byte buffer paired with the logical offset at which the
/// caller should begin reading: the encoding may prepend data the caller
/// does not need.  Its lifetime is tied to the call that produced it, so
/// it has no release entry point of its own.
pub struct SerializedBuffer {
    pub buffer: ByteArray,
    pub offset: usize,
}

impl SerializedBuffer {
    /// A serialized buffer is well formed when the offset lies within
    /// the bytes it carries.
    pub open spec fn well_formed(self) -> bool {
        self.offset <= self.buffer.view().len()
    }

    /// Wraps encoded bytes and a read offset.  An offset past the end of
    /// the bytes is a malformed encoding and is rejected.
    pub fn new(bytes: Vec<u8>, offset: usize) -> (r: Option<SerializedBuffer>)
        ensures
            r is Some <==> offset <= bytes@.len(),
            r is Some ==> r->0.well_formed() && r->0.buffer.view() == bytes@ && r->0.offset
                == offset,
    {
        if offset <= bytes.len() {
            Some(SerializedBuffer { buffer: ByteArray::from_vec(bytes), offset })
        } else {
            None
        }
    }

    /// The number of bytes from the offset to the end: what the caller
    /// will actually read.
    pub fn payload_len(&self) -> (n: usize)
        requires
            self.well_formed(),
        ensures
            n == self.buffer.view().len() - self.offset,
    {
        self.buffer.bytes.len() - self.offset
    }
}

} // verus!
