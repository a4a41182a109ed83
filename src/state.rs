use vstd::prelude::*;

use crate::errors::NotesError;

verus! {

/// The most bytes that a note's content may hold.
pub const MAX_CONTENT_LEN: usize = 1000;

/// A 32-byte account identity: an owner, a program, or a derived address.
#[derive(Debug, Clone, Copy, PartialEq, Eq)]
pub struct Pubkey {
    pub bytes: [u8; 32],
}

impl View for Pubkey {
    type V = Seq<u8>;

    open spec fn view(&self) -> Seq<u8> {
        self.bytes@
    }
}

impl Pubkey {
    pub fn new_from_array(bytes: [u8; 32]) -> (r: Pubkey)
        ensures
            r@ == bytes@,
    {
        Pubkey { bytes }
    }

    pub fn to_bytes(&self) -> (r: [u8; 32])
        ensures
            r@ == self@,
    {
        self.bytes
    }

    /// Byte-wise equality of two keys.
    pub fn same_key(&self, other: &Pubkey) -> (r: bool)
        ensures
            r == (self@ == other@),
    {
        let mut i: usize = 0;
        while i < 32
            invariant
                0 <= i <= 32,
                self.bytes@.len() == 32,
                other.bytes@.len() == 32,
                forall|j: int| 0 <= j < i ==> self.bytes@[j] == other.bytes@[j],
            decreases 32 - i,
        {
            if self.bytes[i] != other.bytes[i] {
                assert(self.bytes@[i as int] != other.bytes@[i as int]);
                return false;
            }
            i = i + 1;
        }
        assert(self.bytes@ =~= other.bytes@);
        true
    }

    /// The key's bytes as a vector.
    pub fn to_vec(&self) -> (r: Vec<u8>)
        ensures
            r@ == self@,
    {
        let mut v: Vec<u8> = Vec::new();
        let mut i: usize = 0;
        while i < 32
            invariant
                0 <= i <= 32,
                self.bytes@.len() == 32,
                v@ == self.bytes@.subrange(0, i as int),
            decreases 32 - i,
        {
            v.push(self.bytes[i]);
            i = i + 1;
            assert(v@ =~= self.bytes@.subrange(0, i as int));
        }
        assert(self.bytes@.subrange(0, 32) =~= self.bytes@);
        v
    }
}

/// The length in bytes of text, in its UTF-8 encoding.
pub open spec fn byte_len(s: Seq<char>) -> nat {
    vstd::utf8::encode_utf8(s).len()
}

/// Content that a note may hold: between 1 and 1000 bytes.
pub open spec fn valid_content(s: Seq<char>) -> bool {
    1 <= byte_len(s) <= MAX_CONTENT_LEN
}

/// What checking content gives: empty content and overlong content are
/// rejected, anything else is accepted.
pub open spec fn content_check(s: Seq<char>) -> Result<(), NotesError> {
    if byte_len(s) > MAX_CONTENT_LEN {
        Err(NotesError::ContentTooLong)
    } else if byte_len(s) == 0 {
        Err(NotesError::ContentEmpty)
    } else {
        Ok(())
    }
}

/// Rejects content that is empty or longer than the limit.
pub fn validate_content(content: &String) -> (r: Result<(), NotesError>)
    ensures
        r == content_check(content@),
        r is Ok <==> valid_content(content@),
{
    let n = content.as_str().as_bytes().len();
    if n > MAX_CONTENT_LEN {
        Err(NotesError::ContentTooLong)
    } else if n == 0 {
        Err(NotesError::ContentEmpty)
    } else {
        Ok(())
    }
}

/// A note record.
#[derive(Debug, Clone, PartialEq, Eq)]
pub struct Note {
    /// The identity that created the note, and the only one that may change it.
    pub authority: Pubkey,
    pub content: String,
    pub note_id: u64,
    pub created_at: i64,
    pub updated_at: i64,
}

/// A note as a mathematical value.
pub struct NoteView {
    pub authority: Seq<u8>,
    pub content: Seq<char>,
    pub note_id: u64,
    pub created_at: i64,
    pub updated_at: i64,
}

impl View for Note {
    type V = NoteView;

    open spec fn view(&self) -> NoteView {
        NoteView {
            authority: self.authority@,
            content: self.content@,
            note_id: self.note_id,
            created_at: self.created_at,
            updated_at: self.updated_at,
        }
    }
}

impl Note {
    /// A field-by-field copy of the note.
    pub fn copy_note(&self) -> (r: Note)
        ensures
            r@ == self@,
    {
        Note {
            authority: self.authority,
            content: self.content.clone(),
            note_id: self.note_id,
            created_at: self.created_at,
            updated_at: self.updated_at,
        }
    }
}

} // verus!
