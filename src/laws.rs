use vstd::prelude::*;

use crate::address::note_address;
use crate::errors::NotesError;
use crate::instructions::{
    applied, create_outcome, delete_outcome, edited_note, new_note, read_outcome, update_outcome,
};
use crate::state::{byte_len, valid_content, NoteView, MAX_CONTENT_LEN};

verus! {

/// A creation with valid content at a free, derivable address succeeds, and
/// reading the note back gives exactly that content, the creator as owner, and
/// equal creation and update times.
pub proof fn create_then_read(
    m: Map<Seq<u8>, NoteView>,
    program: Seq<u8>,
    user: Seq<u8>,
    content: Seq<char>,
    note_id: u64,
    now: i64,
)
    requires
        valid_content(content),
        note_address(user, note_id, program) is Some,
        !m.contains_key(note_address(user, note_id, program)->0),
    ensures
        create_outcome(m, program, user, content, note_id, now) is Ok,
        read_outcome(create_outcome(m, program, user, content, note_id, now)->Ok_0, program, user, note_id)
            == Ok::<NoteView, NotesError>(new_note(user, content, note_id, now)),
        new_note(user, content, note_id, now).content == content,
        new_note(user, content, note_id, now).created_at == new_note(user, content, note_id, now).updated_at,
        new_note(user, content, note_id, now).authority == user,
{
}

/// A creation with empty content fails with `ContentEmpty`, one with content
/// over the limit fails with `ContentTooLong`, and either way no note is kept.
pub proof fn create_rejects_bad_content(
    m: Map<Seq<u8>, NoteView>,
    after: Map<Seq<u8>, NoteView>,
    program: Seq<u8>,
    user: Seq<u8>,
    content: Seq<char>,
    note_id: u64,
    now: i64,
    r: Result<(), NotesError>,
)
    requires
        applied(create_outcome(m, program, user, content, note_id, now), m, after, r),
        byte_len(content) == 0 || byte_len(content) > MAX_CONTENT_LEN,
    ensures
        byte_len(content) == 0 ==> r == Err::<(), NotesError>(NotesError::ContentEmpty),
        byte_len(content) > MAX_CONTENT_LEN ==> r == Err::<(), NotesError>(NotesError::ContentTooLong),
        after == m,
{
}

/// After a successful creation, a second creation with valid content under the
/// same owner and id fails with `AddressAlreadyOccupied` and leaves the first
/// note as it was.
pub proof fn create_twice_is_refused(
    m: Map<Seq<u8>, NoteView>,
    created: Map<Seq<u8>, NoteView>,
    after: Map<Seq<u8>, NoteView>,
    program: Seq<u8>,
    user: Seq<u8>,
    first: Seq<char>,
    second: Seq<char>,
    note_id: u64,
    t1: i64,
    t2: i64,
    r: Result<(), NotesError>,
)
    requires
        create_outcome(m, program, user, first, note_id, t1) == Ok::<
            Map<Seq<u8>, NoteView>,
            NotesError,
        >(created),
        valid_content(second),
        applied(create_outcome(created, program, user, second, note_id, t2), created, after, r),
    ensures
        r == Err::<(), NotesError>(NotesError::AddressAlreadyOccupied),
        after == created,
        read_outcome(after, program, user, note_id) == Ok::<NoteView, NotesError>(
            new_note(user, first, note_id, t1),
        ),
{
}

/// An update by the note's owner with valid content succeeds: it changes the
/// content and the update time and keeps the id, the owner and the creation
/// time.
pub proof fn update_by_owner(
    m: Map<Seq<u8>, NoteView>,
    program: Seq<u8>,
    user: Seq<u8>,
    authority: Seq<u8>,
    note_id: u64,
    content: Seq<char>,
    now: i64,
)
    requires
        note_address(user, note_id, program) is Some,
        m.contains_key(note_address(user, note_id, program)->0),
        m[note_address(user, note_id, program)->0].authority == authority,
        valid_content(content),
    ensures
        ({
            let a = note_address(user, note_id, program)->0;
            let old_note = m[a];
            &&& update_outcome(m, program, user, authority, note_id, content, now) == Ok::<
                Map<Seq<u8>, NoteView>,
                NotesError,
            >(m.insert(a, edited_note(old_note, content, now)))
            &&& edited_note(old_note, content, now).content == content
            &&& edited_note(old_note, content, now).updated_at == now
            &&& edited_note(old_note, content, now).note_id == old_note.note_id
            &&& edited_note(old_note, content, now).authority == old_note.authority
            &&& edited_note(old_note, content, now).created_at == old_note.created_at
        }),
{
}

/// An update that presents an authority other than the note's owner fails
/// with `Unauthorized` and leaves every note as it was.
pub proof fn update_by_other_is_refused(
    m: Map<Seq<u8>, NoteView>,
    after: Map<Seq<u8>, NoteView>,
    program: Seq<u8>,
    user: Seq<u8>,
    authority: Seq<u8>,
    note_id: u64,
    content: Seq<char>,
    now: i64,
    r: Result<(), NotesError>,
)
    requires
        note_address(user, note_id, program) is Some,
        m.contains_key(note_address(user, note_id, program)->0),
        m[note_address(user, note_id, program)->0].authority != authority,
        applied(update_outcome(m, program, user, authority, note_id, content, now), m, after, r),
    ensures
        r == Err::<(), NotesError>(NotesError::Unauthorized),
        after == m,
{
}

/// A removal by the note's owner succeeds; reading the note afterwards fails
/// with `NotFound`, and creating it again with valid content succeeds.
pub proof fn delete_by_owner(
    m: Map<Seq<u8>, NoteView>,
    program: Seq<u8>,
    user: Seq<u8>,
    authority: Seq<u8>,
    note_id: u64,
    content: Seq<char>,
    now: i64,
)
    requires
        note_address(user, note_id, program) is Some,
        m.contains_key(note_address(user, note_id, program)->0),
        m[note_address(user, note_id, program)->0].authority == authority,
        valid_content(content),
    ensures
        delete_outcome(m, program, user, authority, note_id) is Ok,
        read_outcome(delete_outcome(m, program, user, authority, note_id)->Ok_0, program, user, note_id)
            == Err::<NoteView, NotesError>(NotesError::NotFound),
        create_outcome(
            delete_outcome(m, program, user, authority, note_id)->Ok_0,
            program,
            user,
            content,
            note_id,
            now,
        ) is Ok,
{
}

/// A removal that presents an authority other than the note's owner fails
/// with `Unauthorized`, and the note is still there.
pub proof fn delete_by_other_is_refused(
    m: Map<Seq<u8>, NoteView>,
    after: Map<Seq<u8>, NoteView>,
    program: Seq<u8>,
    user: Seq<u8>,
    authority: Seq<u8>,
    note_id: u64,
    r: Result<(), NotesError>,
)
    requires
        note_address(user, note_id, program) is Some,
        m.contains_key(note_address(user, note_id, program)->0),
        m[note_address(user, note_id, program)->0].authority != authority,
        applied(delete_outcome(m, program, user, authority, note_id), m, after, r),
    ensures
        r == Err::<(), NotesError>(NotesError::Unauthorized),
        after == m,
        read_outcome(after, program, user, note_id) == Ok::<NoteView, NotesError>(
            m[note_address(user, note_id, program)->0],
        ),
{
}

} // verus!
