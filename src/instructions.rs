use vstd::prelude::*;

use crate::address::{derive_note_address, note_address};
use crate::errors::NotesError;
use crate::state::{content_check, validate_content, Note, NoteView, Pubkey};
use crate::store::NoteStore;

verus! {

/// The accounts of a note's creation: the signer, who becomes its owner.
pub struct CreateNote {
    pub user: Pubkey,
}

/// The accounts of a note's update: the signer whose key addresses the note,
/// the authority presented as its owner, and the note's id.
pub struct UpdateNote {
    pub user: Pubkey,
    pub authority: Pubkey,
    pub note_id: u64,
}

/// The accounts of a note's removal, as for an update.
pub struct DeleteNote {
    pub user: Pubkey,
    pub authority: Pubkey,
    pub note_id: u64,
}

/// The note that `owner` creates under `note_id` at time `now`.
pub open spec fn new_note(owner: Seq<u8>, content: Seq<char>, note_id: u64, now: i64) -> NoteView {
    NoteView { authority: owner, content, note_id, created_at: now, updated_at: now }
}

/// The note `n` with new content, updated at time `now`.
pub open spec fn edited_note(n: NoteView, content: Seq<char>, now: i64) -> NoteView {
    NoteView {
        authority: n.authority,
        content,
        note_id: n.note_id,
        created_at: n.created_at,
        updated_at: now,
    }
}

/// The notes after `user` creates a note, or the error that stops it.
pub open spec fn create_outcome(
    m: Map<Seq<u8>, NoteView>,
    program: Seq<u8>,
    user: Seq<u8>,
    content: Seq<char>,
    note_id: u64,
    now: i64,
) -> Result<Map<Seq<u8>, NoteView>, NotesError> {
    match content_check(content) {
        Err(e) => Err(e),
        Ok(()) => match note_address(user, note_id, program) {
            None => Err(NotesError::NoViableAddress),
            Some(a) => if m.contains_key(a) {
                Err(NotesError::AddressAlreadyOccupied)
            } else {
                Ok(m.insert(a, new_note(user, content, note_id, now)))
            },
        },
    }
}

/// The notes after the note that `user` addresses under `note_id` gets new
/// content, with `authority` presented as its owner, or the error that stops it.
/// Authority is checked before content.
pub open spec fn update_outcome(
    m: Map<Seq<u8>, NoteView>,
    program: Seq<u8>,
    user: Seq<u8>,
    authority: Seq<u8>,
    note_id: u64,
    content: Seq<char>,
    now: i64,
) -> Result<Map<Seq<u8>, NoteView>, NotesError> {
    match note_address(user, note_id, program) {
        None => Err(NotesError::NotFound),
        Some(a) => if !m.contains_key(a) {
            Err(NotesError::NotFound)
        } else if m[a].authority != authority {
            Err(NotesError::Unauthorized)
        } else {
            match content_check(content) {
                Err(e) => Err(e),
                Ok(()) => Ok(m.insert(a, edited_note(m[a], content, now))),
            }
        },
    }
}

/// The notes after the note that `user` addresses under `note_id` is removed,
/// with `authority` presented as its owner, or the error that stops it.
pub open spec fn delete_outcome(
    m: Map<Seq<u8>, NoteView>,
    program: Seq<u8>,
    user: Seq<u8>,
    authority: Seq<u8>,
    note_id: u64,
) -> Result<Map<Seq<u8>, NoteView>, NotesError> {
    match note_address(user, note_id, program) {
        None => Err(NotesError::NotFound),
        Some(a) => if !m.contains_key(a) {
            Err(NotesError::NotFound)
        } else if m[a].authority != authority {
            Err(NotesError::Unauthorized)
        } else {
            Ok(m.remove(a))
        },
    }
}

/// The note that `owner` keeps under `note_id`, or `NotFound`.
pub open spec fn read_outcome(
    m: Map<Seq<u8>, NoteView>,
    program: Seq<u8>,
    owner: Seq<u8>,
    note_id: u64,
) -> Result<NoteView, NotesError> {
    match note_address(owner, note_id, program) {
        None => Err(NotesError::NotFound),
        Some(a) => if m.contains_key(a) {
            Ok(m[a])
        } else {
            Err(NotesError::NotFound)
        },
    }
}

/// The operation's result `r` took the notes from `before` to `after` as
/// `outcome` says: on success to the new notes, on failure nowhere.
pub open spec fn applied(
    outcome: Result<Map<Seq<u8>, NoteView>, NotesError>,
    before: Map<Seq<u8>, NoteView>,
    after: Map<Seq<u8>, NoteView>,
    r: Result<(), NotesError>,
) -> bool {
    match r {
        Ok(()) => outcome == Ok::<Map<Seq<u8>, NoteView>, NotesError>(after),
        Err(e) => outcome == Err::<Map<Seq<u8>, NoteView>, NotesError>(e) && after == before,
    }
}

/// Creates the note that the signer keeps under `note_id`, stamped `now`.
pub fn create_note(
    store: &mut NoteStore,
    ctx: &CreateNote,
    content: String,
    note_id: u64,
    now: i64,
) -> (r: Result<(), NotesError>)
    requires
        old(store).wf(),
    ensures
        final(store).wf(),
        final(store).program() == old(store).program(),
        applied(
            create_outcome(old(store)@, old(store).program(), ctx.user@, content@, note_id, now),
            old(store)@,
            final(store)@,
            r,
        ),
{
    match validate_content(&content) {
        Err(e) => {
            return Err(e);
        },
        Ok(()) => {},
    }
    let program = store.program_id();
    let address = match derive_note_address(&ctx.user, note_id, &program) {
        None => {
            return Err(NotesError::NoViableAddress);
        },
        Some(a) => a,
    };
    let note = Note { authority: ctx.user, content, note_id, created_at: now, updated_at: now };
    store.create(&address, note)
}

/// Gives the addressed note new content, stamped `now`, where the presented
/// authority owns it.
pub fn update_note(store: &mut NoteStore, ctx: &UpdateNote, content: String, now: i64) -> (r: Result<
    (),
    NotesError,
>)
    requires
        old(store).wf(),
    ensures
        final(store).wf(),
        final(store).program() == old(store).program(),
        applied(
            update_outcome(
                old(store)@,
                old(store).program(),
                ctx.user@,
                ctx.authority@,
                ctx.note_id,
                content@,
                now,
            ),
            old(store)@,
            final(store)@,
            r,
        ),
{
    let program = store.program_id();
    let address = match derive_note_address(&ctx.user, ctx.note_id, &program) {
        None => {
            return Err(NotesError::NotFound);
        },
        Some(a) => a,
    };
    let existing = match store.read(&address) {
        Err(e) => {
            return Err(e);
        },
        Ok(n) => n,
    };
    if !existing.authority.same_key(&ctx.authority) {
        return Err(NotesError::Unauthorized);
    }
    match validate_content(&content) {
        Err(e) => {
            return Err(e);
        },
        Ok(()) => {},
    }
    let note = Note {
        authority: existing.authority,
        content,
        note_id: existing.note_id,
        created_at: existing.created_at,
        updated_at: now,
    };
    store.write(&address, note)
}

/// Removes the addressed note, where the presented authority owns it.
pub fn delete_note(store: &mut NoteStore, ctx: &DeleteNote) -> (r: Result<(), NotesError>)
    requires
        old(store).wf(),
    ensures
        final(store).wf(),
        final(store).program() == old(store).program(),
        applied(
            delete_outcome(
                old(store)@,
                old(store).program(),
                ctx.user@,
                ctx.authority@,
                ctx.note_id,
            ),
            old(store)@,
            final(store)@,
            r,
        ),
{
    let program = store.program_id();
    let address = match derive_note_address(&ctx.user, ctx.note_id, &program) {
        None => {
            return Err(NotesError::NotFound);
        },
        Some(a) => a,
    };
    let existing = match store.read(&address) {
        Err(e) => {
            return Err(e);
        },
        Ok(n) => n,
    };
    if !existing.authority.same_key(&ctx.authority) {
        return Err(NotesError::Unauthorized);
    }
    store.delete(&address)
}

/// The note that `owner` keeps under `note_id`.
pub fn read_note(store: &NoteStore, owner: &Pubkey, note_id: u64) -> (r: Result<Note, NotesError>)
    requires
        store.wf(),
    ensures
        match r {
            Ok(n) => read_outcome(store@, store.program(), owner@, note_id) == Ok::<
                NoteView,
                NotesError,
            >(n@),
            Err(e) => read_outcome(store@, store.program(), owner@, note_id) == Err::<
                NoteView,
                NotesError,
            >(e),
        },
{
    let program = store.program_id();
    match derive_note_address(owner, note_id, &program) {
        None => Err(NotesError::NotFound),
        Some(a) => store.read(&a),
    }
}

/// Relies on anchor_lang's `Clock` sysvar (`Sysvar::get`): the cluster's unix
/// timestamp, or none where the runtime offers no clock.
#[verifier::external_body]
fn clock_unix_timestamp() -> (r: Option<i64>) {
    <anchor_lang::solana_program::clock::Clock as anchor_lang::solana_program::sysvar::Sysvar>::get()
        .ok()
        .map(|c| c.unix_timestamp)
}

/// Creates the note that the signer keeps under `note_id`, stamped with the
/// clock's time; where there is no clock, nothing changes.
pub fn create_note_now(store: &mut NoteStore, ctx: &CreateNote, content: String, note_id: u64) -> (r:
    Result<(), NotesError>)
    requires
        old(store).wf(),
    ensures
        final(store).wf(),
        final(store).program() == old(store).program(),
        (r == Err::<(), NotesError>(NotesError::ClockUnavailable) && final(store)@ == old(store)@)
            || exists|now: i64|
            applied(
                #[trigger] create_outcome(
                    old(store)@,
                    old(store).program(),
                    ctx.user@,
                    content@,
                    note_id,
                    now,
                ),
                old(store)@,
                final(store)@,
                r,
            ),
{
    match clock_unix_timestamp() {
        None => Err(NotesError::ClockUnavailable),
        Some(now) => create_note(store, ctx, content, note_id, now),
    }
}

/// Gives the addressed note new content, stamped with the clock's time, where
/// the presented authority owns it; where there is no clock, nothing changes.
pub fn update_note_now(store: &mut NoteStore, ctx: &UpdateNote, content: String) -> (r: Result<
    (),
    NotesError,
>)
    requires
        old(store).wf(),
    ensures
        final(store).wf(),
        final(store).program() == old(store).program(),
        (r == Err::<(), NotesError>(NotesError::ClockUnavailable) && final(store)@ == old(store)@)
            || exists|now: i64|
            applied(
                #[trigger] update_outcome(
                    old(store)@,
                    old(store).program(),
                    ctx.user@,
                    ctx.authority@,
                    ctx.note_id,
                    content@,
                    now,
                ),
                old(store)@,
                final(store)@,
                r,
            ),
{
    match clock_unix_timestamp() {
        None => Err(NotesError::ClockUnavailable),
        Some(now) => update_note(store, ctx, content, now),
    }
}

} // verus!
