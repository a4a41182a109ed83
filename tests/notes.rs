use anchor_lang::solana_program::pubkey::Pubkey as ChainKey;
use notes_app::{
    create_note, create_note_now, delete_note, derive_note_address, note_seeds_exec, read_note,
    update_note, update_note_now, validate_content, CreateNote, DeleteNote, Note, NoteStore,
    NotesError, Pubkey, UpdateNote,
};

fn key(b: u8) -> Pubkey {
    Pubkey::new_from_array([b; 32])
}

fn program() -> Pubkey {
    key(9)
}

fn store_with(owner: Pubkey, note_id: u64, content: &str, now: i64) -> NoteStore {
    let mut store = NoteStore::new(program());
    let r = create_note(&mut store, &CreateNote { user: owner }, content.to_string(), note_id, now);
    assert_eq!(r, Ok(()));
    store
}

fn update_ctx(user: Pubkey, authority: Pubkey, note_id: u64) -> UpdateNote {
    UpdateNote { user, authority, note_id }
}

fn delete_ctx(user: Pubkey, authority: Pubkey, note_id: u64) -> DeleteNote {
    DeleteNote { user, authority, note_id }
}

#[test]
fn owner_lifecycle_example() {
    let u1 = key(1);
    let u2 = key(2);
    let mut store = store_with(u1, 7, "hello", 100);
    assert_eq!(
        read_note(&store, &u1, 7),
        Ok(Note { authority: u1, content: "hello".to_string(), note_id: 7, created_at: 100, updated_at: 100 })
    );
    assert_eq!(update_note(&mut store, &update_ctx(u1, u1, 7), "world".to_string(), 150), Ok(()));
    assert_eq!(
        read_note(&store, &u1, 7),
        Ok(Note { authority: u1, content: "world".to_string(), note_id: 7, created_at: 100, updated_at: 150 })
    );
    assert_eq!(
        update_note(&mut store, &update_ctx(u1, u2, 7), "hijack".to_string(), 160),
        Err(NotesError::Unauthorized)
    );
    assert_eq!(read_note(&store, &u1, 7).unwrap().content, "world");
    assert_eq!(delete_note(&mut store, &delete_ctx(u1, u1, 7)), Ok(()));
    assert_eq!(read_note(&store, &u1, 7), Err(NotesError::NotFound));
}

#[test]
fn create_then_read_returns_exact_record() {
    let u = key(3);
    let text = "a short note with ünïcödé";
    let store = store_with(u, 42, text, 5);
    let n = read_note(&store, &u, 42).unwrap();
    assert_eq!(n.content, text);
    assert_eq!(n.created_at, n.updated_at);
    assert_eq!(n.authority, u);
    assert_eq!(n.note_id, 42);
}

#[test]
fn create_empty_content_is_rejected() {
    let mut store = NoteStore::new(program());
    let r = create_note(&mut store, &CreateNote { user: key(1) }, String::new(), 1, 10);
    assert_eq!(r, Err(NotesError::ContentEmpty));
    assert_eq!(read_note(&store, &key(1), 1), Err(NotesError::NotFound));
}

#[test]
fn create_content_of_1001_bytes_is_rejected() {
    let mut store = NoteStore::new(program());
    let r = create_note(&mut store, &CreateNote { user: key(1) }, "a".repeat(1001), 1, 10);
    assert_eq!(r, Err(NotesError::ContentTooLong));
    assert_eq!(read_note(&store, &key(1), 1), Err(NotesError::NotFound));
}

#[test]
fn create_content_of_1000_bytes_is_accepted() {
    let store = store_with(key(1), 1, &"a".repeat(1000), 10);
    assert_eq!(read_note(&store, &key(1), 1).unwrap().content.len(), 1000);
}

#[test]
fn content_length_counts_bytes_not_chars() {
    assert_eq!(validate_content(&"é".repeat(500)), Ok(()));
    assert_eq!(validate_content(&"é".repeat(501)), Err(NotesError::ContentTooLong));
    assert_eq!(validate_content(&"x".to_string()), Ok(()));
    assert_eq!(validate_content(&String::new()), Err(NotesError::ContentEmpty));
}

#[test]
fn create_twice_same_id_is_occupied() {
    let u = key(4);
    let mut store = store_with(u, 3, "first", 10);
    let r = create_note(&mut store, &CreateNote { user: u }, "second".to_string(), 3, 20);
    assert_eq!(r, Err(NotesError::AddressAlreadyOccupied));
    assert_eq!(
        read_note(&store, &u, 3),
        Ok(Note { authority: u, content: "first".to_string(), note_id: 3, created_at: 10, updated_at: 10 })
    );
}

#[test]
fn distinct_ids_and_owners_hold_distinct_notes() {
    let mut store = store_with(key(1), 1, "one", 10);
    assert_eq!(create_note(&mut store, &CreateNote { user: key(1) }, "two".to_string(), 2, 11), Ok(()));
    assert_eq!(create_note(&mut store, &CreateNote { user: key(2) }, "three".to_string(), 1, 12), Ok(()));
    assert_eq!(read_note(&store, &key(1), 1).unwrap().content, "one");
    assert_eq!(read_note(&store, &key(1), 2).unwrap().content, "two");
    assert_eq!(read_note(&store, &key(2), 1).unwrap().content, "three");
    assert_eq!(read_note(&store, &key(2), 2), Err(NotesError::NotFound));
}

#[test]
fn update_by_owner_keeps_identity_fields() {
    let u = key(5);
    let mut store = store_with(u, 8, "draft", 100);
    assert_eq!(update_note(&mut store, &update_ctx(u, u, 8), "final".to_string(), 300), Ok(()));
    let n = read_note(&store, &u, 8).unwrap();
    assert_eq!(n.content, "final");
    assert_eq!(n.updated_at, 300);
    assert_eq!(n.created_at, 100);
    assert_eq!(n.note_id, 8);
    assert_eq!(n.authority, u);
}

#[test]
fn update_by_other_authority_leaves_record_unchanged() {
    let u = key(5);
    let mut store = store_with(u, 8, "draft", 100);
    let before = read_note(&store, &u, 8).unwrap();
    let r = update_note(&mut store, &update_ctx(u, key(6), 8), "changed".to_string(), 300);
    assert_eq!(r, Err(NotesError::Unauthorized));
    assert_eq!(read_note(&store, &u, 8).unwrap(), before);
}

#[test]
fn update_checks_authority_before_content() {
    let u = key(5);
    let mut store = store_with(u, 8, "draft", 100);
    let r = update_note(&mut store, &update_ctx(u, key(6), 8), String::new(), 300);
    assert_eq!(r, Err(NotesError::Unauthorized));
    let r = update_note(&mut store, &update_ctx(u, key(6), 8), "b".repeat(1001), 300);
    assert_eq!(r, Err(NotesError::Unauthorized));
}

#[test]
fn update_with_bad_content_is_rejected() {
    let u = key(5);
    let mut store = store_with(u, 8, "draft", 100);
    assert_eq!(update_note(&mut store, &update_ctx(u, u, 8), String::new(), 300), Err(NotesError::ContentEmpty));
    assert_eq!(
        update_note(&mut store, &update_ctx(u, u, 8), "b".repeat(1001), 300),
        Err(NotesError::ContentTooLong)
    );
    assert_eq!(read_note(&store, &u, 8).unwrap().content, "draft");
    assert_eq!(read_note(&store, &u, 8).unwrap().updated_at, 100);
}

#[test]
fn update_of_missing_note_is_not_found() {
    let mut store = store_with(key(1), 1, "one", 10);
    assert_eq!(update_note(&mut store, &update_ctx(key(1), key(1), 2), "x".to_string(), 20), Err(NotesError::NotFound));
    // another signer addresses another slot, even with the right authority
    assert_eq!(update_note(&mut store, &update_ctx(key(2), key(1), 1), "x".to_string(), 20), Err(NotesError::NotFound));
}

#[test]
fn delete_by_owner_frees_the_address() {
    let u = key(7);
    let mut store = store_with(u, 11, "gone soon", 10);
    assert_eq!(delete_note(&mut store, &delete_ctx(u, u, 11)), Ok(()));
    assert_eq!(read_note(&store, &u, 11), Err(NotesError::NotFound));
    assert_eq!(create_note(&mut store, &CreateNote { user: u }, "again".to_string(), 11, 20), Ok(()));
    assert_eq!(read_note(&store, &u, 11).unwrap().created_at, 20);
}

#[test]
fn delete_by_other_authority_keeps_the_note() {
    let u = key(7);
    let mut store = store_with(u, 11, "mine", 10);
    assert_eq!(delete_note(&mut store, &delete_ctx(u, key(8), 11)), Err(NotesError::Unauthorized));
    assert_eq!(read_note(&store, &u, 11).unwrap().content, "mine");
}

#[test]
fn delete_of_missing_note_is_not_found() {
    let mut store = NoteStore::new(program());
    assert_eq!(delete_note(&mut store, &delete_ctx(key(1), key(1), 1)), Err(NotesError::NotFound));
    let mut store = store_with(key(1), 1, "one", 10);
    assert_eq!(delete_note(&mut store, &delete_ctx(key(1), key(1), 1)), Ok(()));
    assert_eq!(delete_note(&mut store, &delete_ctx(key(1), key(1), 1)), Err(NotesError::NotFound));
}

#[test]
fn address_derivation_is_deterministic_and_separates_ids() {
    let a1 = derive_note_address(&key(1), 7, &program()).unwrap();
    let a2 = derive_note_address(&key(1), 7, &program()).unwrap();
    let b = derive_note_address(&key(1), 8, &program()).unwrap();
    let c = derive_note_address(&key(2), 7, &program()).unwrap();
    assert_eq!(a1, a2);
    assert_ne!(a1, b);
    assert_ne!(a1, c);
    assert_ne!(a1, key(1));
    assert_ne!(a1, program());
}

#[test]
fn address_matches_program_derived_address() {
    let owner = [3u8; 32];
    let id: u64 = 0x0102_0304_0506_0708;
    let (expected, _) = ChainKey::find_program_address(
        &[b"note", owner.as_ref(), id.to_le_bytes().as_ref()],
        &ChainKey::new_from_array(program().to_bytes()),
    );
    let got = derive_note_address(&Pubkey::new_from_array(owner), id, &program()).unwrap();
    assert_eq!(got.to_bytes(), expected.to_bytes());
}

#[test]
fn note_seeds_are_prefix_owner_and_le_id() {
    let seeds = note_seeds_exec(&key(4), 0x0102_0304_0506_0708);
    assert_eq!(seeds.len(), 3);
    assert_eq!(seeds[0], b"note".to_vec());
    assert_eq!(seeds[1], vec![4u8; 32]);
    assert_eq!(seeds[2], vec![8, 7, 6, 5, 4, 3, 2, 1]);
}

#[test]
fn keys_compare_by_bytes() {
    let mut bytes = [1u8; 32];
    assert!(key(1).same_key(&Pubkey::new_from_array(bytes)));
    bytes[31] = 2;
    assert!(!key(1).same_key(&Pubkey::new_from_array(bytes)));
    assert_eq!(key(1).to_vec(), vec![1u8; 32]);
}

#[test]
fn clock_less_runtime_changes_nothing() {
    let u = key(1);
    let mut store = store_with(u, 1, "kept", 10);
    let created = create_note_now(&mut store, &CreateNote { user: u }, "new".to_string(), 2);
    let updated = update_note_now(&mut store, &update_ctx(u, u, 1), "changed".to_string());
    match created {
        Err(NotesError::ClockUnavailable) => assert_eq!(read_note(&store, &u, 2), Err(NotesError::NotFound)),
        other => assert_eq!(other, Ok(())),
    }
    match updated {
        Err(NotesError::ClockUnavailable) => assert_eq!(read_note(&store, &u, 1).unwrap().content, "kept"),
        other => assert_eq!(other, Ok(())),
    }
}

#[test]
fn store_reports_its_program_and_contents() {
    let store = store_with(key(1), 1, "one", 10);
    assert_eq!(store.program_id(), program());
    let a = derive_note_address(&key(1), 1, &program()).unwrap();
    assert!(store.contains(&a));
    assert!(!store.contains(&key(1)));
    assert_eq!(store.read(&a).unwrap().content, "one");
    assert_eq!(store.read(&key(1)), Err(NotesError::NotFound));
}

#[test]
fn store_interface_create_write_delete() {
    let mut store = NoteStore::new(program());
    let a = key(20);
    let n = Note { authority: key(1), content: "v1".to_string(), note_id: 1, created_at: 1, updated_at: 1 };
    assert_eq!(store.write(&a, n.clone()), Err(NotesError::NotFound));
    assert_eq!(store.create(&a, n.clone()), Ok(()));
    assert_eq!(store.create(&a, n.clone()), Err(NotesError::AddressAlreadyOccupied));
    let n2 = Note { content: "v2".to_string(), updated_at: 2, ..n.clone() };
    assert_eq!(store.write(&a, n2.clone()), Ok(()));
    assert_eq!(store.read(&a), Ok(n2));
    assert_eq!(store.delete(&a), Ok(()));
    assert_eq!(store.delete(&a), Err(NotesError::NotFound));
}

#[test]
fn error_messages_are_readable() {
    assert_eq!(NotesError::Unauthorized.message(), "You are not authorized to perform this action.");
    assert_eq!(NotesError::ContentTooLong.message(), "Content is too long. Maximum 1000 characters.");
    assert_eq!(NotesError::ContentEmpty.message(), "Content cannot be empty.");
    assert!(!NotesError::NotFound.message().is_empty());
    assert!(!NotesError::AddressAlreadyOccupied.message().is_empty());
}
