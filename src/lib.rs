pub mod address;
pub mod errors;
pub mod instructions;
pub mod laws;
pub mod state;
pub mod store;

pub use address::{derive_note_address, note_seeds_exec};
pub use errors::NotesError;
pub use instructions::{
    create_note, create_note_now, delete_note, read_note, update_note, update_note_now, CreateNote,
    DeleteNote, UpdateNote,
};
pub use state::{validate_content, Note, Pubkey, MAX_CONTENT_LEN};
pub use store::NoteStore;
