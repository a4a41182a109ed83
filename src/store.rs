use vstd::prelude::*;

use crate::errors::NotesError;
use crate::state::{valid_content, Note, NoteView, Pubkey};

verus! {

/// One occupied slot: a note and the address it stands at.
pub struct Slot {
    pub address: Pubkey,
    pub note: Note,
}

/// The store of notes of one program, each at its own address.
///
/// As a value it is a map from addresses to notes; every note in it holds
/// valid content.
pub struct NoteStore {
    program_id: Pubkey,
    slots: Vec<Slot>,
    model: Ghost<Map<Seq<u8>, NoteView>>,
}

impl View for NoteStore {
    type V = Map<Seq<u8>, NoteView>;

    closed spec fn view(&self) -> Map<Seq<u8>, NoteView> {
        self.model@
    }
}

/// Every note of the map holds valid content.
pub open spec fn all_content_valid(m: Map<Seq<u8>, NoteView>) -> bool {
    forall|a: Seq<u8>| #[trigger] m.contains_key(a) ==> valid_content(m[a].content)
}

impl NoteStore {
    /// The identity of the program whose notes the store keeps.
    pub closed spec fn program(&self) -> Seq<u8> {
        self.program_id@
    }

    pub closed spec fn wf(&self) -> bool {
        &&& forall|i: int, j: int|
            0 <= i < j < self.slots@.len() ==> self.slots@[i].address@ != self.slots@[j].address@
        &&& forall|i: int|
            0 <= i < self.slots@.len() ==> self.model@.contains_key(#[trigger] self.slots@[i].address@)
                && self.model@[self.slots@[i].address@] == self.slots@[i].note@
        &&& forall|a: Seq<u8>| #[trigger]
            self.model@.contains_key(a) ==> exists|i: int|
                0 <= i < self.slots@.len() && #[trigger] self.slots@[i].address@ == a
        &&& all_content_valid(self.model@)
    }

    /// Every note that a well-formed store keeps holds between 1 and 1000
    /// bytes of content.
    pub proof fn lemma_contents_valid(&self)
        requires
            self.wf(),
        ensures
            all_content_valid(self@),
    {
    }

    /// An empty store for the notes of `program_id`.
    pub fn new(program_id: Pubkey) -> (r: NoteStore)
        ensures
            r.wf(),
            r@ == Map::<Seq<u8>, NoteView>::empty(),
            r.program() == program_id@,
    {
        NoteStore { program_id, slots: Vec::new(), model: Ghost(Map::empty()) }
    }

    pub fn program_id(&self) -> (r: Pubkey)
        ensures
            r@ == self.program(),
    {
        self.program_id
    }

    /// Where the slot at `address` is, if there is one.
    fn find(&self, address: &Pubkey) -> (r: Option<usize>)
        requires
            self.wf(),
        ensures
            r is Some <==> self@.contains_key(address@),
            r is Some ==> r->0 < self.slots@.len() && self.slots@[r->0 as int].address@
                == address@,
    {
        let mut i: usize = 0;
        while i < self.slots.len()
            invariant
                self.wf(),
                0 <= i <= self.slots@.len(),
                forall|j: int| 0 <= j < i ==> self.slots@[j].address@ != address@,
            decreases self.slots@.len() - i,
        {
            if self.slots[i].address.same_key(address) {
                return Some(i);
            }
            i = i + 1;
        }
        None
    }

    /// Whether a note stands at `address`.
    pub fn contains(&self, address: &Pubkey) -> (r: bool)
        requires
            self.wf(),
        ensures
            r == self@.contains_key(address@),
    {
        self.find(address).is_some()
    }

    /// The note at `address`.
    pub fn read(&self, address: &Pubkey) -> (r: Result<Note, NotesError>)
        requires
            self.wf(),
        ensures
            match r {
                Ok(n) => self@.contains_key(address@) && n@ == self@[address@],
                Err(e) => !self@.contains_key(address@) && e == NotesError::NotFound,
            },
    {
        match self.find(address) {
            Some(i) => Ok(self.slots[i].note.copy_note()),
            None => Err(NotesError::NotFound),
        }
    }

    /// Puts `note` at `address`, where no note stands yet.
    pub fn create(&mut self, address: &Pubkey, note: Note) -> (r: Result<(), NotesError>)
        requires
            old(self).wf(),
            valid_content(note.content@),
        ensures
            final(self).wf(),
            final(self).program() == old(self).program(),
            match r {
                Ok(()) => !old(self)@.contains_key(address@) && final(self)@ == old(self)@.insert(
                    address@,
                    note@,
                ),
                Err(e) => old(self)@.contains_key(address@) && e
                    == NotesError::AddressAlreadyOccupied && final(self)@ == old(self)@,
            },
    {
        if self.find(address).is_some() {
            return Err(NotesError::AddressAlreadyOccupied);
        }
        let ghost old_slots = self.slots@;
        let ghost n = note@;
        self.slots.push(Slot { address: *address, note });
        self.model = Ghost(self.model@.insert(address@, n));
        assert forall|a: Seq<u8>| #[trigger] self.model@.contains_key(a) implies exists|i: int|
            0 <= i < self.slots@.len() && #[trigger] self.slots@[i].address@ == a by {
            if a == address@ {
                assert(self.slots@[old_slots.len() as int].address@ == a);
            } else {
                let i = choose|i: int| 0 <= i < old_slots.len() && #[trigger] old_slots[i].address@ == a;
                assert(self.slots@[i].address@ == a);
            }
        }
        Ok(())
    }

    /// Replaces the note at `address` with `note`.
    pub fn write(&mut self, address: &Pubkey, note: Note) -> (r: Result<(), NotesError>)
        requires
            old(self).wf(),
            valid_content(note.content@),
        ensures
            final(self).wf(),
            final(self).program() == old(self).program(),
            match r {
                Ok(()) => old(self)@.contains_key(address@) && final(self)@ == old(self)@.insert(
                    address@,
                    note@,
                ),
                Err(e) => !old(self)@.contains_key(address@) && e == NotesError::NotFound
                    && final(self)@ == old(self)@,
            },
    {
        match self.find(address) {
            None => Err(NotesError::NotFound),
            Some(k) => {
                let ghost old_slots = self.slots@;
                let ghost n = note@;
                self.slots.set(k, Slot { address: *address, note });
                self.model = Ghost(self.model@.insert(address@, n));
                assert forall|a: Seq<u8>| #[trigger] self.model@.contains_key(a) implies exists|i: int|
                    0 <= i < self.slots@.len() && #[trigger] self.slots@[i].address@ == a by {
                    let i = choose|i: int| 0 <= i < old_slots.len() && #[trigger] old_slots[i].address@ == a;
                    assert(self.slots@[i].address@ == a);
                }
                Ok(())
            },
        }
    }

    /// Removes the note at `address`.
    pub fn delete(&mut self, address: &Pubkey) -> (r: Result<(), NotesError>)
        requires
            old(self).wf(),
        ensures
            final(self).wf(),
            final(self).program() == old(self).program(),
            match r {
                Ok(()) => old(self)@.contains_key(address@) && final(self)@ == old(self)@.remove(
                    address@,
                ),
                Err(e) => !old(self)@.contains_key(address@) && e == NotesError::NotFound
                    && final(self)@ == old(self)@,
            },
    {
        match self.find(address) {
            None => Err(NotesError::NotFound),
            Some(k) => {
                let ghost old_slots = self.slots@;
                let ghost old_model = self.model@;
                self.slots.remove(k);
                self.model = Ghost(self.model@.remove(address@));
                assert forall|i: int| 0 <= i < self.slots@.len() implies self.model@.contains_key(
                    #[trigger] self.slots@[i].address@,
                ) && self.model@[self.slots@[i].address@] == self.slots@[i].note@ by {
                    if i < k {
                        assert(self.slots@[i] == old_slots[i]);
                    } else {
                        assert(self.slots@[i] == old_slots[i + 1]);
                    }
                }
                assert forall|a: Seq<u8>| #[trigger] self.model@.contains_key(a) implies exists|j: int|
                    0 <= j < self.slots@.len() && #[trigger] self.slots@[j].address@ == a by {
                    let i = choose|i: int| 0 <= i < old_slots.len() && #[trigger] old_slots[i].address@ == a;
                    if i < k {
                        assert(self.slots@[i].address@ == a);
                    } else {
                        assert(i != k);
                        assert(self.slots@[i - 1].address@ == a);
                    }
                }
                Ok(())
            },
        }
    }
}

} // verus!
