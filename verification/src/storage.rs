//! Note storage: the versioned schema of the notes file, the checks an
//! existing file must pass before it is used, and the save protocol, in
//! which the in-memory state changes only once the new file is in place.
//!
//! Reading, decoding, encoding and atomically replacing the file happen at
//! the application's edge; this module decides what is read, written and
//! kept.
use vstd::prelude::*;

use crate::domain::{
    describe_format_error, describe_parse_error, describe_uuid_error, format_rfc3339, is_uuid_v7, parse_rfc3339,
    parse_uuid, parsed_uuid, rfc3339_parsed, rfc3339_text, rfc3339_valid, uuid_text, uuid_to_text, uuid_version_of, Note,
    NoteView,
};
use crate::paths::{join, join_path};
use crate::text::{concat, decimal, is_blank, owned, push_decimal, push_str};

verus! {

/// The schema version this library reads and writes.
pub const CURRENT_SCHEMA_VERSION: u32 = 1;

/// The notes file, inside the data directory.
pub const NOTES_FILE_NAME: &'static str = "notes.json";

/// The stem of temporary files when the notes file has no usable name.
pub const FALLBACK_FILE_STEM: &'static str = "latchnott";

/// An error of a note repository.
#[derive(Debug, Clone, PartialEq, Eq)]
pub struct RepositoryError {
    message: String,
}

impl View for RepositoryError {
    type V = Seq<char>;

    closed spec fn view(&self) -> Seq<char> {
        self.message@
    }
}

impl RepositoryError {
    /// An error with the given message.
    pub fn new(message: &str) -> (r: Self)
        ensures
            r@ == message@,
    {
        RepositoryError { message: owned(message) }
    }

    fn from_text(message: String) -> (r: Self)
        ensures
            r@ == message@,
    {
        RepositoryError { message }
    }

    /// The error's message.
    pub fn message(&self) -> (r: &str)
        ensures
            r@ == self@,
    {
        self.message.as_str()
    }
}

/// The persistence boundary for notes.
pub trait NoteRepository {
    fn save(&mut self, note: Note) -> Result<(), RepositoryError>;
}

/// One stored note: its identifier and creation time as text.
#[derive(Debug, Clone, PartialEq, Eq)]
pub struct StorageEntry {
    pub id: String,
    pub text: String,
    pub created_at: String,
}

/// The whole notes file.
#[derive(Debug, Clone, PartialEq, Eq)]
pub struct StorageFile {
    pub schema_version: u32,
    pub entries: Vec<StorageEntry>,
}

/// Why a stored entry cannot be turned back into a note.
pub enum EntryProblem {
    InvalidId,
    NotVersion7,
    InvalidCreatedAt,
    BlankText,
}

/// The first problem of an entry, in the order the checks run: the
/// identifier must parse as a UUID, be of version 7, the creation time must
/// parse as RFC 3339, and the text must not be blank.
pub open spec fn entry_problem(entry: StorageEntry) -> Option<EntryProblem> {
    match parsed_uuid(entry.id@) {
        None => Some(EntryProblem::InvalidId),
        Some(value) => if !is_uuid_v7(value) {
            Some(EntryProblem::NotVersion7)
        } else if !rfc3339_valid(entry.created_at@) {
            Some(EntryProblem::InvalidCreatedAt)
        } else if is_blank(entry.text@) {
            Some(EntryProblem::BlankText)
        } else {
            None
        },
    }
}

pub open spec fn entry_valid(entry: StorageEntry) -> bool {
    entry_problem(entry) is None
}

/// A notes file this library accepts: the current schema, every entry valid.
pub open spec fn storage_valid(storage: StorageFile) -> bool {
    &&& storage.schema_version == CURRENT_SCHEMA_VERSION
    &&& forall|i: int| 0 <= i < storage.entries@.len() ==> entry_valid(#[trigger] storage.entries@[i])
}

pub open spec fn starts_with(text: Seq<char>, prefix: Seq<char>) -> bool {
    text.len() >= prefix.len() && text.subrange(0, prefix.len() as int) == prefix
}

/// The message that goes with each entry problem. Where the problem comes
/// from a parser, the message starts with a fixed text and goes on with the
/// parser's own description.
pub open spec fn problem_message(problem: EntryProblem, entry: StorageEntry, message: Seq<char>) -> bool {
    match problem {
        EntryProblem::InvalidId => starts_with(message, "invalid note id: "@),
        EntryProblem::NotVersion7 => message == "note id is not UUIDv7: "@ + entry.id@,
        EntryProblem::InvalidCreatedAt => starts_with(message, "invalid created_at: "@),
        EntryProblem::BlankText => message == "storage contains an empty or whitespace-only note"@,
    }
}

/// The entry at `i` is the first invalid one, and `message` goes with its
/// problem.
pub open spec fn first_problem_at(entries: Seq<StorageEntry>, i: int, message: Seq<char>) -> bool {
    &&& 0 <= i < entries.len()
    &&& forall|j: int| 0 <= j < i ==> entry_valid(#[trigger] entries[j])
    &&& entry_problem(entries[i]) matches Some(p) && problem_message(p, entries[i], message)
}

/// Why a notes file is refused, with the message that says so: its schema
/// version, or else its first invalid entry.
pub open spec fn storage_refusal(storage: StorageFile, message: Seq<char>) -> bool {
    ||| storage.schema_version != CURRENT_SCHEMA_VERSION && message == schema_message(
        storage.schema_version,
    )
    ||| storage.schema_version == CURRENT_SCHEMA_VERSION && exists|i: int|
        #[trigger] first_problem_at(storage.entries@, i, message)
}

/// The message for a notes file of another schema version.
pub open spec fn schema_message(version: u32) -> Seq<char> {
    "unsupported storage schema version: "@ + decimal(version as nat)
}

/// The entry that stores a note: the identifier in hyphenated form, the
/// text as it is, and the RFC 3339 form of the creation time, which reads
/// back to that time.
pub open spec fn entry_stores_note(entry: StorageEntry, note: NoteView) -> bool {
    &&& entry.id@ == uuid_text(note.id)
    &&& parsed_uuid(entry.id@) == Some(note.id)
    &&& entry.text@ == note.text
    &&& rfc3339_text(note.created_at) == Some(entry.created_at@)
    &&& rfc3339_parsed(entry.created_at@) == Some(note.created_at)
}

fn prefixed(prefix: &str, detail: String) -> (r: String)
    ensures
        r@ == prefix@ + detail@,
{
    let mut message = owned(prefix);
    push_str(&mut message, detail.as_str());
    message
}

proof fn lemma_prefix_starts(prefix: Seq<char>, detail: Seq<char>)
    ensures
        starts_with(prefix + detail, prefix),
{
    assert((prefix + detail).subrange(0, prefix.len() as int) =~= prefix);
}

/// Turns a stored entry back into a note, or says why it cannot.
pub fn entry_to_note(entry: &StorageEntry) -> (r: Result<Note, RepositoryError>)
    ensures
        match entry_problem(*entry) {
            None => r matches Ok(note) && Some(note@.id) == parsed_uuid(entry.id@) && note@.text
                == entry.text@ && Some(note@.created_at) == rfc3339_parsed(entry.created_at@),
            Some(problem) => r matches Err(e) && problem_message(problem, *entry, e@),
        },
{
    let id = match parse_uuid(entry.id.as_str()) {
        Ok(value) => value,
        Err(error) => {
            let detail = describe_uuid_error(&error);
            let message = prefixed("invalid note id: ", detail);
            proof {
                lemma_prefix_starts("invalid note id: "@, detail@);
            }
            return Err(RepositoryError::from_text(message));
        },
    };
    if uuid_version_of(id) != 7 {
        return Err(RepositoryError::from_text(concat("note id is not UUIDv7: ", entry.id.as_str())));
    }
    let created_at = match parse_rfc3339(entry.created_at.as_str()) {
        Ok(value) => value,
        Err(error) => {
            let detail = describe_parse_error(&error);
            let message = prefixed("invalid created_at: ", detail);
            proof {
                lemma_prefix_starts("invalid created_at: "@, detail@);
            }
            return Err(RepositoryError::from_text(message));
        },
    };
    match Note::restore(id, entry.text.clone(), created_at) {
        Some(note) => Ok(note),
        None => Err(RepositoryError::new("storage contains an empty or whitespace-only note")),
    }
}

impl StorageEntry {
    /// A field-by-field copy.
    pub fn copy(&self) -> (r: Self)
        ensures
            r == *self,
    {
        StorageEntry {
            id: self.id.clone(),
            text: self.text.clone(),
            created_at: self.created_at.clone(),
        }
    }
}

fn copy_entries(entries: &Vec<StorageEntry>) -> (r: Vec<StorageEntry>)
    ensures
        r@ == entries@,
{
    let mut r: Vec<StorageEntry> = Vec::new();
    let mut i: usize = 0;
    while i < entries.len()
        invariant
            i <= entries@.len(),
            r@ == entries@.take(i as int),
        decreases entries@.len() - i,
    {
        r.push(entries[i].copy());
        proof {
            assert(entries@.take(i + 1) =~= entries@.take(i as int).push(entries@[i as int]));
        }
        i = i + 1;
    }
    proof {
        assert(entries@.take(entries@.len() as int) =~= entries@);
    }
    r
}

/// The entry for a note, given what formatting its creation time as RFC 3339
/// gave: the identifier in hyphenated form, the text as it is, and that time
/// text; a formatting error fails the entry.
pub fn entry_from_formatted(
    note: &Note,
    created_at: Result<String, time::error::Format>,
) -> (r: Result<StorageEntry, RepositoryError>)
    ensures
        match created_at {
            Ok(time_text) => r matches Ok(entry) && entry.id@ == uuid_text(note@.id)
                && parsed_uuid(entry.id@) == Some(note@.id) && entry.text@ == note@.text
                && !is_blank(entry.text@) && entry.created_at@ == time_text@,
            Err(_) => r is Err,
        },
{
    let created_at = match created_at {
        Ok(text) => text,
        Err(error) => return Err(RepositoryError::from_text(describe_format_error(&error))),
    };
    let id = uuid_to_text(note.id_value());
    let text = owned(note.text());
    Ok(StorageEntry { id, text, created_at })
}

/// The entry that stores a note: `entry_from_formatted` on the RFC 3339
/// form of its creation time. It fails exactly where that formatting fails
/// (the `time` crate refuses years outside 0 to 9999 and offsets with
/// seconds).
pub fn note_to_entry(note: &Note) -> (r: Result<StorageEntry, RepositoryError>)
    ensures
        r is Ok == rfc3339_text(note@.created_at) is Some,
        r matches Ok(entry) ==> entry_stores_note(entry, note@),
        r matches Ok(entry) ==> (is_uuid_v7(note@.id) ==> entry_valid(entry)),
{
    let formatted = format_rfc3339(note.created_at());
    entry_from_formatted(note, formatted)
}

/// The checks of a notes file, in order: its schema version, then each
/// entry.
pub fn validate_storage(storage: &StorageFile) -> (r: Result<(), RepositoryError>)
    ensures
        r is Ok == storage_valid(*storage),
        r matches Err(e) ==> storage_refusal(*storage, e@),
{
    if storage.schema_version != CURRENT_SCHEMA_VERSION {
        let mut message = owned("unsupported storage schema version: ");
        push_decimal(&mut message, storage.schema_version);
        return Err(RepositoryError::from_text(message));
    }
    let mut i: usize = 0;
    while i < storage.entries.len()
        invariant
            storage.schema_version == CURRENT_SCHEMA_VERSION,
            i <= storage.entries@.len(),
            forall|j: int| 0 <= j < i ==> entry_valid(#[trigger] storage.entries@[j]),
        decreases storage.entries@.len() - i,
    {
        match entry_to_note(&storage.entries[i]) {
            Ok(_) => {},
            Err(error) => {
                proof {
                    assert(first_problem_at(storage.entries@, i as int, error@));
                    assert(!entry_valid(storage.entries@[i as int]));
                    assert(storage_refusal(*storage, error@));
                }
                return Err(error);
            },
        }
        i = i + 1;
    }
    Ok(())
}

/// A notes file that a save has built but not yet committed.
pub struct PendingSave {
    storage: StorageFile,
}

impl View for PendingSave {
    type V = StorageFile;

    closed spec fn view(&self) -> StorageFile {
        self.storage
    }
}

impl PendingSave {
    /// The notes file to write.
    pub fn storage(&self) -> (r: &StorageFile)
        ensures
            *r == self@,
    {
        &self.storage
    }
}

/// The abstract value of a JSON note repository: where its file is and
/// what the file holds.
pub struct JsonNoteRepositoryView {
    pub path: Seq<char>,
    pub storage: StorageFile,
}

/// A note repository kept in one JSON file.
pub struct JsonNoteRepository {
    path: String,
    storage: StorageFile,
}

impl View for JsonNoteRepository {
    type V = JsonNoteRepositoryView;

    closed spec fn view(&self) -> JsonNoteRepositoryView {
        JsonNoteRepositoryView { path: self.path@, storage: self.storage }
    }
}

impl JsonNoteRepository {
    /// A repository over the file at `path`, given what the file held:
    /// `None` where there is no file, which starts an empty current-schema
    /// store; otherwise the decoded file, which is used only where every
    /// check passes, and never replaced when one fails.
    pub fn from_loaded(path: &str, loaded: Option<StorageFile>) -> (r: Result<
        JsonNoteRepository,
        RepositoryError,
    >)
        ensures
            match loaded {
                None => r matches Ok(repository) && repository@.path == path@
                    && repository@.storage.schema_version == CURRENT_SCHEMA_VERSION
                    && repository@.storage.entries@.len() == 0,
                Some(storage) => {
                    &&& r is Ok == storage_valid(storage)
                    &&& r matches Ok(repository) ==> repository@.path == path@
                        && repository@.storage == storage
                    &&& r matches Err(e) ==> storage_refusal(storage, e@)
                },
            },
    {
        match loaded {
            None => Ok(
                JsonNoteRepository {
                    path: owned(path),
                    storage: StorageFile {
                        schema_version: CURRENT_SCHEMA_VERSION,
                        entries: Vec::new(),
                    },
                },
            ),
            Some(storage) => {
                validate_storage(&storage)?;
                Ok(JsonNoteRepository { path: owned(path), storage })
            },
        }
    }

    /// Where the notes file is.
    pub fn path(&self) -> (r: &str)
        ensures
            r@ == self@.path,
    {
        self.path.as_str()
    }

    /// What the notes file holds.
    pub fn storage(&self) -> (r: &StorageFile)
        ensures
            *r == self@.storage,
    {
        &self.storage
    }

    /// The first half of a save: the notes file with the note's entry
    /// appended after all the present ones. It fails exactly where the
    /// note's creation time has no RFC 3339 form.
    pub fn prepare_save(&self, note: &Note) -> (r: Result<PendingSave, RepositoryError>)
        ensures
            r is Ok == rfc3339_text(note@.created_at) is Some,
            r matches Ok(pending) ==> {
                &&& pending@.schema_version == self@.storage.schema_version
                &&& pending@.entries@.len() == self@.storage.entries@.len() + 1
                &&& pending@.entries@.drop_last() == self@.storage.entries@
                &&& entry_stores_note(pending@.entries@.last(), note@)
            },
            r matches Ok(pending) ==> (storage_valid(self@.storage) && is_uuid_v7(note@.id)
                ==> storage_valid(pending@)),
    {
        let entry = note_to_entry(note)?;
        Ok(self.pending_with_entry(entry))
    }

    /// The notes file with `entry` appended after all the present entries,
    /// under the same schema version; appending a valid entry to a valid file
    /// keeps it valid.
    pub fn pending_with_entry(&self, entry: StorageEntry) -> (r: PendingSave)
        ensures
            r@.schema_version == self@.storage.schema_version,
            r@.entries@ == self@.storage.entries@.push(entry),
            storage_valid(self@.storage) && entry_valid(entry) ==> storage_valid(r@),
    {
        let mut entries = copy_entries(&self.storage.entries);
        entries.push(entry);
        let pending = PendingSave {
            storage: StorageFile { schema_version: self.storage.schema_version, entries },
        };
        proof {
            assert(pending@.entries@.drop_last() =~= self@.storage.entries@);
            if storage_valid(self@.storage) && entry_valid(entry) {
                lemma_append_keeps_storage_valid(self@.storage, pending@);
            }
        }
        pending
    }

    /// The second half of a save, once the application has tried to put
    /// the pending file in place: the repository takes it on only where that
    /// succeeded, and keeps its state otherwise.
    pub fn complete_save(
        &mut self,
        pending: PendingSave,
        persisted: Result<(), RepositoryError>,
    ) -> (r: Result<(), RepositoryError>)
        ensures
            match persisted {
                Ok(()) => r is Ok && final(self)@.storage == pending@ && final(self)@.path == old(
                    self,
                )@.path,
                Err(e) => r == Err::<(), RepositoryError>(e) && final(self)@ == old(self)@,
            },
    {
        match persisted {
            Ok(()) => {
                self.storage = pending.storage;
                Ok(())
            },
            Err(error) => Err(error),
        }
    }
}

/// The notes file of a data directory.
pub fn notes_storage_path(data_dir: &str) -> (r: String)
    ensures
        r@ == join(data_dir@, NOTES_FILE_NAME@),
{
    join_path(data_dir, NOTES_FILE_NAME)
}

/// The name of the temporary file a save writes first, next to the notes
/// file: `.<file name>.<unique>.tmp`, with `latchnott` for a file without a
/// usable name.
pub fn temporary_file_name(file_name: Option<&str>, unique: &str) -> (r: String)
    ensures
        r@ == "."@ + (match file_name {
            Some(name) => name@,
            None => FALLBACK_FILE_STEM@,
        }) + "."@ + unique@ + ".tmp"@,
{
    let stem = match file_name {
        Some(name) => name,
        None => FALLBACK_FILE_STEM,
    };
    let mut r = owned(".");
    push_str(&mut r, stem);
    push_str(&mut r, ".");
    push_str(&mut r, unique);
    push_str(&mut r, ".tmp");
    r
}

/// A valid notes file with one more valid entry is valid: what a save of a
/// note with a version-7 identifier writes can always be read back.
pub proof fn lemma_append_keeps_storage_valid(storage: StorageFile, grown: StorageFile)
    requires
        storage_valid(storage),
        grown.schema_version == storage.schema_version,
        grown.entries@.len() == storage.entries@.len() + 1,
        grown.entries@.drop_last() == storage.entries@,
        entry_valid(grown.entries@.last()),
    ensures
        storage_valid(grown),
{
    assert forall|i: int| 0 <= i < grown.entries@.len() implies entry_valid(
        #[trigger] grown.entries@[i],
    ) by {
        if i < storage.entries@.len() {
            assert(grown.entries@[i] == grown.entries@.drop_last()[i]);
        }
    }
}

/// An entry written for a note with a version-7 identifier passes every
/// check of a notes file, and reads back as a note with the same identifier,
/// text and creation time.
pub proof fn lemma_stored_note_reads_back(entry: StorageEntry, note: NoteView)
    requires
        entry_stores_note(entry, note),
        is_uuid_v7(note.id),
        !is_blank(note.text),
    ensures
        entry_valid(entry),
        parsed_uuid(entry.id@) == Some(note.id),
        entry.text@ == note.text,
        rfc3339_parsed(entry.created_at@) == Some(note.created_at),
{
}

/// Two saves in a row, each appending the entry of a note with a version-7
/// identifier to a valid notes file (what `prepare_save` builds and
/// `complete_save` takes on), leave a valid file, which a reload accepts as
/// it is: the earlier entries, then the first note's entry, then the
/// second's, each reading back to its note.
pub proof fn lemma_two_saves_read_back(
    s0: StorageFile,
    s1: StorageFile,
    s2: StorageFile,
    n1: NoteView,
    n2: NoteView,
)
    requires
        storage_valid(s0),
        is_uuid_v7(n1.id),
        !is_blank(n1.text),
        is_uuid_v7(n2.id),
        !is_blank(n2.text),
        s1.schema_version == s0.schema_version,
        s1.entries@.len() == s0.entries@.len() + 1,
        s1.entries@.drop_last() == s0.entries@,
        entry_stores_note(s1.entries@.last(), n1),
        s2.schema_version == s1.schema_version,
        s2.entries@.len() == s1.entries@.len() + 1,
        s2.entries@.drop_last() == s1.entries@,
        entry_stores_note(s2.entries@.last(), n2),
    ensures
        storage_valid(s2),
        s2.entries@.len() == s0.entries@.len() + 2,
        s2.entries@.take(s0.entries@.len() as int) == s0.entries@,
        entry_stores_note(s2.entries@[s0.entries@.len() as int], n1),
        entry_stores_note(s2.entries@[s0.entries@.len() as int + 1], n2),
        entry_valid(s2.entries@[s0.entries@.len() as int]),
        entry_valid(s2.entries@[s0.entries@.len() as int + 1]),
{
    let k = s0.entries@.len() as int;
    lemma_stored_note_reads_back(s1.entries@.last(), n1);
    lemma_append_keeps_storage_valid(s0, s1);
    lemma_stored_note_reads_back(s2.entries@.last(), n2);
    lemma_append_keeps_storage_valid(s1, s2);
    assert(s2.entries@[k] == s2.entries@.drop_last()[k]);
    assert(s2.entries@.take(k) =~= s0.entries@) by {
        assert forall|i: int| 0 <= i < k implies s2.entries@.take(k)[i] == s0.entries@[i] by {
            assert(s2.entries@[i] == s2.entries@.drop_last()[i]);
            assert(s1.entries@[i] == s1.entries@.drop_last()[i]);
        }
    }
}

} // verus!
