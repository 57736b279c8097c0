//! Creating notes: validate the text, stamp it, and hand it to storage.
use vstd::prelude::*;

use crate::domain::{current_date_time, is_uuid_v7, Note, NoteView};
use crate::storage::{NoteRepository, RepositoryError};
use crate::text::is_blank;

verus! {

/// Creates and persists notes through a repository.
pub struct CreateNote<'a, R> {
    repository: &'a mut R,
    handed: Ghost<Seq<NoteView>>,
    answers: Ghost<Seq<Result<(), RepositoryError>>>,
}

impl<'a, R> CreateNote<'a, R> {
    /// The repository as the use case now sees it.
    pub closed spec fn repository_now(self) -> R {
        *self.repository
    }

    /// The notes handed to the repository's `save` so far, in order.
    pub closed spec fn notes_handed(self) -> Seq<NoteView> {
        self.handed@
    }

    /// What the repository's `save` answered to each of those notes.
    pub closed spec fn answers_received(self) -> Seq<Result<(), RepositoryError>> {
        self.answers@
    }
}

impl<'a, R: NoteRepository> CreateNote<'a, R> {
    /// A use case over the given repository.
    pub fn new(repository: &'a mut R) -> (r: Self)
        ensures
            r.repository_now() == *old(repository),
            r.notes_handed() == Seq::<NoteView>::empty(),
            r.answers_received() == Seq::<Result<(), RepositoryError>>::empty(),
    {
        CreateNote { repository, handed: Ghost(Seq::empty()), answers: Ghost(Seq::empty()) }
    }

    /// Creates a note from `text`, stamped with the current time, and saves
    /// it. Blank text creates nothing and leaves the repository untouched
    /// (`Ok(None)`). Otherwise the note, with a fresh version-7 identifier
    /// and the text as given, is handed to the repository; its error is
    /// returned as it is, and on success the note is returned. The note is
    /// handed to `save` exactly once, and what `save` answers decides the
    /// result: nothing else refuses a note.
    pub fn execute(&mut self, text: String) -> (r: Result<Option<Note>, RepositoryError>)
        ensures
            is_blank(text@) ==> r == Ok::<Option<Note>, RepositoryError>(None)
                && final(self).repository_now() == old(self).repository_now()
                && final(self).notes_handed() == old(self).notes_handed()
                && final(self).answers_received() == old(self).answers_received(),
            !is_blank(text@) ==> ({
                let handed = final(self).notes_handed();
                let answers = final(self).answers_received();
                &&& handed.len() == old(self).notes_handed().len() + 1
                &&& handed.drop_last() == old(self).notes_handed()
                &&& answers.len() == old(self).answers_received().len() + 1
                &&& answers.drop_last() == old(self).answers_received()
                &&& handed.last().text == text@
                &&& is_uuid_v7(handed.last().id)
                &&& match answers.last() {
                    Ok(()) => r matches Ok(Some(note)) && note@ == handed.last(),
                    Err(e) => r == Err::<Option<Note>, RepositoryError>(e),
                }
            }),
            !is_blank(text@) ==> match r {
                Ok(Some(note)) => note@.text == text@ && is_uuid_v7(note@.id),
                Ok(None) => false,
                Err(_) => true,
            },
    {
        let note = match Note::new(text, current_date_time()) {
            Some(note) => note,
            None => return Ok(None),
        };
        let copy = note.duplicate();
        let ghost handed_note = copy@;
        let saved = self.repository.save(copy);
        proof {
            self.handed@ = self.handed@.push(handed_note);
            self.answers@ = self.answers@.push(saved);
        }
        answer_after_save(note, saved)
    }
}

/// What creating a note answers once the repository has answered the save
/// of `note`: the note itself after a save, the repository's error as it is
/// otherwise.
pub fn answer_after_save(note: Note, saved: Result<(), RepositoryError>) -> (r: Result<
    Option<Note>,
    RepositoryError,
>)
    ensures
        match saved {
            Ok(()) => r matches Ok(Some(n)) && n@ == note@,
            Err(e) => r == Err::<Option<Note>, RepositoryError>(e),
        },
{
    match saved {
        Ok(()) => Ok(Some(note)),
        Err(error) => Err(error),
    }
}

} // verus!
