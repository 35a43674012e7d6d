//! The record of one commit: its identity and what version control says of it.

use vstd::prelude::*;

verus! {

/// What a [`CommitRecord`] stands for in contracts.
pub struct CommitRecordView {
    pub id: Seq<char>,
    pub author_name: Seq<char>,
    pub author_email: Seq<char>,
    pub date: Seq<char>,
    pub message: Seq<char>,
    pub diff: Seq<char>,
}

/// One commit, immutable once made. Its identifier is never empty.
#[derive(Debug, PartialEq, Eq)]
pub struct CommitRecord {
    id: String,
    author_name: String,
    author_email: String,
    date: String,
    message: String,
    diff: String,
}

impl View for CommitRecord {
    type V = CommitRecordView;

    closed spec fn view(&self) -> CommitRecordView {
        CommitRecordView {
            id: self.id@,
            author_name: self.author_name@,
            author_email: self.author_email@,
            date: self.date@,
            message: self.message@,
            diff: self.diff@,
        }
    }
}

impl CommitRecord {
    #[verifier::type_invariant]
    spec fn identified(&self) -> bool {
        self.id@.len() > 0
    }

    /// Makes the record of the commit `id`. There is no record without an
    /// identifier: an empty `id` gives `None`.
    pub fn new(
        id: String,
        author_name: String,
        author_email: String,
        date: String,
        message: String,
        diff: String,
    ) -> (record: Option<CommitRecord>)
        ensures
            record is None <==> id@.len() == 0,
            record matches Some(c) ==> c@ == (CommitRecordView {
                id: id@,
                author_name: author_name@,
                author_email: author_email@,
                date: date@,
                message: message@,
                diff: diff@,
            }),
    {
        if id.as_str().is_empty() {
            None
        } else {
            Some(CommitRecord { id, author_name, author_email, date, message, diff })
        }
    }

    /// The identifier, which is never empty.
    pub fn id(&self) -> (s: &str)
        ensures
            s@ == self@.id,
            s@.len() > 0,
    {
        proof {
            use_type_invariant(self);
        }
        self.id.as_str()
    }

    pub fn author_name(&self) -> (s: &str)
        ensures
            s@ == self@.author_name,
    {
        self.author_name.as_str()
    }

    pub fn author_email(&self) -> (s: &str)
        ensures
            s@ == self@.author_email,
    {
        self.author_email.as_str()
    }

    pub fn date(&self) -> (s: &str)
        ensures
            s@ == self@.date,
    {
        self.date.as_str()
    }

    pub fn message(&self) -> (s: &str)
        ensures
            s@ == self@.message,
    {
        self.message.as_str()
    }

    /// The change itself, as text, for the provider to explain.
    pub fn diff(&self) -> (s: &str)
        ensures
            s@ == self@.diff,
    {
        self.diff.as_str()
    }
}

impl Clone for CommitRecord {
    fn clone(&self) -> (copy: Self)
        ensures
            copy@ == self@,
    {
        proof {
            use_type_invariant(self);
        }
        CommitRecord {
            id: self.id.clone(),
            author_name: self.author_name.clone(),
            author_email: self.author_email.clone(),
            date: self.date.clone(),
            message: self.message.clone(),
            diff: self.diff.clone(),
        }
    }
}

} // verus!
