use vstd::prelude::*;

use crate::command::BookmarkCommand;
use crate::text::{decimal_chars, push_decimal};

verus! {

/// How one bookmark is listed: `(i) name` followed by two spaces.
pub open spec fn entry_text(i: nat, name: Seq<char>) -> Seq<char> {
    seq!['('] + decimal_chars(i) + seq![')', ' '] + name + seq![' ', ' ']
}

/// How a list of bookmarks is shown: each entry with its position, in order.
pub open spec fn listing_spec(entries: Seq<String>) -> Seq<char>
    decreases entries.len(),
{
    if entries.len() == 0 {
        Seq::empty()
    } else {
        listing_spec(entries.drop_last()) + entry_text(
            (entries.len() - 1) as nat,
            entries.last()@,
        )
    }
}

/// A saved list of bookmarks, in the order they were added.
pub struct Bookmarks {
    entries: Vec<String>,
}

impl View for Bookmarks {
    type V = Seq<String>;

    closed spec fn view(&self) -> Seq<String> {
        self.entries@
    }
}

/// Why a bookmark command was refused.
#[derive(Clone, Copy, Debug, PartialEq, Eq, Structural)]
pub enum BookmarkError {
    /// No bookmark stands at this position.
    InvalidIndex(usize),
}

/// What a bookmark command did.
#[derive(Clone, Debug)]
pub enum BookmarkOutcome {
    /// The list is to be shown as it stands.
    Listed,
    /// This bookmark was appended.
    Added(String),
    /// This bookmark was taken out.
    Removed(String),
}

impl Bookmarks {
    /// A list holding `entries`, in order.
    pub fn new(entries: Vec<String>) -> (r: Bookmarks)
        ensures
            r@ == entries@,
    {
        Bookmarks { entries }
    }

    /// Number of bookmarks.
    pub fn len(&self) -> (r: usize)
        ensures
            r == self@.len(),
    {
        self.entries.len()
    }

    /// The bookmarks, in order.
    pub fn entries(&self) -> (r: &Vec<String>)
        ensures
            r@ == self@,
    {
        &self.entries
    }

    /// The list as shown to the user: `(0) first  (1) second  ...`.
    pub fn listing(&self) -> (r: String)
        ensures
            r@ == listing_spec(self@),
    {
        proof {
            reveal_strlit("");
            assert(""@ =~= Seq::<char>::empty());
        }
        let mut out = String::from_str("");
        let mut i: usize = 0;
        while i < self.entries.len()
            invariant
                i <= self@.len(),
                self@ == self.entries@,
                out@ == listing_spec(self@.subrange(0, i as int)),
            decreases self@.len() - i,
        {
            proof {
                reveal_strlit("(");
                reveal_strlit(") ");
                reveal_strlit("  ");
                assert("("@ =~= seq!['(']);
                assert(") "@ =~= seq![')', ' ']);
                assert("  "@ =~= seq![' ', ' ']);
            }
            let ghost before = out@;
            out.append("(");
            push_decimal(&mut out, i);
            out.append(") ");
            out.append(self.entries[i].as_str());
            out.append("  ");
            proof {
                let s = self@.subrange(0, i as int + 1);
                assert(s.drop_last() =~= self@.subrange(0, i as int));
                assert(s.last() == self@[i as int]);
                assert(out@ =~= before + entry_text(i as nat, self@[i as int]@));
            }
            i = i + 1;
        }
        assert(self@.subrange(0, self@.len() as int) =~= self@);
        out
    }

    /// Appends a bookmark.
    pub fn push(&mut self, bookmark: String)
        ensures
            final(self)@ == old(self)@.push(bookmark),
    {
        self.entries.push(bookmark);
    }

    /// Takes out the bookmark at `index`, or reports that there is none.
    pub fn remove(&mut self, index: usize) -> (r: Result<String, BookmarkError>)
        ensures
            index < old(self)@.len() ==> r == Ok::<String, BookmarkError>(old(self)@[index as int])
                && final(self)@ == old(self)@.remove(index as int),
            index >= old(self)@.len() ==> r == Err::<String, BookmarkError>(
                BookmarkError::InvalidIndex(index),
            ) && final(self)@ == old(self)@,
    {
        if index >= self.entries.len() {
            return Err(BookmarkError::InvalidIndex(index));
        }
        Ok(self.entries.remove(index))
    }
}

/// Keeps and edits the bookmark list.
pub struct BookmarkSpec {
    pub silent: bool,
    pub bookmarks: Bookmarks,
}

impl BookmarkSpec {
    /// A command runner over the list loaded from storage.
    pub fn new(silent: bool, bookmarks: Bookmarks) -> (r: BookmarkSpec)
        ensures
            r.silent == silent,
            r.bookmarks@ == bookmarks@,
    {
        BookmarkSpec { silent, bookmarks }
    }

    /// Applies a command to the list: listing leaves it as it is, adding
    /// appends, removing takes out the entry at the index or refuses an index
    /// past the end and leaves the list unchanged.
    pub fn apply(&mut self, c: BookmarkCommand) -> (r: Result<BookmarkOutcome, BookmarkError>)
        ensures
            final(self).silent == old(self).silent,
            c is Stdout ==> (r matches Ok(BookmarkOutcome::Listed)) && final(self).bookmarks@ == old(
                self,
            ).bookmarks@,
            c matches BookmarkCommand::Add { bookmark } ==> (r matches Ok(
                BookmarkOutcome::Added(b),
            ) && b == bookmark) && final(self).bookmarks@ == old(self).bookmarks@.push(bookmark),
            c matches BookmarkCommand::Remove { index } ==> if index < old(
                self,
            ).bookmarks@.len() {
                (r matches Ok(BookmarkOutcome::Removed(b)) && b == old(self).bookmarks@[index as int])
                    && final(self).bookmarks@ == old(self).bookmarks@.remove(index as int)
            } else {
                r == Err::<BookmarkOutcome, BookmarkError>(BookmarkError::InvalidIndex(index))
                    && final(self).bookmarks@ == old(self).bookmarks@
            },
    {
        match c {
            BookmarkCommand::Stdout => Ok(BookmarkOutcome::Listed),
            BookmarkCommand::Add { bookmark } => {
                let added = bookmark.clone();
                self.bookmarks.push(bookmark);
                Ok(BookmarkOutcome::Added(added))
            },
            BookmarkCommand::Remove { index } => match self.bookmarks.remove(index) {
                Ok(removed) => Ok(BookmarkOutcome::Removed(removed)),
                Err(e) => Err(e),
            },
        }
    }
}

} // verus!
