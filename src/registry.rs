//! The keyed store: one configuration slot and book records by address.

use crate::address::keys_equal;
use crate::records::{book_at, config_at, Book, BookView, Config, ConfigView};
use vstd::prelude::*;

verus! {

struct BookEntry {
    address: [u8; 32],
    book: Book,
}

/// The state of one deployment: the program id that addresses are derived
/// under, the configuration record if it was created, and the book records.
pub struct Registry {
    program_id: [u8; 32],
    config: Option<Config>,
    entries: Vec<BookEntry>,
    books: Ghost<Map<Seq<u8>, BookView>>,
}

pub struct RegistryView {
    pub program_id: Seq<u8>,
    pub config: Option<ConfigView>,
    pub books: Map<Seq<u8>, BookView>,
}

pub open spec fn config_view(c: Option<Config>) -> Option<ConfigView> {
    match c {
        Some(c) => Some(c@),
        None => None,
    }
}

impl RegistryView {
    /// Every record sits at its derived address and every book fits.
    pub open spec fn valid(self) -> bool {
        &&& self.program_id.len() == 32
        &&& (self.config matches Some(c) ==> config_at(self.program_id, c))
        &&& forall|a: Seq<u8>| #[trigger]
            self.books.contains_key(a) ==> book_at(self.program_id, a, self.books[a])
    }
}

impl View for Registry {
    type V = RegistryView;

    closed spec fn view(&self) -> RegistryView {
        RegistryView { program_id: self.program_id@, config: config_view(self.config), books: self.books@ }
    }
}

impl Registry {
    pub closed spec fn wf(&self) -> bool {
        &&& self@.valid()
        &&& forall|i: int|
            0 <= i < self.entries.len() ==> {
                &&& #[trigger] self.books@.contains_key(self.entries@[i].address@)
                &&& self.books@[self.entries@[i].address@] == self.entries@[i].book@
            }
        &&& forall|a: Seq<u8>| #[trigger]
            self.books@.contains_key(a) ==> exists|i: int|
                0 <= i < self.entries.len() && self.entries@[i].address@ == a
        &&& forall|i: int, j: int|
            0 <= i < j < self.entries.len() ==> self.entries@[i].address@ != self.entries@[j].address@
    }

    pub proof fn lemma_valid(&self)
        requires
            self.wf(),
        ensures
            self@.valid(),
    {
    }

    /// An empty registry under `program_id`.
    pub fn new(program_id: [u8; 32]) -> (r: Registry)
        ensures
            r.wf(),
            r@ == (RegistryView { program_id: program_id@, config: None, books: Map::empty() }),
    {
        Registry { program_id, config: None, entries: Vec::new(), books: Ghost(Map::empty()) }
    }

    pub fn program_id(&self) -> (r: [u8; 32])
        ensures
            r@ == self@.program_id,
    {
        self.program_id
    }

    pub fn config(&self) -> (r: Option<Config>)
        ensures
            config_view(r) == self@.config,
    {
        self.config
    }

    /// Creates the configuration record.
    pub fn put_config(&mut self, c: Config)
        requires
            old(self).wf(),
            old(self)@.config is None,
            config_at(old(self)@.program_id, c@),
        ensures
            final(self).wf(),
            final(self)@ == (RegistryView { config: Some(c@), ..old(self)@ }),
    {
        self.config = Some(c);
        assert forall|a: Seq<u8>| #[trigger] self.books@.contains_key(a) implies exists|i: int|
            0 <= i < self.entries.len() && self.entries@[i].address@ == a by {
            assert(old(self).books@.contains_key(a));
            let i = choose|i: int| 0 <= i < old(self).entries.len() && old(self).entries@[i].address@ == a;
            assert(self.entries@[i] == old(self).entries@[i]);
        }
    }

    fn find(&self, address: &[u8; 32]) -> (r: Option<usize>)
        requires
            self.wf(),
        ensures
            match r {
                Some(i) => i < self.entries.len() && self.entries@[i as int].address@ == address@,
                None => !self@.books.contains_key(address@),
            },
    {
        let mut i: usize = 0;
        while i < self.entries.len()
            invariant
                i <= self.entries.len(),
                forall|j: int| 0 <= j < i ==> self.entries@[j].address@ != address@,
            decreases self.entries.len() - i,
        {
            if keys_equal(&self.entries[i].address, address) {
                return Some(i);
            }
            i = i + 1;
        }
        None
    }

    /// The book record at `address`, if there is one.
    pub fn get(&self, address: &[u8; 32]) -> (r: Option<&Book>)
        requires
            self.wf(),
        ensures
            match r {
                Some(b) => self@.books.contains_key(address@) && b@ == self@.books[address@],
                None => !self@.books.contains_key(address@),
            },
    {
        match self.find(address) {
            Some(i) => {
                assert(self.books@.contains_key(self.entries@[i as int].address@));
                Some(&self.entries[i].book)
            },
            None => None,
        }
    }

    /// Creates the book record at `address`, which must be free.
    pub fn insert_book(&mut self, address: [u8; 32], book: Book)
        requires
            old(self).wf(),
            !old(self)@.books.contains_key(address@),
            book_at(old(self)@.program_id, address@, book@),
        ensures
            final(self).wf(),
            final(self)@ == (RegistryView { books: old(self)@.books.insert(address@, book@), ..old(self)@ }),
    {
        let ghost a = address@;
        let ghost bv = book@;
        self.entries.push(BookEntry { address, book });
        self.books = Ghost(self.books@.insert(a, bv));
        assert forall|k: Seq<u8>| #[trigger] self.books@.contains_key(k) implies exists|i: int|
            0 <= i < self.entries.len() && self.entries@[i].address@ == k by {
            if k == a {
                assert(self.entries@[self.entries.len() - 1].address@ == k);
            } else {
                assert(old(self).books@.contains_key(k));
                let i = choose|i: int| 0 <= i < old(self).entries.len() && old(self).entries@[i].address@ == k;
                assert(self.entries@[i] == old(self).entries@[i]);
            }
        }
        assert forall|i: int| 0 <= i < self.entries.len() implies {
            &&& #[trigger] self.books@.contains_key(self.entries@[i].address@)
            &&& self.books@[self.entries@[i].address@] == self.entries@[i].book@
        } by {
            if i < old(self).entries.len() {
                assert(self.entries@[i] == old(self).entries@[i]);
                assert(old(self).books@.contains_key(old(self).entries@[i].address@));
            }
        }
    }

    /// Replacing one entry's book by one with the same ISBN and bump that
    /// fits keeps the store well formed.
    proof fn lemma_replace(pre: Registry, post: Registry, i: int)
        requires
            pre.wf(),
            0 <= i < pre.entries.len(),
            post.program_id == pre.program_id,
            post.config == pre.config,
            post.entries@.len() == pre.entries@.len(),
            forall|j: int| 0 <= j < pre.entries.len() && j != i ==> post.entries@[j] == pre.entries@[j],
            post.entries@[i].address == pre.entries@[i].address,
            post.entries@[i].book@.isbn == pre.entries@[i].book@.isbn,
            post.entries@[i].book@.bump == pre.entries@[i].book@.bump,
            post.entries@[i].book@.fits(),
            post.books@ == pre.books@.insert(pre.entries@[i].address@, post.entries@[i].book@),
        ensures
            post.wf(),
    {
        let a = pre.entries@[i].address@;
        assert(pre.books@.contains_key(a));
        assert forall|k: Seq<u8>| #[trigger] post.books@.contains_key(k) implies exists|j: int|
            0 <= j < post.entries.len() && post.entries@[j].address@ == k by {
            assert(pre.books@.contains_key(k));
            let j = choose|j: int| 0 <= j < pre.entries.len() && pre.entries@[j].address@ == k;
            assert(post.entries@[j].address == pre.entries@[j].address);
        }
        assert forall|j: int| 0 <= j < post.entries.len() implies {
            &&& #[trigger] post.books@.contains_key(post.entries@[j].address@)
            &&& post.books@[post.entries@[j].address@] == post.entries@[j].book@
        } by {
            if j != i {
                assert(pre.books@.contains_key(pre.entries@[j].address@));
            }
        }
        assert forall|j1: int, j2: int|
            0 <= j1 < j2 < post.entries.len() implies post.entries@[j1].address@
            != post.entries@[j2].address@ by {
            assert(post.entries@[j1].address == pre.entries@[j1].address);
            assert(post.entries@[j2].address == pre.entries@[j2].address);
        }
        assert forall|k: Seq<u8>| #[trigger] post.books@.contains_key(k) implies book_at(
            post.program_id@,
            k,
            post.books@[k],
        ) by {
            assert(pre@.books.contains_key(k));
            if k == a {
                assert(pre.books@[a] == pre.entries@[i].book@);
            }
        }
    }

    /// Sets the genre of the book record at `address`.
    pub fn set_genre(&mut self, address: &[u8; 32], genre: String)
        requires
            old(self).wf(),
            old(self)@.books.contains_key(address@),
            (BookView { genre: genre@, ..old(self)@.books[address@] }).fits(),
        ensures
            final(self).wf(),
            final(self)@ == (RegistryView {
                books: old(self)@.books.insert(address@, BookView { genre: genre@, ..old(self)@.books[address@] }),
                ..old(self)@
            }),
    {
        let ghost pre = *self;
        let i = self.find(address).unwrap();
        let ghost bv = BookView { genre: genre@, ..self.books@[address@] };
        self.entries[i].book.genre = genre;
        self.books = Ghost(self.books@.insert(address@, bv));
        proof {
            Registry::lemma_replace(pre, *self, i as int);
        }
    }

    /// Sets the image of the book record at `address`.
    pub fn set_image(&mut self, address: &[u8; 32], image: String)
        requires
            old(self).wf(),
            old(self)@.books.contains_key(address@),
            (BookView { image: image@, ..old(self)@.books[address@] }).fits(),
        ensures
            final(self).wf(),
            final(self)@ == (RegistryView {
                books: old(self)@.books.insert(address@, BookView { image: image@, ..old(self)@.books[address@] }),
                ..old(self)@
            }),
    {
        let ghost pre = *self;
        let i = self.find(address).unwrap();
        let ghost bv = BookView { image: image@, ..self.books@[address@] };
        self.entries[i].book.image = image;
        self.books = Ghost(self.books@.insert(address@, bv));
        proof {
            Registry::lemma_replace(pre, *self, i as int);
        }
    }

    /// Deletes the book record at `address`, handing it back.
    pub fn remove_book(&mut self, address: &[u8; 32]) -> (r: Option<Book>)
        requires
            old(self).wf(),
        ensures
            final(self).wf(),
            match r {
                Some(b) => old(self)@.books.contains_key(address@) && b@ == old(self)@.books[address@],
                None => !old(self)@.books.contains_key(address@),
            },
            final(self)@ == (RegistryView { books: old(self)@.books.remove(address@), ..old(self)@ }),
    {
        match self.find(address) {
            None => {
                assert(self.books@.remove(address@) =~= self.books@);
                None
            },
            Some(i) => {
                let ghost a = address@;
                assert(self.books@.contains_key(self.entries@[i as int].address@));
                let e = self.entries.remove(i);
                self.books = Ghost(self.books@.remove(a));
                assert forall|k: Seq<u8>| #[trigger] self.books@.contains_key(k) implies exists|j: int|
                    0 <= j < self.entries.len() && self.entries@[j].address@ == k by {
                    assert(old(self).books@.contains_key(k));
                    let j = choose|j: int|
                        0 <= j < old(self).entries.len() && old(self).entries@[j].address@ == k;
                    assert(j != i);
                    if j < i {
                        assert(self.entries@[j] == old(self).entries@[j]);
                    } else {
                        assert(self.entries@[j - 1] == old(self).entries@[j]);
                    }
                }
                assert forall|j: int| 0 <= j < self.entries.len() implies {
                    &&& #[trigger] self.books@.contains_key(self.entries@[j].address@)
                    &&& self.books@[self.entries@[j].address@] == self.entries@[j].book@
                } by {
                    let oj = if j < i { j } else { j + 1 };
                    assert(self.entries@[j] == old(self).entries@[oj]);
                    assert(old(self).books@.contains_key(old(self).entries@[oj].address@));
                }
                assert forall|j1: int, j2: int|
                    0 <= j1 < j2 < self.entries.len() implies self.entries@[j1].address@
                    != self.entries@[j2].address@ by {
                    let o1 = if j1 < i { j1 } else { j1 + 1 };
                    let o2 = if j2 < i { j2 } else { j2 + 1 };
                    assert(self.entries@[j1] == old(self).entries@[o1]);
                    assert(self.entries@[j2] == old(self).entries@[o2]);
                }
                Some(e.book)
            },
        }
    }
}

} // verus!
