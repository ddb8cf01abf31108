//! Properties that hold across the operations of the registry.

use crate::address::{book_seed_list, config_seed_list, program_address};
use crate::book::{
    close_book_spec, create_book_spec, initialize_config_spec, length_error, lookup, update_genre_spec,
    update_image_spec, CustomError,
};
use crate::records::byte_len;
use crate::registry::RegistryView;
use vstd::prelude::*;

verus! {

/// Creating a book with fields that fit, as the administrator, and then
/// looking up its ISBN gives back every field as given, stamped with the
/// creation time.
pub proof fn lemma_create_then_lookup(
    s: RegistryView,
    caller: Seq<u8>,
    title: Seq<char>,
    author: Seq<char>,
    isbn: Seq<char>,
    image: Seq<char>,
    publisher: Seq<char>,
    publication_date: i64,
    format: Seq<char>,
    genre: Seq<char>,
    now: i64,
)
    requires
        s.config matches Some(c) && c.admin == caller,
        length_error(title, author, isbn, image, publisher, format, genre) is None,
        program_address(book_seed_list(isbn), s.program_id) is Some,
        lookup(s, isbn) is None,
    ensures
        ({
            let (r, t) = create_book_spec(
                s,
                caller,
                title,
                author,
                isbn,
                image,
                publisher,
                publication_date,
                format,
                genre,
                now,
            );
            &&& r == Ok::<(), CustomError>(())
            &&& lookup(t, isbn) matches Some(b) && b.title == title && b.author == author && b.isbn == isbn
                && b.image == image && b.publisher == publisher && b.publication_date == publication_date
                && b.format == format && b.genre == genre && b.created_at == now
        }),
{
}

/// Where a field exceeds its capacity, creation as the administrator fails
/// with that field's error (the first in field order) and stores nothing.
pub proof fn lemma_create_too_long(
    s: RegistryView,
    caller: Seq<u8>,
    title: Seq<char>,
    author: Seq<char>,
    isbn: Seq<char>,
    image: Seq<char>,
    publisher: Seq<char>,
    publication_date: i64,
    format: Seq<char>,
    genre: Seq<char>,
    now: i64,
)
    requires
        s.config matches Some(c) && c.admin == caller,
        length_error(title, author, isbn, image, publisher, format, genre) is Some,
    ensures
        ({
            let (r, t) = create_book_spec(
                s,
                caller,
                title,
                author,
                isbn,
                image,
                publisher,
                publication_date,
                format,
                genre,
                now,
            );
            &&& r == Err::<(), CustomError>(
                length_error(title, author, isbn, image, publisher, format, genre)->Some_0,
            )
            &&& t == s
            &&& lookup(t, isbn) == lookup(s, isbn)
        }),
{
}

/// Initializing twice: the first call succeeds, the second fails with
/// `AlreadyInitialized`, and the administrator is the first caller.
pub proof fn lemma_initialize_twice(s: RegistryView, first: Seq<u8>, second: Seq<u8>)
    requires
        s.config is None,
        program_address(config_seed_list(), s.program_id) is Some,
    ensures
        ({
            let (r1, t1) = initialize_config_spec(s, first);
            let (r2, t2) = initialize_config_spec(t1, second);
            &&& r1 == Ok::<(), CustomError>(())
            &&& r2 == Err::<(), CustomError>(CustomError::AlreadyInitialized)
            &&& t2 == t1
            &&& t2.config matches Some(c) && c.admin == first
        }),
{
}

/// Creation by anyone but the administrator fails with
/// `UnauthorizedCreator` and changes nothing, whatever the fields.
pub proof fn lemma_create_not_admin(
    s: RegistryView,
    caller: Seq<u8>,
    title: Seq<char>,
    author: Seq<char>,
    isbn: Seq<char>,
    image: Seq<char>,
    publisher: Seq<char>,
    publication_date: i64,
    format: Seq<char>,
    genre: Seq<char>,
    now: i64,
)
    requires
        s.config matches Some(c) && c.admin != caller,
    ensures
        create_book_spec(s, caller, title, author, isbn, image, publisher, publication_date, format, genre, now)
            == (Err::<(), CustomError>(CustomError::UnauthorizedCreator), s),
{
}

/// Setting the genre as the administrator changes that field of that book
/// and nothing else.
pub proof fn lemma_update_genre_only(s: RegistryView, address: Seq<u8>, caller: Seq<u8>, genre: Seq<char>)
    requires
        s.books.contains_key(address),
        s.config matches Some(c) && c.admin == caller,
        byte_len(genre) <= 32,
    ensures
        ({
            let (r, t) = update_genre_spec(s, address, caller, genre);
            let (old_b, new_b) = (s.books[address], t.books[address]);
            &&& r == Ok::<(), CustomError>(())
            &&& t.config == s.config && t.program_id == s.program_id
            &&& t.books.dom() == s.books.dom()
            &&& forall|a: Seq<u8>| #[trigger] t.books.contains_key(a) && a != address ==> t.books[a] == s.books[a]
            &&& new_b.genre == genre
            &&& new_b.title == old_b.title && new_b.author == old_b.author && new_b.isbn == old_b.isbn
            &&& new_b.image == old_b.image && new_b.publisher == old_b.publisher
            &&& new_b.publication_date == old_b.publication_date && new_b.format == old_b.format
            &&& new_b.created_at == old_b.created_at && new_b.bump == old_b.bump
        }),
{
    let (r, t) = update_genre_spec(s, address, caller, genre);
    assert(t.books.dom() =~= s.books.dom());
}

/// Setting the image as the administrator changes that field of that book
/// and nothing else.
pub proof fn lemma_update_image_only(s: RegistryView, address: Seq<u8>, caller: Seq<u8>, image: Seq<char>)
    requires
        s.books.contains_key(address),
        s.config matches Some(c) && c.admin == caller,
        byte_len(image) <= 200,
    ensures
        ({
            let (r, t) = update_image_spec(s, address, caller, image);
            let (old_b, new_b) = (s.books[address], t.books[address]);
            &&& r == Ok::<(), CustomError>(())
            &&& t.config == s.config && t.program_id == s.program_id
            &&& t.books.dom() == s.books.dom()
            &&& forall|a: Seq<u8>| #[trigger] t.books.contains_key(a) && a != address ==> t.books[a] == s.books[a]
            &&& new_b.image == image
            &&& new_b.title == old_b.title && new_b.author == old_b.author && new_b.isbn == old_b.isbn
            &&& new_b.genre == old_b.genre && new_b.publisher == old_b.publisher
            &&& new_b.publication_date == old_b.publication_date && new_b.format == old_b.format
            &&& new_b.created_at == old_b.created_at && new_b.bump == old_b.bump
        }),
{
    let (r, t) = update_image_spec(s, address, caller, image);
    assert(t.books.dom() =~= s.books.dom());
}

/// Closing a book as the administrator makes a later lookup of its ISBN
/// find nothing.
pub proof fn lemma_close_then_lookup(s: RegistryView, address: Seq<u8>, caller: Seq<u8>)
    requires
        s.valid(),
        s.books.contains_key(address),
        s.config matches Some(c) && c.admin == caller,
    ensures
        ({
            let (r, t) = close_book_spec(s, address, caller);
            &&& r == Ok::<(), CustomError>(())
            &&& lookup(t, s.books[address].isbn) is None
        }),
{
    assert(s.books.contains_key(address));
}

/// Closing a book as anyone but the administrator fails with
/// `Unauthorized`, and a lookup of its ISBN still finds it unchanged.
pub proof fn lemma_close_not_admin(s: RegistryView, address: Seq<u8>, caller: Seq<u8>)
    requires
        s.valid(),
        s.books.contains_key(address),
        s.config matches Some(c) && c.admin != caller,
    ensures
        ({
            let (r, t) = close_book_spec(s, address, caller);
            &&& r == Err::<(), CustomError>(CustomError::Unauthorized)
            &&& t == s
            &&& lookup(t, s.books[address].isbn) == Some(s.books[address])
        }),
{
    assert(s.books.contains_key(address));
}

} // verus!
