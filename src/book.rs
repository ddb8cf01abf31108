//! The five operations of the registry, each an atomic step of the state
//! machine modelled by the spec functions below.

use crate::address::{book_seed_list, config_seed_list, derive_book_address, derive_config_address, keys_equal, program_address};
use crate::records::{byte_len, Book, BookView, Config, ConfigView};
use crate::registry::{Registry, RegistryView};
use vstd::prelude::*;

verus! {

/// Why an operation was refused. A refused operation changes nothing.
#[derive(Clone, Copy, Debug, PartialEq, Eq, Structural)]
pub enum CustomError {
    TitleTooLong,
    AuthorTooLong,
    IsbnTooLong,
    ImageTooLong,
    PublisherTooLong,
    FormatTooLong,
    GenreTooLong,
    Unauthorized,
    UnauthorizedCreator,
    InvalidAdmin,
    /// The configuration record exists already.
    AlreadyInitialized,
    /// The configuration record has not been created.
    ConfigNotFound,
    /// No book record is stored at the given address.
    BookNotFound,
    /// A book record with this ISBN exists already.
    BookAlreadyExists,
    /// A stored bump does not match the one derived from the record's key.
    AddressMismatch,
    /// Derivation found no valid address for the seeds.
    NoViableAddress,
}

impl CustomError {
    pub fn message(&self) -> &'static str {
        match self {
            CustomError::TitleTooLong => "Title too long",
            CustomError::AuthorTooLong => "Author too long",
            CustomError::IsbnTooLong => "ISBN too long",
            CustomError::ImageTooLong => "Image URL/CID too long",
            CustomError::PublisherTooLong => "Publisher too long",
            CustomError::FormatTooLong => "Format string too long",
            CustomError::GenreTooLong => "Genre too long",
            CustomError::Unauthorized => "Unauthorized",
            CustomError::UnauthorizedCreator => "Only the configured admin can create books",
            CustomError::InvalidAdmin => "Invalid admin pubkey literal",
            CustomError::AlreadyInitialized => "Configuration already initialized",
            CustomError::ConfigNotFound => "Configuration not initialized",
            CustomError::BookNotFound => "Book not found",
            CustomError::BookAlreadyExists => "A book with this ISBN already exists",
            CustomError::AddressMismatch => "Stored bump does not match the derived address",
            CustomError::NoViableAddress => "No viable address for these seeds",
        }
    }
}

/// The caller of `initialize_config`.
pub struct InitializeConfig {
    pub authority: [u8; 32],
}

/// The caller of `create_book`.
pub struct CreateBook {
    pub authority: [u8; 32],
}

/// The book record to change, by address, and the caller.
pub struct UpdateGenre {
    pub book: [u8; 32],
    pub authority: [u8; 32],
}

/// The book record to change, by address, and the caller.
pub struct UpdateImage {
    pub book: [u8; 32],
    pub authority: [u8; 32],
}

/// The book record to delete, by address, and the caller.
pub struct CloseBook {
    pub book: [u8; 32],
    pub authority: [u8; 32],
}

/// The outcome of the administrator check for `caller`: `denied` where the
/// configuration names someone else.
pub open spec fn authorization(s: RegistryView, caller: Seq<u8>, denied: CustomError) -> Result<(), CustomError> {
    match s.config {
        None => Err(CustomError::ConfigNotFound),
        Some(c) => if c.admin == caller {
            Ok(())
        } else {
            Err(denied)
        },
    }
}

/// The first field, in the order title, author, ISBN, image, publisher,
/// format, genre, that exceeds its capacity.
pub open spec fn length_error(
    title: Seq<char>,
    author: Seq<char>,
    isbn: Seq<char>,
    image: Seq<char>,
    publisher: Seq<char>,
    format: Seq<char>,
    genre: Seq<char>,
) -> Option<CustomError> {
    if byte_len(title) > 200 {
        Some(CustomError::TitleTooLong)
    } else if byte_len(author) > 64 {
        Some(CustomError::AuthorTooLong)
    } else if byte_len(isbn) > 32 {
        Some(CustomError::IsbnTooLong)
    } else if byte_len(image) > 200 {
        Some(CustomError::ImageTooLong)
    } else if byte_len(publisher) > 64 {
        Some(CustomError::PublisherTooLong)
    } else if byte_len(format) > 32 {
        Some(CustomError::FormatTooLong)
    } else if byte_len(genre) > 32 {
        Some(CustomError::GenreTooLong)
    } else {
        None
    }
}

/// The book stored under the address derived from `isbn`, if any.
pub open spec fn lookup(s: RegistryView, isbn: Seq<char>) -> Option<BookView> {
    match program_address(book_seed_list(isbn), s.program_id) {
        Some((a, _)) => if s.books.contains_key(a) {
            Some(s.books[a])
        } else {
            None
        },
        None => None,
    }
}

/// The step `initialize_config` takes: its result and the next state.
pub open spec fn initialize_config_spec(s: RegistryView, caller: Seq<u8>) -> (Result<(), CustomError>, RegistryView) {
    if s.config is Some {
        (Err(CustomError::AlreadyInitialized), s)
    } else {
        match program_address(config_seed_list(), s.program_id) {
            None => (Err(CustomError::NoViableAddress), s),
            Some((_, bump)) => (Ok(()), RegistryView { config: Some(ConfigView { admin: caller, bump }), ..s }),
        }
    }
}

/// The step `create_book` takes: administrator check, then capacities in
/// field order, then derivation and the duplicate check.
pub open spec fn create_book_spec(
    s: RegistryView,
    caller: Seq<u8>,
    title: Seq<char>,
    author: Seq<char>,
    isbn: Seq<char>,
    image: Seq<char>,
    publisher: Seq<char>,
    publication_date: i64,
    format: Seq<char>,
    genre: Seq<char>,
    now: i64,
) -> (Result<(), CustomError>, RegistryView) {
    match authorization(s, caller, CustomError::UnauthorizedCreator) {
        Err(e) => (Err(e), s),
        Ok(()) => match length_error(title, author, isbn, image, publisher, format, genre) {
            Some(e) => (Err(e), s),
            None => match program_address(book_seed_list(isbn), s.program_id) {
                None => (Err(CustomError::NoViableAddress), s),
                Some((a, bump)) => if s.books.contains_key(a) {
                    (Err(CustomError::BookAlreadyExists), s)
                } else {
                    let b = BookView {
                        title,
                        author,
                        isbn,
                        image,
                        publisher,
                        publication_date,
                        format,
                        genre,
                        created_at: now,
                        bump,
                    };
                    (Ok(()), RegistryView { books: s.books.insert(a, b), ..s })
                },
            },
        },
    }
}

/// The step `update_genre` takes: the record must exist, then the
/// administrator check, then the capacity.
pub open spec fn update_genre_spec(s: RegistryView, address: Seq<u8>, caller: Seq<u8>, genre: Seq<char>) -> (Result<(), CustomError>, RegistryView) {
    if !s.books.contains_key(address) {
        (Err(CustomError::BookNotFound), s)
    } else {
        match authorization(s, caller, CustomError::Unauthorized) {
            Err(e) => (Err(e), s),
            Ok(()) => if byte_len(genre) > 32 {
                (Err(CustomError::GenreTooLong), s)
            } else {
                let b = BookView { genre, ..s.books[address] };
                (Ok(()), RegistryView { books: s.books.insert(address, b), ..s })
            },
        }
    }
}

/// The step `update_image` takes, as for the genre.
pub open spec fn update_image_spec(s: RegistryView, address: Seq<u8>, caller: Seq<u8>, image: Seq<char>) -> (Result<(), CustomError>, RegistryView) {
    if !s.books.contains_key(address) {
        (Err(CustomError::BookNotFound), s)
    } else {
        match authorization(s, caller, CustomError::Unauthorized) {
            Err(e) => (Err(e), s),
            Ok(()) => if byte_len(image) > 200 {
                (Err(CustomError::ImageTooLong), s)
            } else {
                let b = BookView { image, ..s.books[address] };
                (Ok(()), RegistryView { books: s.books.insert(address, b), ..s })
            },
        }
    }
}

/// The step `close_book` takes: the record must exist, then the
/// administrator check.
pub open spec fn close_book_spec(s: RegistryView, address: Seq<u8>, caller: Seq<u8>) -> (Result<(), CustomError>, RegistryView) {
    if !s.books.contains_key(address) {
        (Err(CustomError::BookNotFound), s)
    } else {
        match authorization(s, caller, CustomError::Unauthorized) {
            Err(e) => (Err(e), s),
            Ok(()) => (Ok(()), RegistryView { books: s.books.remove(address), ..s }),
        }
    }
}

/// Whether the UTF-8 encoding of `s` is longer than `max` bytes.
fn exceeds(s: &String, max: usize) -> (r: bool)
    ensures
        r == (byte_len(s@) > max),
{
    s.as_str().as_bytes().len() > max
}

/// The administrator check shared by every mutating operation.
fn authorize(registry: &Registry, caller: &[u8; 32], denied: CustomError) -> (r: Result<(), CustomError>)
    ensures
        r == authorization(registry@, caller@, denied),
{
    match registry.config() {
        None => Err(CustomError::ConfigNotFound),
        Some(c) => if keys_equal(&c.admin, caller) {
            Ok(())
        } else {
            Err(denied)
        },
    }
}

/// Creates the configuration record, naming the caller as administrator.
pub fn initialize_config(registry: &mut Registry, ctx: &InitializeConfig) -> (r: Result<(), CustomError>)
    requires
        old(registry).wf(),
    ensures
        final(registry).wf(),
        (r, final(registry)@) == initialize_config_spec(old(registry)@, ctx.authority@),
{
    if registry.config().is_some() {
        return Err(CustomError::AlreadyInitialized);
    }
    match derive_config_address(&registry.program_id()) {
        None => Err(CustomError::NoViableAddress),
        Some((_, bump)) => {
            registry.put_config(Config { admin: ctx.authority, bump });
            Ok(())
        },
    }
}

/// Creates the book record for `isbn`, stamped with `now`, where the
/// caller is the administrator, every field fits and the ISBN is new.
pub fn create_book(
    registry: &mut Registry,
    ctx: &CreateBook,
    title: String,
    author: String,
    isbn: String,
    image: String,
    publisher: String,
    publication_date: i64,
    format_: String,
    genre: String,
    now: i64,
) -> (r: Result<(), CustomError>)
    requires
        old(registry).wf(),
    ensures
        final(registry).wf(),
        (r, final(registry)@) == create_book_spec(
            old(registry)@,
            ctx.authority@,
            title@,
            author@,
            isbn@,
            image@,
            publisher@,
            publication_date,
            format_@,
            genre@,
            now,
        ),
{
    if let Err(e) = authorize(registry, &ctx.authority, CustomError::UnauthorizedCreator) {
        return Err(e);
    }
    if exceeds(&title, Book::MAX_TITLE) {
        return Err(CustomError::TitleTooLong);
    }
    if exceeds(&author, Book::MAX_AUTHOR) {
        return Err(CustomError::AuthorTooLong);
    }
    if exceeds(&isbn, Book::MAX_ISBN) {
        return Err(CustomError::IsbnTooLong);
    }
    if exceeds(&image, Book::MAX_IMAGE) {
        return Err(CustomError::ImageTooLong);
    }
    if exceeds(&publisher, Book::MAX_PUBLISHER) {
        return Err(CustomError::PublisherTooLong);
    }
    if exceeds(&format_, Book::MAX_FORMAT) {
        return Err(CustomError::FormatTooLong);
    }
    if exceeds(&genre, Book::MAX_GENRE) {
        return Err(CustomError::GenreTooLong);
    }
    let (address, bump) = match derive_book_address(isbn.as_str(), &registry.program_id()) {
        None => return Err(CustomError::NoViableAddress),
        Some(found) => found,
    };
    if registry.get(&address).is_some() {
        return Err(CustomError::BookAlreadyExists);
    }
    let book = Book {
        title,
        author,
        isbn,
        image,
        publisher,
        publication_date,
        format_,
        genre,
        created_at: now,
        bump,
    };
    registry.insert_book(address, book);
    Ok(())
}

/// Checks that the book at `address` is stored where its ISBN and bump
/// say it is; fails closed otherwise. In a well-formed registry it never fails.
fn check_stored_address(registry: &Registry, address: &[u8; 32]) -> (r: Result<(), CustomError>)
    requires
        registry.wf(),
    ensures
        r == (if registry@.books.contains_key(address@) {
            Ok(())
        } else {
            Err(CustomError::BookNotFound)
        }),
{
    proof {
        registry.lemma_valid();
    }
    let book = match registry.get(address) {
        None => return Err(CustomError::BookNotFound),
        Some(b) => b,
    };
    match derive_book_address(book.isbn.as_str(), &registry.program_id()) {
        None => Err(CustomError::AddressMismatch),
        Some((derived, bump)) => if keys_equal(&derived, address) && bump == book.bump {
            Ok(())
        } else {
            Err(CustomError::AddressMismatch)
        },
    }
}

/// Sets the genre of the book at `ctx.book`, where the caller is the
/// administrator and the genre fits.
pub fn update_genre(registry: &mut Registry, ctx: &UpdateGenre, genre: String) -> (r: Result<(), CustomError>)
    requires
        old(registry).wf(),
    ensures
        final(registry).wf(),
        (r, final(registry)@) == update_genre_spec(old(registry)@, ctx.book@, ctx.authority@, genre@),
{
    if let Err(e) = check_stored_address(registry, &ctx.book) {
        return Err(e);
    }
    if let Err(e) = authorize(registry, &ctx.authority, CustomError::Unauthorized) {
        return Err(e);
    }
    if exceeds(&genre, Book::MAX_GENRE) {
        return Err(CustomError::GenreTooLong);
    }
    proof {
        registry.lemma_valid();
    }
    registry.set_genre(&ctx.book, genre);
    Ok(())
}

/// Sets the image of the book at `ctx.book`, where the caller is the
/// administrator and the image fits. The capacity check is what keeps the
/// record within its fixed reserved size, as for the genre.
pub fn update_image(registry: &mut Registry, ctx: &UpdateImage, image: String) -> (r: Result<(), CustomError>)
    requires
        old(registry).wf(),
    ensures
        final(registry).wf(),
        (r, final(registry)@) == update_image_spec(old(registry)@, ctx.book@, ctx.authority@, image@),
{
    if let Err(e) = check_stored_address(registry, &ctx.book) {
        return Err(e);
    }
    if let Err(e) = authorize(registry, &ctx.authority, CustomError::Unauthorized) {
        return Err(e);
    }
    if exceeds(&image, Book::MAX_IMAGE) {
        return Err(CustomError::ImageTooLong);
    }
    proof {
        registry.lemma_valid();
    }
    registry.set_image(&ctx.book, image);
    Ok(())
}

/// Deletes the book at `ctx.book`, where the caller is the administrator.
pub fn close_book(registry: &mut Registry, ctx: &CloseBook) -> (r: Result<(), CustomError>)
    requires
        old(registry).wf(),
    ensures
        final(registry).wf(),
        (r, final(registry)@) == close_book_spec(old(registry)@, ctx.book@, ctx.authority@),
{
    if let Err(e) = check_stored_address(registry, &ctx.book) {
        return Err(e);
    }
    if let Err(e) = authorize(registry, &ctx.authority, CustomError::Unauthorized) {
        return Err(e);
    }
    let _ = registry.remove_book(&ctx.book);
    Ok(())
}

/// The address of the book record for `isbn`, whether or not it exists.
pub fn book_address(registry: &Registry, isbn: &str) -> (r: Option<[u8; 32]>)
    ensures
        match r {
            Some(a) => program_address(book_seed_list(isbn@), registry@.program_id) matches Some((d, _)) && d == a@,
            None => program_address(book_seed_list(isbn@), registry@.program_id) is None,
        },
{
    match derive_book_address(isbn, &registry.program_id()) {
        Some((address, _)) => Some(address),
        None => None,
    }
}

/// The book record for `isbn`, if there is one.
pub fn find_book<'a>(registry: &'a Registry, isbn: &str) -> (r: Option<&'a Book>)
    requires
        registry.wf(),
    ensures
        match r {
            Some(b) => lookup(registry@, isbn@) == Some(b@),
            None => lookup(registry@, isbn@) is None,
        },
{
    match book_address(registry, isbn) {
        Some(address) => registry.get(&address),
        None => None,
    }
}

} // verus!
