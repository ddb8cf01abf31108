//! The two kinds of record the registry stores, and their capacities.

use crate::address::{book_seed_list, config_seed_list, program_address};
use vstd::prelude::*;
use vstd::utf8::encode_utf8;

verus! {

/// The number of bytes that the UTF-8 encoding of `s` takes.
pub open spec fn byte_len(s: Seq<char>) -> nat {
    encode_utf8(s).len()
}

/// The singleton record that names the administrator.
#[derive(Clone, Copy, Debug, PartialEq, Eq)]
pub struct Config {
    pub admin: [u8; 32],
    pub bump: u8,
}

impl Config {
    /// Reserved size: an 8-byte discriminator, the admin key and the bump.
    pub const LEN: usize = 8 + 32 + 1;
}

pub struct ConfigView {
    pub admin: Seq<u8>,
    pub bump: u8,
}

impl View for Config {
    type V = ConfigView;

    open spec fn view(&self) -> ConfigView {
        ConfigView { admin: self.admin@, bump: self.bump }
    }
}

/// Whether `c` sits at the derived configuration address under `program_id`.
pub open spec fn config_at(program_id: Seq<u8>, c: ConfigView) -> bool {
    match program_address(config_seed_list(), program_id) {
        Some((_, bump)) => bump == c.bump,
        None => false,
    }
}

/// A book record, located by its ISBN.
#[derive(Clone, Debug, PartialEq, Eq)]
pub struct Book {
    pub title: String,
    pub author: String,
    pub isbn: String,
    pub image: String,
    pub publisher: String,
    pub publication_date: i64,
    pub format_: String,
    pub genre: String,
    pub created_at: i64,
    pub bump: u8,
}

impl Book {
    pub const MAX_TITLE: usize = 200;
    pub const MAX_AUTHOR: usize = 64;
    pub const MAX_ISBN: usize = 32;
    pub const MAX_IMAGE: usize = 200;
    pub const MAX_PUBLISHER: usize = 64;
    pub const MAX_FORMAT: usize = 32;
    pub const MAX_GENRE: usize = 32;

    /// Reserved size: a discriminator, the two timestamps, the bump, and
    /// for each text field a 4-byte length prefix and its full capacity.
    pub const MAX_SIZE: usize = 8 + 8 + 8 + 1 + 4 + Self::MAX_TITLE + 4 + Self::MAX_AUTHOR + 4
        + Self::MAX_ISBN + 4 + Self::MAX_IMAGE + 4 + Self::MAX_PUBLISHER + 4 + Self::MAX_FORMAT + 4
        + Self::MAX_GENRE;
}

pub struct BookView {
    pub title: Seq<char>,
    pub author: Seq<char>,
    pub isbn: Seq<char>,
    pub image: Seq<char>,
    pub publisher: Seq<char>,
    pub publication_date: i64,
    pub format: Seq<char>,
    pub genre: Seq<char>,
    pub created_at: i64,
    pub bump: u8,
}

impl View for Book {
    type V = BookView;

    open spec fn view(&self) -> BookView {
        BookView {
            title: self.title@,
            author: self.author@,
            isbn: self.isbn@,
            image: self.image@,
            publisher: self.publisher@,
            publication_date: self.publication_date,
            format: self.format_@,
            genre: self.genre@,
            created_at: self.created_at,
            bump: self.bump,
        }
    }
}

impl BookView {
    /// Every text field within its capacity, counted in bytes.
    pub open spec fn fits(self) -> bool {
        &&& byte_len(self.title) <= 200
        &&& byte_len(self.author) <= 64
        &&& byte_len(self.isbn) <= 32
        &&& byte_len(self.image) <= 200
        &&& byte_len(self.publisher) <= 64
        &&& byte_len(self.format) <= 32
        &&& byte_len(self.genre) <= 32
    }
}

/// Whether `b` may be stored at `address` under `program_id`: its fields fit,
/// and the address and bump are the ones derived from its ISBN.
pub open spec fn book_at(program_id: Seq<u8>, address: Seq<u8>, b: BookView) -> bool {
    &&& b.fits()
    &&& program_address(book_seed_list(b.isbn), program_id) == Some((address, b.bump))
}

} // verus!
