use book_registry::address::{derive_book_address, derive_config_address, keys_equal};
use book_registry::book::{
    book_address, close_book, create_book, find_book, initialize_config, update_genre, update_image, CloseBook,
    CreateBook, CustomError, InitializeConfig, UpdateGenre, UpdateImage,
};
use book_registry::records::{Book, Config};
use book_registry::registry::Registry;

const PROGRAM: [u8; 32] = [7u8; 32];
const ADMIN: [u8; 32] = [1u8; 32];
const OTHER: [u8; 32] = [2u8; 32];
const ISBN: &str = "978-0-13-468599-1";

fn initialized() -> Registry {
    let mut reg = Registry::new(PROGRAM);
    assert_eq!(initialize_config(&mut reg, &InitializeConfig { authority: ADMIN }), Ok(()));
    reg
}

fn create(reg: &mut Registry, caller: [u8; 32], fields: [&str; 7], now: i64) -> Result<(), CustomError> {
    let [title, author, isbn, image, publisher, format_, genre] = fields;
    create_book(
        reg,
        &CreateBook { authority: caller },
        title.to_string(),
        author.to_string(),
        isbn.to_string(),
        image.to_string(),
        publisher.to_string(),
        1_500_000_000,
        format_.to_string(),
        genre.to_string(),
        now,
    )
}

fn sample(isbn: &str, genre: &str) -> [String; 7] {
    [
        "The Pragmatic Programmer".to_string(),
        "Thomas and Hunt".to_string(),
        isbn.to_string(),
        "ipfs://bafy".to_string(),
        "Addison-Wesley".to_string(),
        "hardcover".to_string(),
        genre.to_string(),
    ]
}

fn refs(f: &[String; 7]) -> [&str; 7] {
    [&f[0], &f[1], &f[2], &f[3], &f[4], &f[5], &f[6]]
}

fn address(reg: &Registry, isbn: &str) -> [u8; 32] {
    book_address(reg, isbn).expect("derivation succeeds")
}

#[test]
fn scenario_admin_lifecycle() {
    let mut reg = initialized();
    let f = sample(ISBN, "fiction");
    assert_eq!(create(&mut reg, ADMIN, refs(&f), 100), Ok(()));
    let at = address(&reg, ISBN);
    let denied = update_genre(&mut reg, &UpdateGenre { book: at, authority: OTHER }, "nonfiction".to_string());
    assert_eq!(denied, Err(CustomError::Unauthorized));
    assert_eq!(find_book(&reg, ISBN).unwrap().genre, "fiction");
    let done = update_genre(&mut reg, &UpdateGenre { book: at, authority: ADMIN }, "nonfiction".to_string());
    assert_eq!(done, Ok(()));
    assert_eq!(find_book(&reg, ISBN).unwrap().genre, "nonfiction");
    assert_eq!(close_book(&mut reg, &CloseBook { book: at, authority: ADMIN }), Ok(()));
    assert!(find_book(&reg, ISBN).is_none());
}

#[test]
fn create_then_find_returns_every_field() {
    let mut reg = initialized();
    let f = sample(ISBN, "fiction");
    assert_eq!(create(&mut reg, ADMIN, refs(&f), 1_700_000_123), Ok(()));
    let b = find_book(&reg, ISBN).unwrap();
    assert_eq!(b.title, f[0]);
    assert_eq!(b.author, f[1]);
    assert_eq!(b.isbn, f[2]);
    assert_eq!(b.image, f[3]);
    assert_eq!(b.publisher, f[4]);
    assert_eq!(b.format_, f[5]);
    assert_eq!(b.genre, f[6]);
    assert_eq!(b.publication_date, 1_500_000_000);
    assert_eq!(b.created_at, 1_700_000_123);
    let (_, bump) = derive_book_address(ISBN, &PROGRAM).unwrap();
    assert_eq!(b.bump, bump);
}

#[test]
fn create_fails_on_each_overlong_field() {
    let limits = [200usize, 64, 32, 200, 64, 32, 32];
    let errors = [
        CustomError::TitleTooLong,
        CustomError::AuthorTooLong,
        CustomError::IsbnTooLong,
        CustomError::ImageTooLong,
        CustomError::PublisherTooLong,
        CustomError::FormatTooLong,
        CustomError::GenreTooLong,
    ];
    for k in 0..7 {
        let mut reg = initialized();
        let mut f = sample(ISBN, "fiction");
        f[k] = "x".repeat(limits[k] + 1);
        assert_eq!(create(&mut reg, ADMIN, refs(&f), 5), Err(errors[k]));
        assert!(find_book(&reg, &f[2]).is_none());
        assert!(find_book(&reg, ISBN).is_none());
    }
}

#[test]
fn create_reports_first_overlong_field() {
    let mut reg = initialized();
    let mut f = sample(ISBN, "fiction");
    f[0] = "t".repeat(201);
    f[6] = "g".repeat(33);
    assert_eq!(create(&mut reg, ADMIN, refs(&f), 5), Err(CustomError::TitleTooLong));
}

#[test]
fn create_accepts_fields_at_capacity() {
    let mut reg = initialized();
    let isbn = "9".repeat(32);
    let f = [
        "t".repeat(200),
        "a".repeat(64),
        isbn.clone(),
        "i".repeat(200),
        "p".repeat(64),
        "f".repeat(32),
        "g".repeat(32),
    ];
    assert_eq!(create(&mut reg, ADMIN, refs(&f), 5), Ok(()));
    assert_eq!(find_book(&reg, &isbn).unwrap().title.len(), 200);
}

#[test]
fn lengths_count_bytes_not_characters() {
    let mut reg = initialized();
    let f = sample(ISBN, &"\u{e9}".repeat(17));
    assert_eq!(create(&mut reg, ADMIN, refs(&f), 5), Err(CustomError::GenreTooLong));
    let f = sample(ISBN, &"\u{e9}".repeat(16));
    assert_eq!(create(&mut reg, ADMIN, refs(&f), 5), Ok(()));
}

#[test]
fn initialize_twice_keeps_first_admin() {
    let mut reg = Registry::new(PROGRAM);
    assert_eq!(initialize_config(&mut reg, &InitializeConfig { authority: ADMIN }), Ok(()));
    assert_eq!(
        initialize_config(&mut reg, &InitializeConfig { authority: OTHER }),
        Err(CustomError::AlreadyInitialized)
    );
    let cfg: Config = reg.config().unwrap();
    assert_eq!(cfg.admin, ADMIN);
    assert_eq!(cfg.bump, derive_config_address(&PROGRAM).unwrap().1);
}

#[test]
fn create_by_non_admin_is_refused() {
    let mut reg = initialized();
    let f = sample(ISBN, "fiction");
    assert_eq!(create(&mut reg, OTHER, refs(&f), 5), Err(CustomError::UnauthorizedCreator));
    assert!(find_book(&reg, ISBN).is_none());
}

#[test]
fn create_before_initialize_is_refused() {
    let mut reg = Registry::new(PROGRAM);
    let f = sample(ISBN, "fiction");
    assert_eq!(create(&mut reg, ADMIN, refs(&f), 5), Err(CustomError::ConfigNotFound));
    assert!(find_book(&reg, ISBN).is_none());
}

#[test]
fn duplicate_isbn_is_refused_and_first_kept() {
    let mut reg = initialized();
    let f = sample(ISBN, "fiction");
    assert_eq!(create(&mut reg, ADMIN, refs(&f), 5), Ok(()));
    let g = sample(ISBN, "poetry");
    assert_eq!(create(&mut reg, ADMIN, refs(&g), 6), Err(CustomError::BookAlreadyExists));
    let b = find_book(&reg, ISBN).unwrap();
    assert_eq!(b.genre, "fiction");
    assert_eq!(b.created_at, 5);
}

#[test]
fn update_genre_changes_only_genre() {
    let mut reg = initialized();
    let f = sample(ISBN, "fiction");
    assert_eq!(create(&mut reg, ADMIN, refs(&f), 42), Ok(()));
    let other = sample("0-00-000000-0", "drama");
    assert_eq!(create(&mut reg, ADMIN, refs(&other), 43), Ok(()));
    let before: Book = find_book(&reg, ISBN).unwrap().clone();
    let at = address(&reg, ISBN);
    assert_eq!(update_genre(&mut reg, &UpdateGenre { book: at, authority: ADMIN }, "history".to_string()), Ok(()));
    let after = find_book(&reg, ISBN).unwrap();
    assert_eq!(after.genre, "history");
    assert_eq!(Book { genre: before.genre.clone(), ..after.clone() }, before);
    assert_eq!(find_book(&reg, "0-00-000000-0").unwrap().genre, "drama");
}

#[test]
fn update_image_changes_only_image() {
    let mut reg = initialized();
    let f = sample(ISBN, "fiction");
    assert_eq!(create(&mut reg, ADMIN, refs(&f), 42), Ok(()));
    let before: Book = find_book(&reg, ISBN).unwrap().clone();
    let at = address(&reg, ISBN);
    assert_eq!(update_image(&mut reg, &UpdateImage { book: at, authority: ADMIN }, "ar://cover".to_string()), Ok(()));
    let after = find_book(&reg, ISBN).unwrap();
    assert_eq!(after.image, "ar://cover");
    assert_eq!(Book { image: before.image.clone(), ..after.clone() }, before);
}

#[test]
fn update_errors_leave_record_unchanged() {
    let mut reg = initialized();
    let f = sample(ISBN, "fiction");
    assert_eq!(create(&mut reg, ADMIN, refs(&f), 42), Ok(()));
    let before: Book = find_book(&reg, ISBN).unwrap().clone();
    let at = address(&reg, ISBN);
    let long_genre = "g".repeat(33);
    assert_eq!(
        update_genre(&mut reg, &UpdateGenre { book: at, authority: ADMIN }, long_genre),
        Err(CustomError::GenreTooLong)
    );
    let long_image = "i".repeat(201);
    assert_eq!(
        update_image(&mut reg, &UpdateImage { book: at, authority: ADMIN }, long_image),
        Err(CustomError::ImageTooLong)
    );
    assert_eq!(
        update_image(&mut reg, &UpdateImage { book: at, authority: OTHER }, "x".to_string()),
        Err(CustomError::Unauthorized)
    );
    assert_eq!(find_book(&reg, ISBN).unwrap(), &before);
}

#[test]
fn operations_on_missing_book_fail() {
    let mut reg = initialized();
    let at = address(&reg, ISBN);
    assert_eq!(
        update_genre(&mut reg, &UpdateGenre { book: at, authority: ADMIN }, "x".to_string()),
        Err(CustomError::BookNotFound)
    );
    assert_eq!(
        update_image(&mut reg, &UpdateImage { book: at, authority: ADMIN }, "x".to_string()),
        Err(CustomError::BookNotFound)
    );
    assert_eq!(close_book(&mut reg, &CloseBook { book: at, authority: ADMIN }), Err(CustomError::BookNotFound));
}

#[test]
fn close_by_admin_removes_record() {
    let mut reg = initialized();
    let f = sample(ISBN, "fiction");
    assert_eq!(create(&mut reg, ADMIN, refs(&f), 42), Ok(()));
    let at = address(&reg, ISBN);
    assert_eq!(close_book(&mut reg, &CloseBook { book: at, authority: ADMIN }), Ok(()));
    assert!(find_book(&reg, ISBN).is_none());
    assert!(reg.get(&at).is_none());
    assert_eq!(create(&mut reg, ADMIN, refs(&f), 50), Ok(()));
    assert_eq!(find_book(&reg, ISBN).unwrap().created_at, 50);
}

#[test]
fn close_by_non_admin_is_refused() {
    let mut reg = initialized();
    let f = sample(ISBN, "fiction");
    assert_eq!(create(&mut reg, ADMIN, refs(&f), 42), Ok(()));
    let before: Book = find_book(&reg, ISBN).unwrap().clone();
    let at = address(&reg, ISBN);
    assert_eq!(close_book(&mut reg, &CloseBook { book: at, authority: OTHER }), Err(CustomError::Unauthorized));
    assert_eq!(find_book(&reg, ISBN).unwrap(), &before);
}

#[test]
fn derived_addresses_are_deterministic_and_distinct() {
    let a1 = derive_book_address(ISBN, &PROGRAM).unwrap();
    let a2 = derive_book_address(ISBN, &PROGRAM).unwrap();
    assert_eq!(a1, a2);
    let b = derive_book_address("978-3-16-148410-0", &PROGRAM).unwrap();
    assert_ne!(a1.0, b.0);
    assert_ne!(a1.0, PROGRAM);
    let c = derive_config_address(&PROGRAM).unwrap();
    assert_ne!(c.0, a1.0);
    assert_ne!(c.0, PROGRAM);
    let other_program = derive_book_address(ISBN, &[8u8; 32]).unwrap();
    assert_ne!(other_program.0, a1.0);
}

#[test]
fn overlong_seed_has_no_address() {
    assert!(derive_book_address(&"9".repeat(33), &PROGRAM).is_none());
}

#[test]
fn keys_compare_bytewise() {
    assert!(keys_equal(&ADMIN, &[1u8; 32]));
    let mut k = ADMIN;
    k[31] = 0;
    assert!(!keys_equal(&ADMIN, &k));
}

#[test]
fn record_sizes() {
    assert_eq!(Config::LEN, 41);
    assert_eq!(Book::MAX_SIZE, 677);
}

#[test]
fn error_messages() {
    assert_eq!(CustomError::UnauthorizedCreator.message(), "Only the configured admin can create books");
    assert_eq!(CustomError::ImageTooLong.message(), "Image URL/CID too long");
}
