use i2p_client::address_book::{read_entries, resolve};
use i2p_client::{I2PClient, Token};

fn token(key: &str, value: &str) -> Token {
    Token { key: key.as_bytes().to_vec(), value: value.as_bytes().to_vec() }
}

#[test]
fn lookup_finds_the_destination_of_an_alias() {
    let book = b"# personal address book\nalice=FULL_DEST_STRING\n";
    assert_eq!(I2PClient::dest(book, b"alice"), b"FULL_DEST_STRING".to_vec());
}

#[test]
fn lookup_of_a_missing_alias_gives_the_sentinel() {
    let book = b"# personal address book\nalice=FULL_DEST_STRING\n";
    assert_eq!(I2PClient::dest(book, b"missing"), b"None".to_vec());
    assert_eq!(I2PClient::dest(b"", b"alice"), b"None".to_vec());
    assert_eq!(I2PClient::dest(b"header only\n", b"alice"), b"None".to_vec());
    assert_eq!(I2PClient::dest(book, b"Alice"), b"None".to_vec());
    assert_eq!(I2PClient::dest(book, b""), b"None".to_vec());
}

#[test]
fn header_line_is_skipped_even_where_it_looks_like_an_entry() {
    let book = b"alice=HEADER\nbob=BOBDEST\n";
    assert_eq!(I2PClient::dest(book, b"alice"), b"None".to_vec());
    assert_eq!(I2PClient::dest(book, b"bob"), b"BOBDEST".to_vec());
}

#[test]
fn destination_keeps_every_equals_after_the_first() {
    let book = b"header\nalice=AAAA~-BQAEAAcAAA==\n";
    assert_eq!(I2PClient::dest(book, b"alice"), b"AAAA~-BQAEAAcAAA==".to_vec());
}

#[test]
fn aliases_lists_the_entries_in_order() {
    let book = b"header\nalice=A\nbob=B\r\n\nno entry here\ncarol=C";
    assert_eq!(
        I2PClient::aliases(book),
        vec![token("alice", "A"), token("bob", "B"), token("carol", "C")]
    );
    assert_eq!(read_entries(book), I2PClient::aliases(book));
}

#[test]
fn aliases_of_an_empty_or_header_only_book_are_none() {
    assert_eq!(I2PClient::aliases(b""), Vec::<Token>::new());
    assert_eq!(I2PClient::aliases(b"header"), Vec::<Token>::new());
    assert_eq!(I2PClient::aliases(b"header\n"), Vec::<Token>::new());
    assert_eq!(I2PClient::aliases(b"\n"), Vec::<Token>::new());
    assert_eq!(I2PClient::aliases(b"\n\n\n"), Vec::<Token>::new());
}

#[test]
fn the_last_entry_under_an_alias_counts() {
    let book = b"header\nalice=OLD\nbob=B\nalice=NEW\n";
    assert_eq!(I2PClient::dest(book, b"alice"), b"NEW".to_vec());
    assert_eq!(resolve(book, b"bob"), b"B".to_vec());
}

#[test]
fn an_entry_may_have_an_empty_alias_or_destination() {
    let book = b"header\n=X\nempty=\n";
    assert_eq!(I2PClient::aliases(book), vec![token("", "X"), token("empty", "")]);
    assert_eq!(I2PClient::dest(book, b""), b"X".to_vec());
    assert_eq!(I2PClient::dest(book, b"empty"), Vec::<u8>::new());
}

#[test]
fn a_first_line_that_is_empty_is_still_the_header() {
    let book = b"\nalice=A\n";
    assert_eq!(I2PClient::aliases(book), vec![token("alice", "A")]);
}
