use i2p_client::parser::{find, find_key, parse_reply, split_token, split_words};
use i2p_client::{Reply, SamErrorKind, Token};

fn token(key: &str, value: &str) -> Token {
    Token { key: key.as_bytes().to_vec(), value: value.as_bytes().to_vec() }
}

fn reply(command: &str, subcommand: &str, tokens: Vec<Token>) -> Reply {
    Reply {
        command: command.as_bytes().to_vec(),
        subcommand: subcommand.as_bytes().to_vec(),
        tokens,
    }
}

#[test]
fn parse_hello_reply() {
    let r = parse_reply(b"HELLO REPLY RESULT=OK VERSION=3.1\n").unwrap();
    assert_eq!(r, reply("HELLO", "REPLY", vec![token("RESULT", "OK"), token("VERSION", "3.1")]));
}

#[test]
fn parse_keeps_the_order_of_tokens() {
    let r = parse_reply(b"DEST REPLY PUB=abc PRIV=def\n").unwrap();
    assert_eq!(r.tokens, vec![token("PUB", "abc"), token("PRIV", "def")]);
    let r = parse_reply(b"DEST REPLY PRIV=def PUB=abc\n").unwrap();
    assert_eq!(r.tokens, vec![token("PRIV", "def"), token("PUB", "abc")]);
}

#[test]
fn parse_takes_a_word_without_equals_as_a_flag() {
    let r = parse_reply(b"STREAM STATUS RESULT=OK SILENT\n").unwrap();
    assert_eq!(r.tokens, vec![token("RESULT", "OK"), token("SILENT", "")]);
    let r = parse_reply(b"STREAM STATUS SILENT=\n").unwrap();
    assert_eq!(r.tokens, vec![token("SILENT", "")]);
}

#[test]
fn parse_splits_a_token_at_its_first_equals_only() {
    let r = parse_reply(b"NAMING REPLY RESULT=OK NAME=ME VALUE=AAAA~-BQ==\n").unwrap();
    assert_eq!(
        r.tokens,
        vec![token("RESULT", "OK"), token("NAME", "ME"), token("VALUE", "AAAA~-BQ==")]
    );
    let r = parse_reply(b"A B K=a=b=c\n").unwrap();
    assert_eq!(r.tokens, vec![token("K", "a=b=c")]);
    let r = parse_reply(b"A B =v\n").unwrap();
    assert_eq!(r.tokens, vec![token("", "v")]);
}

#[test]
fn parse_tolerates_blanks_around_and_between_words() {
    let expected = reply("HELLO", "REPLY", vec![token("RESULT", "OK"), token("VERSION", "3.1")]);
    assert_eq!(parse_reply(b"  HELLO REPLY RESULT=OK VERSION=3.1\n").unwrap(), expected);
    assert_eq!(parse_reply(b"HELLO REPLY RESULT=OK VERSION=3.1   \n").unwrap(), expected);
    assert_eq!(parse_reply(b"HELLO   REPLY\tRESULT=OK  \t VERSION=3.1\n").unwrap(), expected);
    assert_eq!(parse_reply(b"HELLO REPLY RESULT=OK VERSION=3.1\r\n").unwrap(), expected);
}

#[test]
fn parse_accepts_a_keyword_without_tokens() {
    let r = parse_reply(b"SESSION STATUS\n").unwrap();
    assert_eq!(r, reply("SESSION", "STATUS", vec![]));
}

#[test]
fn parse_accepts_utf8_text() {
    let line = "NAMING REPLY NAME=caf\u{e9} VALUE=\u{4e16}\u{754c}\n";
    let r = parse_reply(line.as_bytes()).unwrap();
    assert_eq!(r.tokens, vec![token("NAME", "caf\u{e9}"), token("VALUE", "\u{4e16}\u{754c}")]);
}

#[test]
fn parse_rejects_a_line_without_terminator() {
    assert_eq!(
        parse_reply(b"HELLO REPLY RESULT=OK").unwrap_err().kind,
        SamErrorKind::MalformedReply
    );
    assert_eq!(parse_reply(b"").unwrap_err().kind, SamErrorKind::MalformedReply);
}

#[test]
fn parse_rejects_bytes_that_are_not_utf8() {
    assert_eq!(
        parse_reply(b"HELLO REPLY RESULT=\xff\xfe\n").unwrap_err().kind,
        SamErrorKind::MalformedReply
    );
    assert_eq!(
        parse_reply(b"HELLO REPLY RESULT=\xc3\n").unwrap_err().kind,
        SamErrorKind::MalformedReply
    );
    assert_eq!(
        parse_reply(b"HELLO REPLY \x80=1\n").unwrap_err().kind,
        SamErrorKind::MalformedReply
    );
}

#[test]
fn parse_rejects_a_second_line_in_the_input() {
    assert_eq!(
        parse_reply(b"HELLO REPLY RESULT=OK\nHELLO REPLY RESULT=OK\n").unwrap_err().kind,
        SamErrorKind::MalformedReply
    );
}

#[test]
fn parse_rejects_a_line_without_keyword() {
    assert_eq!(parse_reply(b"\n").unwrap_err().kind, SamErrorKind::MalformedReply);
    assert_eq!(parse_reply(b"   \n").unwrap_err().kind, SamErrorKind::MalformedReply);
    assert_eq!(parse_reply(b"HELLO\n").unwrap_err().kind, SamErrorKind::MalformedReply);
}

#[test]
fn malformed_error_carries_no_text() {
    let e = parse_reply(b"HELLO").unwrap_err();
    assert_eq!(e.result, Vec::<u8>::new());
    assert_eq!(e.message, Vec::<u8>::new());
}

#[test]
fn serialize_writes_key_value_pairs_each_followed_by_a_space() {
    let r = reply("HELLO", "REPLY", vec![token("RESULT", "OK"), token("VERSION", "3.1")]);
    assert_eq!(r.serialize(), b"HELLO REPLY RESULT=OK VERSION=3.1 \n".to_vec());
    let r = reply("SESSION", "STATUS", vec![]);
    assert_eq!(r.serialize(), b"SESSION STATUS \n".to_vec());
    let r = reply("A", "B", vec![token("FLAG", "")]);
    assert_eq!(r.serialize(), b"A B FLAG= \n".to_vec());
}

#[test]
fn parse_then_serialize_then_parse_gives_the_same_reply() {
    let lines: [&[u8]; 8] = [
        b"HELLO REPLY RESULT=OK VERSION=3.1\n",
        b"  HELLO\tREPLY   RESULT=OK\r\n",
        b"SESSION STATUS RESULT=I2P_ERROR MESSAGE=failed\n",
        b"STREAM STATUS SILENT RESULT=OK\n",
        b"NAMING REPLY RESULT=OK NAME=ME VALUE=ab==\n",
        b"A B =\n",
        b"A=1 B=2 C=3\n",
        "NAMING REPLY NAME=caf\u{e9}\n".as_bytes(),
    ];
    for line in lines {
        let first = parse_reply(line).unwrap();
        let written = first.serialize();
        let second = parse_reply(&written).unwrap();
        assert_eq!(first, second);
        assert_eq!(second.serialize(), written);
    }
}

#[test]
fn split_words_drops_every_blank() {
    let words = split_words(b" a  bc\td \r");
    assert_eq!(words, vec![b"a".to_vec(), b"bc".to_vec(), b"d".to_vec()]);
    assert_eq!(split_words(b""), Vec::<Vec<u8>>::new());
    assert_eq!(split_words(b"   "), Vec::<Vec<u8>>::new());
    assert_eq!(split_words(b"one"), vec![b"one".to_vec()]);
}

#[test]
fn split_token_cases() {
    assert_eq!(split_token(b"K=V"), token("K", "V"));
    assert_eq!(split_token(b"K="), token("K", ""));
    assert_eq!(split_token(b"K"), token("K", ""));
    assert_eq!(split_token(b"=V"), token("", "V"));
    assert_eq!(split_token(b"="), token("", ""));
    assert_eq!(split_token(b"K=V=W"), token("K", "V=W"));
    assert_eq!(split_token(b""), token("", ""));
}

#[test]
fn find_gives_the_last_value_under_a_key() {
    let tokens = vec![token("A", "1"), token("B", "2"), token("A", "3")];
    assert_eq!(find(&tokens, "A"), Some(&b"3".to_vec()));
    assert_eq!(find(&tokens, "B"), Some(&b"2".to_vec()));
    assert_eq!(find(&tokens, "C"), None);
    assert_eq!(find(&tokens, "a"), None);
    assert_eq!(find_key(&tokens, b"A"), Some(&b"3".to_vec()));
    assert_eq!(find(&Vec::new(), "A"), None);
}
