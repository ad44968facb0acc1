//! The reply parser: one line of the wire protocol, read as a command
//! keyword followed by `KEY=VALUE` tokens.
//!
//! A line is protocol text when it is UTF-8, ends in a newline and holds no
//! other newline.  Its words are the runs of bytes between blanks; leading,
//! trailing and repeated blanks mean nothing.  The first two words are the
//! command keyword.  Every further word is a token: what stands before its
//! first `=` is the key and what stands after it the value, so a value may
//! itself hold `=`; a word without `=` is a flag, a key whose value is empty.
use vstd::prelude::*;
use vstd::slice::slice_subrange;
use vstd::string::*;
use vstd::utf8::valid_utf8;
use crate::error::{SamError, SamErrorView};
use crate::text::{bytes_eq, copy_bytes, text, CARRIAGE_RETURN, EQUALS, NEWLINE, SPACE, TAB};

verus! {

/// One `KEY=VALUE` pair of a reply.
#[derive(Debug, Clone, PartialEq, Eq)]
pub struct Token {
    pub key: Vec<u8>,
    pub value: Vec<u8>,
}

/// The mathematical value of a `Token`.
pub struct TokenView {
    pub key: Seq<u8>,
    pub value: Seq<u8>,
}

impl View for Token {
    type V = TokenView;

    open spec fn view(&self) -> TokenView {
        TokenView { key: self.key@, value: self.value@ }
    }
}

/// The values of a sequence of tokens, in order.
pub open spec fn tokens_view(tokens: Seq<Token>) -> Seq<TokenView> {
    tokens.map_values(|t: Token| t@)
}

/// The values of a sequence of byte strings, in order.
pub open spec fn words_view(words: Seq<Vec<u8>>) -> Seq<Seq<u8>> {
    words.map_values(|w: Vec<u8>| w@)
}

/// One parsed line: the two words of the command keyword and the tokens that
/// follow them, in the order of the line.
#[derive(Debug, Clone, PartialEq, Eq)]
pub struct Reply {
    pub command: Vec<u8>,
    pub subcommand: Vec<u8>,
    pub tokens: Vec<Token>,
}

/// The mathematical value of a `Reply`.
pub struct ReplyView {
    pub command: Seq<u8>,
    pub subcommand: Seq<u8>,
    pub tokens: Seq<TokenView>,
}

impl View for Reply {
    type V = ReplyView;

    open spec fn view(&self) -> ReplyView {
        ReplyView {
            command: self.command@,
            subcommand: self.subcommand@,
            tokens: tokens_view(self.tokens@),
        }
    }
}

/// A byte that separates words: space, tab or carriage return.
pub open spec fn is_blank(b: u8) -> bool {
    b == SPACE || b == TAB || b == CARRIAGE_RETURN
}

/// The length of the longest prefix of `s` that holds no blank.
pub open spec fn word_len(s: Seq<u8>) -> nat
    decreases s.len(),
{
    if s.len() == 0 || is_blank(s[0]) {
        0
    } else {
        1 + word_len(s.drop_first())
    }
}

/// `word_len(s)` is where the first word of `s` ends: within `s`, after
/// bytes that are not blank, and at a blank or at the end.
pub proof fn lemma_word_len(s: Seq<u8>)
    ensures
        word_len(s) <= s.len(),
        s.len() > 0 && !is_blank(s[0]) ==> word_len(s) >= 1,
        forall|i: int| 0 <= i < word_len(s) ==> !is_blank(#[trigger] s[i]),
        word_len(s) < s.len() ==> is_blank(s[word_len(s) as int]),
    decreases s.len(),
{
    if s.len() > 0 && !is_blank(s[0]) {
        let rest = s.drop_first();
        lemma_word_len(rest);
        assert forall|i: int| 0 <= i < word_len(s) implies !is_blank(#[trigger] s[i]) by {
            if i > 0 {
                assert(s[i] == rest[i - 1]);
            }
        }
    }
}

/// A position that has what `lemma_word_len` states is `word_len(s)`.
pub proof fn lemma_word_len_is(s: Seq<u8>, n: int)
    requires
        0 <= n <= s.len(),
        forall|i: int| 0 <= i < n ==> !is_blank(#[trigger] s[i]),
        n < s.len() ==> is_blank(s[n]),
    ensures
        word_len(s) == n,
    decreases n,
{
    if n > 0 {
        let rest = s.drop_first();
        lemma_word_len_is(rest, n - 1);
    }
}

/// The words of `s`: its maximal runs of bytes that are not blank, in order.
pub open spec fn words(s: Seq<u8>) -> Seq<Seq<u8>>
    decreases s.len(),
{
    if s.len() == 0 {
        Seq::empty()
    } else if is_blank(s[0]) {
        words(s.drop_first())
    } else {
        proof {
            lemma_word_len(s);
        }
        seq![s.take(word_len(s) as int)] + words(s.skip(word_len(s) as int))
    }
}

/// The length of the longest prefix of `w` that holds no `=`.
pub open spec fn key_len(w: Seq<u8>) -> nat
    decreases w.len(),
{
    if w.len() == 0 || w[0] == EQUALS {
        0
    } else {
        1 + key_len(w.drop_first())
    }
}

/// `key_len(w)` is where the key of `w` ends: within `w`, after bytes that
/// are not `=`, and at the first `=` or at the end.
pub proof fn lemma_key_len(w: Seq<u8>)
    ensures
        key_len(w) <= w.len(),
        forall|i: int| 0 <= i < key_len(w) ==> #[trigger] w[i] != EQUALS,
        key_len(w) < w.len() ==> w[key_len(w) as int] == EQUALS,
    decreases w.len(),
{
    if w.len() > 0 && w[0] != EQUALS {
        let rest = w.drop_first();
        lemma_key_len(rest);
        assert forall|i: int| 0 <= i < key_len(w) implies #[trigger] w[i] != EQUALS by {
            if i > 0 {
                assert(w[i] == rest[i - 1]);
            }
        }
    }
}

/// A position that has what `lemma_key_len` states is `key_len(w)`.
pub proof fn lemma_key_len_is(w: Seq<u8>, n: int)
    requires
        0 <= n <= w.len(),
        forall|i: int| 0 <= i < n ==> #[trigger] w[i] != EQUALS,
        n < w.len() ==> w[n] == EQUALS,
    ensures
        key_len(w) == n,
    decreases n,
{
    if n > 0 {
        let rest = w.drop_first();
        lemma_key_len_is(rest, n - 1);
    }
}

/// The token that a word stands for: split at its first `=`, or a flag with
/// an empty value where it holds none.
pub open spec fn token_of(w: Seq<u8>) -> TokenView {
    let k = key_len(w) as int;
    if k < w.len() {
        TokenView { key: w.take(k), value: w.skip(k + 1) }
    } else {
        TokenView { key: w, value: Seq::empty() }
    }
}

/// Whether `line` ends in a newline and holds no other.
pub open spec fn well_terminated(line: Seq<u8>) -> bool {
    line.len() > 0 && line.last() == NEWLINE && !line.drop_last().contains(NEWLINE)
}

/// What a line parses to; `None` where it is not protocol text or has no
/// command keyword.
pub open spec fn parse_line(line: Seq<u8>) -> Option<ReplyView> {
    if !well_terminated(line) || !valid_utf8(line) {
        None
    } else {
        let w = words(line.drop_last());
        if w.len() < 2 {
            None
        } else {
            Some(
                ReplyView {
                    command: w[0],
                    subcommand: w[1],
                    tokens: w.skip(2).map_values(|x: Seq<u8>| token_of(x)),
                },
            )
        }
    }
}

/// The value of the last token with the given key.
pub open spec fn lookup(tokens: Seq<TokenView>, key: Seq<u8>) -> Option<Seq<u8>>
    decreases tokens.len(),
{
    if tokens.len() == 0 {
        None
    } else if tokens.last().key == key {
        Some(tokens.last().value)
    } else {
        lookup(tokens.drop_last(), key)
    }
}

/// Whether `bytes` is UTF-8, as `core::str::from_utf8` decides it: the call
/// succeeds exactly on the byte strings that are valid UTF-8.
#[verifier::external_body]
fn is_utf8(bytes: &[u8]) -> (r: bool)
    ensures
        r == valid_utf8(bytes@),
{
    core::str::from_utf8(bytes).is_ok()
}

fn is_blank_byte(b: u8) -> (r: bool)
    ensures
        r == is_blank(b),
{
    b == SPACE || b == TAB || b == CARRIAGE_RETURN
}

/// Where the word that starts at `start` ends.
fn word_end(s: &[u8], start: usize) -> (end: usize)
    requires
        start <= s.len(),
    ensures
        end == start + word_len(s@.skip(start as int)),
        start <= end <= s.len(),
{
    let mut i = start;
    while i < s.len() && !is_blank_byte(s[i])
        invariant
            start <= i <= s.len(),
            forall|j: int| start <= j < i ==> !is_blank(#[trigger] s@[j]),
        decreases s.len() - i,
    {
        i += 1;
    }
    proof {
        let rest = s@.skip(start as int);
        lemma_word_len_is(rest, i - start);
    }
    i
}

/// Splits `s` into its words.
pub fn split_words(s: &[u8]) -> (r: Vec<Vec<u8>>)
    ensures
        words_view(r@) == words(s@),
{
    let mut out: Vec<Vec<u8>> = Vec::new();
    let mut i: usize = 0;
    assert(s@.skip(0) =~= s@);
    while i < s.len()
        invariant
            i <= s.len(),
            words(s@) == words_view(out@) + words(s@.skip(i as int)),
        decreases s.len() - i,
    {
        let ghost rest = s@.skip(i as int);
        if is_blank_byte(s[i]) {
            assert(rest.drop_first() =~= s@.skip(i + 1));
            i += 1;
        } else {
            let end = word_end(s, i);
            let w = copy_bytes(slice_subrange(s, i, end));
            proof {
                assert(rest.take(word_len(rest) as int) =~= w@);
                assert(rest.skip(word_len(rest) as int) =~= s@.skip(end as int));
            }
            out.push(w);
            i = end;
        }
    }
    out
}

/// Splits a word into key and value.
pub fn split_token(w: &[u8]) -> (t: Token)
    ensures
        t@ == token_of(w@),
{
    let mut k: usize = 0;
    while k < w.len() && w[k] != EQUALS
        invariant
            k <= w.len(),
            forall|j: int| 0 <= j < k ==> #[trigger] w@[j] != EQUALS,
        decreases w.len() - k,
    {
        k += 1;
    }
    proof {
        lemma_key_len_is(w@, k as int);
    }
    if k < w.len() {
        let key = copy_bytes(slice_subrange(w, 0, k));
        let value = copy_bytes(slice_subrange(w, k + 1, w.len()));
        Token { key, value }
    } else {
        Token { key: copy_bytes(w), value: Vec::new() }
    }
}

/// Parses one line of the protocol.  Fails with `MalformedReply`, and with
/// nothing else, exactly where `parse_line` gives no reply.
pub fn parse_reply(line: &[u8]) -> (r: Result<Reply, SamError>)
    ensures
        match r {
            Ok(reply) => parse_line(line@) == Some(reply@),
            Err(e) => parse_line(line@) is None && e@ == SamErrorView::malformed(),
        },
{
    let n = line.len();
    if n == 0 || line[n - 1] != NEWLINE {
        return Err(SamError::malformed());
    }
    let body = slice_subrange(line, 0, n - 1);
    let mut j: usize = 0;
    while j < body.len()
        invariant
            j <= body.len(),
            line@.len() > 0,
            body@ == line@.drop_last(),
            forall|k: int| 0 <= k < j ==> body@[k] != NEWLINE,
        decreases body.len() - j,
    {
        if body[j] == NEWLINE {
            return Err(SamError::malformed());
        }
        j += 1;
    }
    if !is_utf8(line) {
        return Err(SamError::malformed());
    }
    let ws = split_words(body);
    if ws.len() < 2 {
        return Err(SamError::malformed());
    }
    let ghost w = words(body@);
    let command = copy_bytes(ws[0].as_slice());
    let subcommand = copy_bytes(ws[1].as_slice());
    let mut tokens: Vec<Token> = Vec::new();
    let mut k: usize = 2;
    while k < ws.len()
        invariant
            2 <= k <= ws.len(),
            words_view(ws@) == w,
            tokens.len() == k - 2,
            forall|i: int| 0 <= i < k - 2 ==> (#[trigger] tokens@[i])@ == token_of(w[i + 2]),
        decreases ws.len() - k,
    {
        let t = split_token(ws[k].as_slice());
        tokens.push(t);
        k += 1;
    }
    let reply = Reply { command, subcommand, tokens };
    assert(reply@.tokens =~= w.skip(2).map_values(|x: Seq<u8>| token_of(x)));
    Ok(reply)
}

/// The value of the last token of `tokens` whose key is `key`.
pub fn find_key<'a>(tokens: &'a Vec<Token>, key: &[u8]) -> (r: Option<&'a Vec<u8>>)
    ensures
        match r {
            Some(v) => lookup(tokens_view(tokens@), key@) == Some(v@),
            None => lookup(tokens_view(tokens@), key@) is None,
        },
{
    let ghost all = tokens_view(tokens@);
    let mut i: usize = tokens.len();
    assert(all.take(i as int) =~= all);
    while i > 0
        invariant
            i <= tokens.len(),
            all == tokens_view(tokens@),
            lookup(all, key@) == lookup(all.take(i as int), key@),
        decreases i,
    {
        i -= 1;
        proof {
            let upto = all.take(i + 1);
            assert(upto.drop_last() =~= all.take(i as int));
        }
        if bytes_eq(tokens[i].key.as_slice(), key) {
            return Some(&tokens[i].value);
        }
    }
    None
}

/// The value of the last token of `tokens` whose key spells `key`.
pub fn find<'a>(tokens: &'a Vec<Token>, key: &str) -> (r: Option<&'a Vec<u8>>)
    ensures
        match r {
            Some(v) => lookup(tokens_view(tokens@), text(key)) == Some(v@),
            None => lookup(tokens_view(tokens@), text(key)) is None,
        },
{
    find_key(tokens, key.as_bytes())
}

} // verus!
