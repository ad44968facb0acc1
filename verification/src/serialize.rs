//! Writing a reply back as a line, and the proof that the parser reads the
//! line as the reply it was written from.
use vstd::prelude::*;
use vstd::utf8::*;
use crate::parser::{
    is_blank, key_len, lemma_key_len, lemma_key_len_is, lemma_word_len, lemma_word_len_is,
    parse_line, token_of, tokens_view, word_len, words, Reply, ReplyView, TokenView,
};
use crate::text::{push_bytes, EQUALS, NEWLINE, SPACE};

verus! {

/// A token as it is written: key, `=`, value and one space.
pub open spec fn token_text(t: TokenView) -> Seq<u8> {
    t.key + seq![EQUALS] + t.value + seq![SPACE]
}

/// The tokens as they are written, one after the other.
pub open spec fn tokens_text(tokens: Seq<TokenView>) -> Seq<u8>
    decreases tokens.len(),
{
    if tokens.len() == 0 {
        Seq::empty()
    } else {
        token_text(tokens[0]) + tokens_text(tokens.drop_first())
    }
}

/// A reply as it is written: the two words of the keyword, each followed by
/// a space, the tokens and a newline.
pub open spec fn reply_text(r: ReplyView) -> Seq<u8> {
    r.command + seq![SPACE] + r.subcommand + seq![SPACE] + tokens_text(r.tokens) + seq![NEWLINE]
}

/// Text that can stand inside a word: UTF-8 without blanks and newlines.
pub open spec fn is_clean(s: Seq<u8>) -> bool {
    &&& valid_utf8(s)
    &&& forall|i: int| 0 <= i < s.len() ==> !is_blank(#[trigger] s[i]) && s[i] != NEWLINE
}

impl TokenView {
    /// Key and value are clean, and the key holds no `=`.
    pub open spec fn well_formed(self) -> bool {
        &&& is_clean(self.key)
        &&& is_clean(self.value)
        &&& forall|i: int| 0 <= i < self.key.len() ==> #[trigger] self.key[i] != EQUALS
    }
}

impl ReplyView {
    /// Both words of the keyword are clean and not empty, and every token is
    /// well formed.
    pub open spec fn well_formed(self) -> bool {
        &&& is_clean(self.command)
        &&& self.command.len() > 0
        &&& is_clean(self.subcommand)
        &&& self.subcommand.len() > 0
        &&& forall|i: int| 0 <= i < self.tokens.len() ==> (#[trigger] self.tokens[i]).well_formed()
    }
}

impl Reply {
    /// Writes the reply as a line.
    pub fn serialize(&self) -> (line: Vec<u8>)
        ensures
            line@ == reply_text(self@),
    {
        let mut out: Vec<u8> = Vec::new();
        push_bytes(&mut out, self.command.as_slice());
        out.push(SPACE);
        push_bytes(&mut out, self.subcommand.as_slice());
        out.push(SPACE);
        let ghost head = out@;
        let ghost all = tokens_view(self.tokens@);
        let mut i: usize = 0;
        assert(all.skip(0) =~= all);
        while i < self.tokens.len()
            invariant
                i <= self.tokens.len(),
                all == tokens_view(self.tokens@),
                out@ + tokens_text(all.skip(i as int)) == head + tokens_text(all),
            decreases self.tokens.len() - i,
        {
            let t = &self.tokens[i];
            push_bytes(&mut out, t.key.as_slice());
            out.push(EQUALS);
            push_bytes(&mut out, t.value.as_slice());
            out.push(SPACE);
            proof {
                let rest = all.skip(i as int);
                assert(rest.drop_first() =~= all.skip(i + 1));
            }
            i += 1;
        }
        out.push(NEWLINE);
        out
    }
}

/// A single ASCII byte is UTF-8.
proof fn lemma_ascii_byte_is_utf8(b: u8)
    requires
        b < 0x80,
    ensures
        valid_utf8(seq![b]),
{
    reveal_with_fuel(valid_utf8, 2);
}

/// UTF-8 text cut at an ASCII byte is UTF-8 on both sides of the cut.
pub proof fn lemma_cut_at_ascii(s: Seq<u8>, i: int)
    requires
        valid_utf8(s),
        0 <= i < s.len(),
        s[i] < 0x80,
    ensures
        valid_utf8(s.take(i)),
        valid_utf8(s.skip(i)),
        valid_utf8(s.skip(i + 1)),
{
    is_char_boundary_iff_not_is_continuation_byte(s, i);
    valid_utf8_split(s, i);
    let tail = s.skip(i);
    assert(pop_first_scalar(tail) =~= s.skip(i + 1));
}

/// Every word of clean-able text is itself clean and not empty: the words
/// of UTF-8 text without newlines are UTF-8 without blanks and newlines.
pub proof fn lemma_words_clean(s: Seq<u8>)
    requires
        valid_utf8(s),
        forall|i: int| 0 <= i < s.len() ==> #[trigger] s[i] != NEWLINE,
    ensures
        forall|k: int|
            0 <= k < words(s).len() ==> is_clean(#[trigger] words(s)[k]) && words(s)[k].len() > 0,
    decreases s.len(),
{
    if s.len() == 0 {
    } else if is_blank(s[0]) {
        let rest = s.drop_first();
        lemma_words_clean(rest);
        assert(words(s) == words(rest));
    } else {
        lemma_word_len(s);
        let n = word_len(s) as int;
        let w = s.take(n);
        let rest = s.skip(n);
        if n < s.len() {
            lemma_cut_at_ascii(s, n);
        } else {
            assert(w =~= s);
        }
        lemma_words_clean(rest);
        assert(words(s) == seq![w] + words(rest));
    }
}

/// The token of a clean word is well formed.
pub proof fn lemma_token_well_formed(w: Seq<u8>)
    requires
        is_clean(w),
    ensures
        token_of(w).well_formed(),
{
    lemma_key_len(w);
    let k = key_len(w) as int;
    if k < w.len() {
        lemma_cut_at_ascii(w, k);
    }
}

/// What the parser gives is well formed.
pub proof fn lemma_parse_well_formed(line: Seq<u8>)
    requires
        parse_line(line) is Some,
    ensures
        parse_line(line).unwrap().well_formed(),
{
    let body = line.drop_last();
    lemma_cut_at_ascii(line, line.len() - 1);
    lemma_words_clean(body);
    let w = words(body);
    let r = parse_line(line).unwrap();
    assert forall|i: int| 0 <= i < r.tokens.len() implies (#[trigger] r.tokens[i]).well_formed() by {
        lemma_token_well_formed(w[i + 2]);
    }
}

/// A word followed by a space is the first word of what it stands before.
proof fn lemma_words_cons(w: Seq<u8>, rest: Seq<u8>)
    requires
        w.len() > 0,
        forall|i: int| 0 <= i < w.len() ==> !is_blank(#[trigger] w[i]),
    ensures
        words(w + seq![SPACE] + rest) == seq![w] + words(rest),
{
    let s = w + seq![SPACE] + rest;
    let n = w.len() as int;
    lemma_word_len_is(s, n);
    assert(s.take(n) =~= w);
    let tail = s.skip(n);
    assert(tail.drop_first() =~= rest);
    assert(words(tail) == words(rest));
}

/// A token as a word: key, `=` and value.
pub open spec fn token_word(t: TokenView) -> Seq<u8> {
    t.key + seq![EQUALS] + t.value
}

/// The word of a well-formed token is read back as the token.
proof fn lemma_token_word(t: TokenView)
    requires
        t.well_formed(),
    ensures
        token_of(token_word(t)) == t,
        token_word(t).len() > 0,
        forall|i: int| 0 <= i < token_word(t).len() ==> !is_blank(#[trigger] token_word(t)[i]),
{
    let w = token_word(t);
    let k = t.key.len() as int;
    lemma_key_len_is(w, k);
    assert(w.take(k) =~= t.key);
    assert(w.skip(k + 1) =~= t.value);
}

/// The written tokens are UTF-8 without newlines, and their words are the
/// words of the tokens.
proof fn lemma_tokens_text(tokens: Seq<TokenView>)
    requires
        forall|i: int| 0 <= i < tokens.len() ==> (#[trigger] tokens[i]).well_formed(),
    ensures
        valid_utf8(tokens_text(tokens)),
        forall|i: int|
            0 <= i < tokens_text(tokens).len() ==> #[trigger] tokens_text(tokens)[i] != NEWLINE,
        words(tokens_text(tokens)) == tokens.map_values(|t: TokenView| token_word(t)),
    decreases tokens.len(),
{
    if tokens.len() > 0 {
        let t = tokens[0];
        let rest = tokens.drop_first();
        lemma_tokens_text(rest);
        let w = token_word(t);
        let tail = tokens_text(rest);
        lemma_words_cons(w, tail);
        lemma_ascii_byte_is_utf8(EQUALS);
        lemma_ascii_byte_is_utf8(SPACE);
        valid_utf8_concat(t.key, seq![EQUALS]);
        valid_utf8_concat(t.key + seq![EQUALS], t.value);
        valid_utf8_concat(w, seq![SPACE]);
        valid_utf8_concat(w + seq![SPACE], tail);
    }
}

/// A well-formed reply, written as a line, parses to itself.
pub proof fn lemma_text_parses(r: ReplyView)
    requires
        r.well_formed(),
    ensures
        parse_line(reply_text(r)) == Some(r),
{
    let tail = tokens_text(r.tokens);
    let line = reply_text(r);
    let body = r.command + seq![SPACE] + r.subcommand + seq![SPACE] + tail;
    lemma_tokens_text(r.tokens);
    assert(line.drop_last() =~= body);
    assert(valid_utf8(line)) by {
        lemma_ascii_byte_is_utf8(SPACE);
        lemma_ascii_byte_is_utf8(NEWLINE);
        valid_utf8_concat(r.command, seq![SPACE]);
        valid_utf8_concat(r.command + seq![SPACE], r.subcommand);
        valid_utf8_concat(r.command + seq![SPACE] + r.subcommand, seq![SPACE]);
        valid_utf8_concat(r.command + seq![SPACE] + r.subcommand + seq![SPACE], tail);
        valid_utf8_concat(body, seq![NEWLINE]);
    }
    let second = r.subcommand + seq![SPACE] + tail;
    assert(body =~= r.command + seq![SPACE] + second);
    lemma_words_cons(r.command, second);
    lemma_words_cons(r.subcommand, tail);
    let w = words(body);
    let parsed = w.skip(2).map_values(|x: Seq<u8>| token_of(x));
    assert(parsed =~= r.tokens) by {
        assert forall|i: int| 0 <= i < r.tokens.len() implies parsed[i] == r.tokens[i] by {
            lemma_token_word(r.tokens[i]);
        }
    }
}

/// Parsing a line, writing the reply and parsing what was written gives the
/// reply again: the written line is protocol text that stands for the same
/// command keyword and the same tokens in the same order.
pub proof fn lemma_parse_round_trip(line: Seq<u8>)
    requires
        parse_line(line) is Some,
    ensures
        parse_line(reply_text(parse_line(line).unwrap())) == parse_line(line),
{
    lemma_parse_well_formed(line);
    lemma_text_parses(parse_line(line).unwrap());
}

} // verus!
