//! The address book: a text of `alias=destination` lines under a header
//! line, as the router keeps it for the names that its user has chosen.
use vstd::prelude::*;
use vstd::slice::slice_subrange;
use vstd::string::*;
use crate::parser::{
    find_key, key_len, lookup, split_token, token_of, tokens_view, Token, TokenView,
};
use crate::text::{copy_bytes, text, text_vec, CARRIAGE_RETURN, NEWLINE};

verus! {

/// The length of the longest prefix of `s` that holds no newline.
pub open spec fn line_len(s: Seq<u8>) -> nat
    decreases s.len(),
{
    if s.len() == 0 || s[0] == NEWLINE {
        0
    } else {
        1 + line_len(s.drop_first())
    }
}

/// A position after bytes that are no newline, at a newline or at the end,
/// is `line_len(s)`.
pub proof fn lemma_line_len_is(s: Seq<u8>, n: int)
    requires
        0 <= n <= s.len(),
        forall|i: int| 0 <= i < n ==> #[trigger] s[i] != NEWLINE,
        n < s.len() ==> s[n] == NEWLINE,
    ensures
        line_len(s) == n,
    decreases n,
{
    if n > 0 {
        let rest = s.drop_first();
        lemma_line_len_is(rest, n - 1);
    }
}

/// A line without the carriage return that it may end in.
pub open spec fn without_return(line: Seq<u8>) -> Seq<u8> {
    if line.len() > 0 && line.last() == CARRIAGE_RETURN {
        line.drop_last()
    } else {
        line
    }
}

/// The lines of a text, without their line ends.  A text that does not end
/// in a newline ends in a line all the same; an empty text has no line.
pub open spec fn lines(s: Seq<u8>) -> Seq<Seq<u8>>
    decreases s.len(),
{
    if s.len() == 0 {
        Seq::empty()
    } else {
        let n = line_len(s) as int;
        let line = without_return(s.take(n));
        if n < s.len() {
            seq![line] + lines(s.skip(n + 1))
        } else {
            seq![line]
        }
    }
}

/// The entries that the lines hold, in order: each line with a `=` is one,
/// its alias before the first `=` and its destination after it.  A line
/// without `=` holds no entry.
pub open spec fn entries_of(lines: Seq<Seq<u8>>) -> Seq<TokenView>
    decreases lines.len(),
{
    if lines.len() == 0 {
        Seq::empty()
    } else {
        let before = entries_of(lines.drop_last());
        if key_len(lines.last()) < lines.last().len() {
            before.push(token_of(lines.last()))
        } else {
            before
        }
    }
}

/// The entries of an address book: those of its lines after the first,
/// which is a header.
pub open spec fn book_entries(book: Seq<u8>) -> Seq<TokenView> {
    if lines(book).len() == 0 {
        Seq::empty()
    } else {
        entries_of(lines(book).skip(1))
    }
}

/// What stands for a destination where the address book knows none.
pub open spec fn not_found() -> Seq<u8> {
    text("None")
}

/// The destination that the address book gives for `alias`: that of the
/// last entry under the alias, and `not_found()` where there is none.
pub open spec fn destination_of(book: Seq<u8>, alias: Seq<u8>) -> Seq<u8> {
    match lookup(book_entries(book), alias) {
        Some(d) => d,
        None => not_found(),
    }
}

/// Reads the entries of an address book, in the order of its lines.
pub fn read_entries(book: &[u8]) -> (r: Vec<Token>)
    ensures
        tokens_view(r@) == book_entries(book@),
{
    let mut out: Vec<Token> = Vec::new();
    let mut i: usize = 0;
    let ghost mut seen: Seq<Seq<u8>> = Seq::empty();
    assert(book@.skip(0) =~= book@);
    while i < book.len()
        invariant
            i <= book.len(),
            lines(book@) == seen + lines(book@.skip(i as int)),
            (seen.len() == 0) == (i == 0),
            tokens_view(out@) == if seen.len() == 0 {
                Seq::<TokenView>::empty()
            } else {
                entries_of(seen.skip(1))
            },
        decreases book.len() - i,
    {
        let ghost rest = book@.skip(i as int);
        let mut end = i;
        while end < book.len() && book[end] != NEWLINE
            invariant
                i <= end <= book.len(),
                forall|j: int| i <= j < end ==> #[trigger] book@[j] != NEWLINE,
            decreases book.len() - end,
        {
            end += 1;
        }
        proof {
            lemma_line_len_is(rest, end - i);
        }
        let mut stop = end;
        if stop > i && book[stop - 1] == CARRIAGE_RETURN {
            stop -= 1;
        }
        let line = slice_subrange(book, i, stop);
        let ghost raw = rest.take(end - i);
        proof {
            assert(line@ =~= without_return(raw));
        }
        let ghost first = seen.len() == 0;
        let ghost before = seen;
        proof {
            seen = seen.push(line@);
            if !first {
                assert(seen.skip(1).drop_last() =~= before.skip(1));
            }
        }
        if i > 0 {
            let t = split_token(line);
            if t.key.len() < line.len() {
                out.push(t);
            }
        }
        if end < book.len() {
            proof {
                assert(rest.skip(end - i + 1) =~= book@.skip(end + 1));
            }
            i = end + 1;
        } else {
            i = end;
        }
    }
    out
}

/// Looks `alias` up in an address book.
pub fn resolve(book: &[u8], alias: &[u8]) -> (r: Vec<u8>)
    ensures
        r@ == destination_of(book@, alias@),
{
    let entries = read_entries(book);
    match find_key(&entries, alias) {
        Some(destination) => copy_bytes(destination.as_slice()),
        None => text_vec("None"),
    }
}

} // verus!
