//! Keys from identifiers: upper case, joined with an underscore.

use crate::text::{chars_of, text_of};
use vstd::prelude::*;

verus! {

/// What `char::to_uppercase` of std yields for `c`, as a sequence.
pub uninterp spec fn unicode_upper(c: char) -> Seq<char>;

/// `char::to_uppercase` of std. The characters that it yields for `c` depend
/// on `c` alone; they are collected in the order in which they come.
#[verifier::external_body]
fn to_uppercase(c: char) -> (r: Vec<char>)
    ensures
        r@ == unicode_upper(c),
{
    c.to_uppercase().collect()
}

/// The upper-case form of one character. A small ASCII letter becomes the
/// capital letter, every other ASCII character stays, and a character
/// outside ASCII becomes what `char::to_uppercase` yields for it.
pub open spec fn upper(c: char) -> Seq<char> {
    if 'a' <= c && c <= 'z' {
        seq![((c as int) - 32) as char]
    } else if c <= '\u{7f}' {
        seq![c]
    } else {
        unicode_upper(c)
    }
}

/// The upper-case form of a text: that of its characters, one after another.
pub open spec fn uppercase(text: Seq<char>) -> Seq<char>
    decreases text.len(),
{
    if text.len() == 0 {
        Seq::empty()
    } else {
        uppercase(text.drop_last()) + upper(text.last())
    }
}

/// The key of `postfix` below `ident`: both in upper case with an underscore
/// between them, or `postfix` in upper case alone where `ident` is empty.
pub open spec fn joined(ident: Seq<char>, postfix: Seq<char>) -> Seq<char> {
    if ident.len() == 0 {
        uppercase(postfix)
    } else {
        uppercase(ident) + "_"@ + uppercase(postfix)
    }
}

/// The upper-case form of `ident`.
pub fn __convert_ident(ident: &str) -> (r: String)
    ensures
        r@ == uppercase(ident@),
{
    let chars = chars_of(ident);
    let mut out: Vec<char> = Vec::new();
    let mut i: usize = 0;
    while i < chars.len()
        invariant
            i <= chars.len(),
            out@ == uppercase(chars@.take(i as int)),
        decreases chars.len() - i,
    {
        let c = chars[i];
        proof {
            assert(chars@.take(i + 1).drop_last() =~= chars@.take(i as int));
            assert(chars@.take(i + 1).last() == c);
        }
        let ghost before = out@;
        if 'a' <= c && c <= 'z' {
            out.push(((c as u8) - 32) as char);
        } else if c <= '\u{7f}' {
            out.push(c);
        } else {
            let mut more = to_uppercase(c);
            out.append(&mut more);
        }
        assert(out@ =~= before + upper(c));
        i += 1;
    }
    proof {
        assert(chars@.take(i as int) =~= chars@);
    }
    text_of(&out)
}

/// The key of the field `postfix` of a composite loaded under `ident`.
pub fn __join_idents(ident: &str, postfix: &str) -> (r: String)
    ensures
        r@ == joined(ident@, postfix@),
{
    if ident.is_empty() {
        __convert_ident(postfix)
    } else {
        let head = __convert_ident(ident).concat("_");
        head.concat(__convert_ident(postfix).as_str())
    }
}

} // verus!
