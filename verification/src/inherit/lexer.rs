//! Reading a text as token trees.

use crate::inherit::token::{trees, Delimiter, TokenTree, Tree};
use std::str::FromStr;
use vstd::prelude::*;

verus! {

/// `proc_macro2::TokenStream`, carried through as an opaque value.
#[verifier::external_type_specification]
#[verifier::external_body]
pub struct ExTokenStream(proc_macro2::TokenStream);

/// Whether `tokens` is what a call of `proc_macro2::TokenStream::from_str`
/// on `text` handed out. It is a relation and no function of the text: which
/// lexer answers is a matter of the process, inside a macro expansion the
/// compiler's and elsewhere the crate's own, and the two do not read every
/// text alike.
pub uninterp spec fn lexed(text: Seq<char>, tokens: Seq<Tree>) -> bool;

/// The token trees that a `proc_macro2::TokenStream` holds, in order.
pub uninterp spec fn stream_trees(stream: proc_macro2::TokenStream) -> Seq<Tree>;

/// Calls `proc_macro2::TokenStream::from_str`, and gives a stream for `Ok`
/// and `None` for `Err`.
///
/// Nothing is proved of the call, and nothing is said of which texts it
/// takes or what it reads them as: the contract only records that the stream
/// is one that the call handed out for this text.
#[verifier::external_body]
fn parse_stream(text: &str) -> (r: Option<proc_macro2::TokenStream>)
    ensures
        r matches Some(stream) ==> lexed(text@, stream_trees(stream)),
{
    proc_macro2::TokenStream::from_str(text).ok()
}

/// Walks a `proc_macro2::TokenStream` with its `into_iter` and copies every
/// token tree into the library's own type: a group by `Group::delimiter` and
/// `Group::stream`, a punctuation mark by `Punct::as_char` and
/// `Punct::spacing`, an identifier and a literal by the text that their
/// `Display` prints.
///
/// Nothing is proved of the walk: the contract says that the copy has the
/// value that [`stream_trees`] names.
#[verifier::external_body]
fn stream_tokens(stream: proc_macro2::TokenStream) -> (r: Vec<TokenTree>)
    ensures
        trees(r@) == stream_trees(stream),
{
    stream.into_iter().map(|tree| match tree {
        proc_macro2::TokenTree::Group(g) => TokenTree::Group(
            match g.delimiter() {
                proc_macro2::Delimiter::Parenthesis => Delimiter::Parenthesis,
                proc_macro2::Delimiter::Brace => Delimiter::Brace,
                proc_macro2::Delimiter::Bracket => Delimiter::Bracket,
                proc_macro2::Delimiter::None => Delimiter::Invisible,
            },
            stream_tokens(g.stream()),
        ),
        proc_macro2::TokenTree::Ident(i) => TokenTree::Ident(i.to_string()),
        proc_macro2::TokenTree::Punct(p) => TokenTree::Punct(p.as_char(), matches!(p.spacing(), proc_macro2::Spacing::Joint)),
        proc_macro2::TokenTree::Literal(l) => TokenTree::Literal(l.to_string()),
    }).collect()
}

/// Reads a text as token trees, or gives `None` where the lexer refuses it.
///
/// What comes back is the lexer's answer at the time of the call.
pub(crate) fn lex(text: &str) -> (r: Option<Vec<TokenTree>>)
    ensures
        r matches Some(tokens) ==> lexed(text@, trees(tokens@)),
{
    match parse_stream(text) {
        Some(stream) => Some(stream_tokens(stream)),
        None => None,
    }
}

} // verus!
