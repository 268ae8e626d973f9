//! Emitting the implementation of the node capability.

use crate::inherit::token::{
    clone_tokens, joint_mark, mark, trees, word, Delimiter, TokenTree, Tree,
};
use vstd::prelude::*;

verus! {

/// `(&self)`, the parameter list of both accessors.
pub open spec fn receiver() -> Tree {
    Tree::Group(Delimiter::Parenthesis, seq![mark('&'), word("self")])
}

/// `fn loc(&self) -> SourceLocation { self.loc.clone() }`: the accessor that
/// hands out a copy of the stored position.
pub open spec fn loc_accessor() -> Seq<Tree> {
    seq![
        word("fn"),
        word("loc"),
        receiver(),
        joint_mark('-'),
        mark('>'),
        word("SourceLocation"),
        Tree::Group(
            Delimiter::Brace,
            seq![
                word("self"),
                mark('.'),
                word("loc"),
                mark('.'),
                word("clone"),
                Tree::Group(Delimiter::Parenthesis, Seq::empty()),
            ],
        ),
    ]
}

/// `NodeKind::<kind>`: all that the tag accessor evaluates. It names the tag
/// and does not mention `self`, so every value of the type reports this tag.
pub open spec fn kind_path(kind: Seq<char>) -> Seq<Tree> {
    seq![word("NodeKind"), joint_mark(':'), mark(':'), Tree::Ident(kind)]
}

/// `fn kind(&self) -> NodeKind { NodeKind::<kind> }`: the accessor that
/// reports the tag.
pub open spec fn kind_accessor(kind: Seq<char>) -> Seq<Tree> {
    seq![
        word("fn"),
        word("kind"),
        receiver(),
        joint_mark('-'),
        mark('>'),
        word("NodeKind"),
        Tree::Group(Delimiter::Brace, kind_path(kind)),
    ]
}

/// `impl Node for <name> { <loc accessor> <kind accessor> }`: the
/// implementation of the node capability for the type `name` with the tag
/// `kind`.
pub open spec fn impl_tokens(name: Seq<char>, kind: Seq<char>) -> Seq<Tree> {
    seq![
        word("impl"),
        word("Node"),
        word("for"),
        Tree::Ident(name),
        Tree::Group(Delimiter::Brace, loc_accessor() + kind_accessor(kind)),
    ]
}

/// Builds `(&self)`.
fn receiver_tokens() -> (r: TokenTree)
    ensures
        r@ == receiver(),
{
    let mut inner: Vec<TokenTree> = Vec::new();
    inner.push(TokenTree::punct('&'));
    inner.push(TokenTree::ident("self"));
    assert(trees(inner@) =~= seq![mark('&'), word("self")]);
    TokenTree::group(Delimiter::Parenthesis, inner)
}

/// Builds the accessor for the position.
fn loc_accessor_tokens() -> (r: Vec<TokenTree>)
    ensures
        trees(r@) == loc_accessor(),
{
    let mut body: Vec<TokenTree> = Vec::new();
    body.push(TokenTree::ident("self"));
    body.push(TokenTree::punct('.'));
    body.push(TokenTree::ident("loc"));
    body.push(TokenTree::punct('.'));
    body.push(TokenTree::ident("clone"));
    body.push(TokenTree::group(Delimiter::Parenthesis, Vec::new()));
    assert(trees(Seq::<TokenTree>::empty()) =~= Seq::<Tree>::empty());
    assert(trees(body@) =~= seq![
        word("self"),
        mark('.'),
        word("loc"),
        mark('.'),
        word("clone"),
        Tree::Group(Delimiter::Parenthesis, Seq::empty()),
    ]);
    let mut out: Vec<TokenTree> = Vec::new();
    out.push(TokenTree::ident("fn"));
    out.push(TokenTree::ident("loc"));
    out.push(receiver_tokens());
    out.push(TokenTree::joint('-'));
    out.push(TokenTree::punct('>'));
    out.push(TokenTree::ident("SourceLocation"));
    out.push(TokenTree::group(Delimiter::Brace, body));
    assert(trees(out@) =~= loc_accessor());
    out
}

/// Builds the accessor for the tag `kind`.
fn kind_accessor_tokens(kind: &str) -> (r: Vec<TokenTree>)
    ensures
        trees(r@) == kind_accessor(kind@),
{
    let mut body: Vec<TokenTree> = Vec::new();
    body.push(TokenTree::ident("NodeKind"));
    body.push(TokenTree::joint(':'));
    body.push(TokenTree::punct(':'));
    body.push(TokenTree::ident(kind));
    assert(trees(body@) =~= kind_path(kind@));
    let mut out: Vec<TokenTree> = Vec::new();
    out.push(TokenTree::ident("fn"));
    out.push(TokenTree::ident("kind"));
    out.push(receiver_tokens());
    out.push(TokenTree::joint('-'));
    out.push(TokenTree::punct('>'));
    out.push(TokenTree::ident("NodeKind"));
    out.push(TokenTree::group(Delimiter::Brace, body));
    assert(trees(out@) =~= kind_accessor(kind@));
    out
}

/// Puts behind `input` an implementation of the node capability for the
/// type `name`: one accessor that returns a copy of the stored position, and
/// one that returns the tag `kind` whatever the value is.
///
/// Neither `name` nor `kind` is examined: that the tag is a member of the
/// enumeration of node kinds is for the schema's author to see to.
pub fn impl_node(input: &Vec<TokenTree>, name: &str, kind: &str) -> (r: Vec<TokenTree>)
    ensures
        trees(r@) == trees(input@) + impl_tokens(name@, kind@),
{
    let mut body = loc_accessor_tokens();
    let mut kind_part = kind_accessor_tokens(kind);
    let ghost loc_part = body@;
    let ghost tag_part = kind_part@;
    body.append(&mut kind_part);
    assert(trees(body@) =~= trees(loc_part) + trees(tag_part));
    let mut out = clone_tokens(input);
    let ghost copied = out@;
    out.push(TokenTree::ident("impl"));
    out.push(TokenTree::ident("Node"));
    out.push(TokenTree::ident("for"));
    out.push(TokenTree::ident(name));
    out.push(TokenTree::group(Delimiter::Brace, body));
    assert(trees(out@) =~= trees(copied) + impl_tokens(name@, kind@));
    out
}

} // verus!
