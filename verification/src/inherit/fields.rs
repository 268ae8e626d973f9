//! Injecting fields into a definition.

use crate::inherit::error::InheritError;
use crate::inherit::lexer::{lex, lexed};
use crate::inherit::name::{declared_name, ends_in_name};
use crate::inherit::token::{clone_tokens, lemma_trees_push, trees, Delimiter, TokenTree, Tree};
use vstd::prelude::*;

verus! {

/// Whether a token is a block in braces, which is where fields are listed.
pub open spec fn is_block(token: Tree) -> bool {
    token matches Tree::Group(Delimiter::Brace, _)
}

/// A block in braces with `fields` put behind what it holds; any other token
/// as it is.
pub open spec fn extend_block(token: Tree, fields: Seq<Tree>) -> Tree {
    match token {
        Tree::Group(Delimiter::Brace, inner) => Tree::Group(Delimiter::Brace, inner + fields),
        _ => token,
    }
}

/// A definition with `fields` put at the end of each of its blocks in braces.
/// The blocks are found by their shape alone, among the definition's own
/// tokens and not inside its groups.
pub open spec fn inject(tokens: Seq<Tree>, fields: Seq<Tree>) -> Seq<Tree> {
    Seq::new(tokens.len(), |i: int| extend_block(tokens[i], fields))
}

/// Whether a definition has a block in braces among its own tokens.
pub open spec fn has_block(tokens: Seq<Tree>) -> bool {
    exists|i: int| 0 <= i < tokens.len() && is_block(#[trigger] tokens[i])
}

/// Whether `after` is `before` with some run of fields injected: one and the
/// same run at the end of each block, and nothing else changed.
pub open spec fn injected(before: Seq<Tree>, after: Seq<Tree>) -> bool {
    exists|fields: Seq<Tree>| after == #[trigger] inject(before, fields)
}

/// Injecting no fields changes nothing.
pub proof fn lemma_inject_nothing(tokens: Seq<Tree>)
    ensures
        inject(tokens, Seq::empty()) == tokens,
{
    assert forall|i: int| 0 <= i < tokens.len() implies extend_block(tokens[i], Seq::empty())
        == tokens[i] by {
        if let Tree::Group(Delimiter::Brace, inner) = tokens[i] {
            assert(inner + Seq::<Tree>::empty() =~= inner);
        }
    }
    assert(inject(tokens, Seq::empty()) =~= tokens);
}

/// A definition without a block in braces is left as it is.
pub proof fn lemma_inject_without_block(tokens: Seq<Tree>, fields: Seq<Tree>)
    requires
        !has_block(tokens),
    ensures
        inject(tokens, fields) == tokens,
{
    assert(inject(tokens, fields) =~= tokens);
}

/// Injection neither makes a block nor takes one away.
pub proof fn lemma_inject_keeps_blocks(tokens: Seq<Tree>, fields: Seq<Tree>)
    ensures
        has_block(inject(tokens, fields)) <==> has_block(tokens),
{
    let after = inject(tokens, fields);
    if has_block(tokens) {
        let i = choose|i: int| 0 <= i < tokens.len() && is_block(#[trigger] tokens[i]);
        assert(is_block(after[i]));
    }
    if has_block(after) {
        let i = choose|i: int| 0 <= i < after.len() && is_block(#[trigger] after[i]);
        assert(is_block(tokens[i]));
    }
}

/// Where there is a block, what was injected can be told from the result.
pub proof fn lemma_inject_tells_fields(tokens: Seq<Tree>, one: Seq<Tree>, other: Seq<Tree>)
    requires
        has_block(tokens),
        inject(tokens, one) == inject(tokens, other),
    ensures
        one == other,
{
    let i = choose|i: int| 0 <= i < tokens.len() && is_block(#[trigger] tokens[i]);
    let inner = tokens[i]->Group_1;
    assert(inject(tokens, one)[i] == Tree::Group(Delimiter::Brace, inner + one));
    assert(inject(tokens, other)[i] == Tree::Group(Delimiter::Brace, inner + other));
    assert(inner + one == inner + other);
    assert(one =~= (inner + one).subrange(inner.len() as int, (inner + one).len() as int));
    assert(other =~= (inner + other).subrange(inner.len() as int, (inner + other).len() as int));
}

/// Injecting one run of fields and then another is injecting the two runs
/// joined.
pub proof fn lemma_inject_twice(tokens: Seq<Tree>, first: Seq<Tree>, second: Seq<Tree>)
    ensures
        inject(inject(tokens, first), second) == inject(tokens, first + second),
{
    assert forall|i: int| 0 <= i < tokens.len() implies extend_block(
        extend_block(tokens[i], first),
        second,
    ) == extend_block(tokens[i], first + second) by {
        if let Tree::Group(Delimiter::Brace, inner) = tokens[i] {
            assert((inner + first) + second =~= inner + (first + second));
        }
    }
    assert(inject(inject(tokens, first), second) =~= inject(tokens, first + second));
}

/// Injection works on each part of a definition by itself.
pub proof fn lemma_inject_concat(left: Seq<Tree>, right: Seq<Tree>, fields: Seq<Tree>)
    ensures
        inject(left + right, fields) == inject(left, fields) + inject(right, fields),
{
    assert(inject(left + right, fields) =~= inject(left, fields) + inject(right, fields));
}

/// Injection does not change the name that a definition declares.
pub proof fn lemma_inject_keeps_name(tokens: Seq<Tree>, fields: Seq<Tree>)
    ensures
        declared_name(inject(tokens, fields)) == declared_name(tokens),
    decreases tokens.len(),
{
    if tokens.len() > 0 {
        let after = inject(tokens, fields);
        assert(after.drop_last() =~= inject(tokens.drop_last(), fields));
        lemma_inject_keeps_name(tokens.drop_last(), fields);
        assert(ends_in_name(after) <==> ends_in_name(tokens));
    }
}

/// Tells whether a definition has a block in braces among its own tokens.
pub fn contains_block(input: &Vec<TokenTree>) -> (r: bool)
    ensures
        r == has_block(trees(input@)),
{
    let mut i: usize = 0;
    while i < input.len()
        invariant
            i <= input.len(),
            forall|j: int| 0 <= j < i ==> !is_block(#[trigger] trees(input@)[j]),
        decreases input.len() - i,
    {
        assert(trees(input@)[i as int] == input@[i as int]@);
        match &input[i] {
            TokenTree::Group(Delimiter::Brace, _) => {
                return true;
            },
            _ => {},
        }
        i += 1;
    }
    false
}

/// Puts a copy of `fields` at the end of each block in braces of `input`.
///
/// Every other token is kept, in its place, and what a block held before
/// stays in front of the new fields. An input without such a block comes
/// back as it was.
pub fn append_props(input: &Vec<TokenTree>, fields: &Vec<TokenTree>) -> (r: Vec<TokenTree>)
    ensures
        trees(r@) == inject(trees(input@), trees(fields@)),
        !has_block(trees(input@)) ==> trees(r@) == trees(input@),
{
    proof {
        if !has_block(trees(input@)) {
            lemma_inject_without_block(trees(input@), trees(fields@));
        }
    }
    let mut out: Vec<TokenTree> = Vec::new();
    let mut i: usize = 0;
    while i < input.len()
        invariant
            i <= input.len(),
            trees(out@) == inject(trees(input@).take(i as int), trees(fields@)),
        decreases input.len() - i,
    {
        let token = match &input[i] {
            TokenTree::Group(Delimiter::Brace, inner) => {
                let mut extended = clone_tokens(inner);
                let mut extension = clone_tokens(fields);
                let ghost before = extended@;
                let ghost added = extension@;
                extended.append(&mut extension);
                assert(trees(extended@) =~= trees(before) + trees(added));
                TokenTree::Group(Delimiter::Brace, extended)
            },
            other => other.clone(),
        };
        proof {
            lemma_trees_push(out@, token);
            let seen = trees(input@).take(i as int + 1);
            assert(token@ == extend_block(input@[i as int]@, trees(fields@)));
            assert(inject(seen, trees(fields@)) =~= inject(
                trees(input@).take(i as int),
                trees(fields@),
            ).push(token@));
        }
        out.push(token);
        i += 1;
    }
    assert(trees(input@).take(i as int) == trees(input@));
    out
}

/// Reads `props` as field declarations and puts them at the end of each
/// block in braces of `input`.
///
/// An input without such a block comes back as it was, and `props` is not
/// read. Where there is a block, the lexer decides: the call fails with
/// `FieldSyntax` where it refuses `props`, and else puts what it read from
/// `props` at the end of each block.
pub fn add_props(input: &Vec<TokenTree>, props: &str) -> (r: Result<Vec<TokenTree>, InheritError>)
    ensures
        !has_block(trees(input@)) ==> (r matches Ok(out) && trees(out@) == trees(input@)),
        r matches Ok(out) ==> (has_block(trees(input@)) ==> exists|fields: Seq<Tree>|
            #[trigger] lexed(props@, fields) && trees(out@) == inject(trees(input@), fields)),
        r matches Ok(out) ==> injected(trees(input@), trees(out@)),
        r matches Err(e) ==> e == InheritError::FieldSyntax && has_block(trees(input@)),
{
    if !contains_block(input) {
        proof {
            lemma_inject_nothing(trees(input@));
        }
        return Ok(clone_tokens(input));
    }
    match lex(props) {
        Some(fields) => Ok(append_props(input, &fields)),
        None => Err(InheritError::FieldSyntax),
    }
}

} // verus!
