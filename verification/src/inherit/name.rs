//! Finding the name that a definition declares.

use crate::inherit::token::{trees, word, TokenTree, Tree};
use vstd::prelude::*;

verus! {

/// Whether the token at `i` is a type's name: an identifier that directly
/// follows the keyword `struct`.
pub open spec fn is_name_at(tokens: Seq<Tree>, i: int) -> bool {
    &&& 0 < i < tokens.len()
    &&& tokens[i - 1] == word("struct")
    &&& tokens[i] is Ident
}

/// Whether the last token of the run is a type's name.
pub open spec fn ends_in_name(tokens: Seq<Tree>) -> bool {
    is_name_at(tokens, tokens.len() - 1)
}

/// The name that a definition declares: the identifier that directly follows
/// the keyword `struct`, looked for among the definition's own tokens and not
/// inside its groups. Where several identifiers do, the last one counts. Where
/// none does, the name is empty.
pub open spec fn declared_name(tokens: Seq<Tree>) -> Seq<char>
    decreases tokens.len(),
{
    if tokens.len() == 0 {
        Seq::empty()
    } else if ends_in_name(tokens) {
        tokens.last()->Ident_0
    } else {
        declared_name(tokens.drop_last())
    }
}

/// The declared name is the text of the last identifier that directly
/// follows the keyword `struct`.
pub proof fn lemma_name_is_last_found(tokens: Seq<Tree>, i: int)
    requires
        is_name_at(tokens, i),
        forall|j: int| i < j < tokens.len() ==> !is_name_at(tokens, j),
    ensures
        declared_name(tokens) == tokens[i]->Ident_0,
    decreases tokens.len(),
{
    if i < tokens.len() - 1 {
        assert(!is_name_at(tokens, tokens.len() - 1));
        let shorter = tokens.drop_last();
        assert forall|j: int| i < j < shorter.len() implies !is_name_at(shorter, j) by {
            assert(!is_name_at(tokens, j));
        }
        lemma_name_is_last_found(shorter, i);
    }
}

/// A definition in which no identifier directly follows the keyword `struct`
/// declares the empty name.
pub proof fn lemma_nothing_found_no_name(tokens: Seq<Tree>)
    requires
        forall|j: int| 0 <= j < tokens.len() ==> !is_name_at(tokens, j),
    ensures
        declared_name(tokens) == Seq::<char>::empty(),
    decreases tokens.len(),
{
    if tokens.len() > 0 {
        assert(!is_name_at(tokens, tokens.len() - 1));
        let shorter = tokens.drop_last();
        assert forall|j: int| 0 <= j < shorter.len() implies !is_name_at(shorter, j) by {
            assert(!is_name_at(tokens, j));
        }
        lemma_nothing_found_no_name(shorter);
    }
}

/// Finds the name that a definition declares.
///
/// A definition without the keyword-and-name pair has the empty name; that
/// is no error here, and it is left to the caller to deal with it.
pub fn struct_name(input: &Vec<TokenTree>) -> (name: String)
    ensures
        name@ == declared_name(trees(input@)),
{
    let keyword = String::from_str("struct");
    let mut name = String::new();
    let mut at_name = false;
    let mut i: usize = 0;
    while i < input.len()
        invariant
            i <= input.len(),
            keyword@ == "struct"@,
            name@ == declared_name(trees(input@).take(i as int)),
            at_name <==> (i > 0 && trees(input@)[i - 1] == word("struct")),
        decreases input.len() - i,
    {
        proof {
            let seen = trees(input@).take(i as int + 1);
            assert(seen.drop_last() == trees(input@).take(i as int));
            assert(seen.last() == input@[i as int]@);
            if i > 0 {
                assert(seen[seen.len() - 2] == trees(input@)[i - 1]);
            }
        }
        match &input[i] {
            TokenTree::Ident(text) => {
                if at_name {
                    name = text.clone();
                }
                at_name = *text == keyword;
            },
            _ => {
                at_name = false;
            },
        }
        i += 1;
    }
    assert(trees(input@).take(i as int) == trees(input@));
    name
}

} // verus!
