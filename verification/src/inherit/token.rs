//! Token trees, and their mathematical values.

use vstd::prelude::*;

verus! {

/// How a group of tokens is enclosed.
#[derive(Clone, Copy, Debug, PartialEq, Eq, Structural)]
pub enum Delimiter {
    /// `( ... )`
    Parenthesis,
    /// `{ ... }`
    Brace,
    /// `[ ... ]`
    Bracket,
    /// No visible delimiter.
    Invisible,
}

/// One token, or a delimited run of tokens.
#[derive(Debug, PartialEq, Eq)]
pub enum TokenTree {
    /// A run of tokens between two delimiters.
    Group(Delimiter, Vec<TokenTree>),
    /// A word: a keyword or a name.
    Ident(String),
    /// One punctuation character. The flag is set where another punctuation
    /// character follows it directly, as the first `:` of `::`.
    Punct(char, bool),
    /// A literal, as the text it was written with.
    Literal(String),
}

/// The mathematical value of a [`TokenTree`].
pub enum Tree {
    Group(Delimiter, Seq<Tree>),
    Ident(Seq<char>),
    Punct(char, bool),
    Literal(Seq<char>),
}

impl View for TokenTree {
    type V = Tree;

    open spec fn view(&self) -> Tree
        decreases self,
    {
        match self {
            TokenTree::Group(delimiter, inner) => Tree::Group(*delimiter, trees(inner@)),
            TokenTree::Ident(text) => Tree::Ident(text@),
            TokenTree::Punct(ch, joint) => Tree::Punct(*ch, *joint),
            TokenTree::Literal(text) => Tree::Literal(text@),
        }
    }
}

/// The values of a run of tokens, one by one.
pub open spec fn trees(tokens: Seq<TokenTree>) -> Seq<Tree>
    decreases tokens,
{
    Seq::new(
        tokens.len(),
        |i: int|
            if 0 <= i < tokens.len() {
                tokens[i]@
            } else {
                arbitrary()
            },
    )
}

/// The identifier with the given text, as a value.
pub open spec fn word(text: &str) -> Tree {
    Tree::Ident(text@)
}

/// A punctuation character that stands alone, as a value.
pub open spec fn mark(ch: char) -> Tree {
    Tree::Punct(ch, false)
}

/// A punctuation character that another one follows directly, as a value.
pub open spec fn joint_mark(ch: char) -> Tree {
    Tree::Punct(ch, true)
}

/// `trees` goes through `push`.
pub proof fn lemma_trees_push(tokens: Seq<TokenTree>, token: TokenTree)
    ensures
        trees(tokens.push(token)) == trees(tokens).push(token@),
{
    assert(trees(tokens.push(token)) =~= trees(tokens).push(token@));
}

impl Clone for TokenTree {
    /// A deep copy with the same value.
    fn clone(&self) -> (r: TokenTree)
        ensures
            r@ == self@,
        decreases self,
    {
        match self {
            TokenTree::Group(delimiter, inner) => {
                let mut copy: Vec<TokenTree> = Vec::new();
                let mut i: usize = 0;
                while i < inner.len()
                    invariant
                        i <= inner.len(),
                        *self == TokenTree::Group(*delimiter, *inner),
                        trees(copy@) == trees(inner@.take(i as int)),
                    decreases inner.len() - i,
                {
                    proof {
                        vstd::std_specs::vec::axiom_vec_index_decreases(*inner, i as int);
                        assert(decreases_to!(self => self->Group_1));
                        lemma_trees_push(inner@.take(i as int), inner@[i as int]);
                        assert(inner@.take(i as int + 1) == inner@.take(i as int).push(
                            inner@[i as int],
                        ));
                    }
                    let token = inner[i].clone();
                    proof {
                        lemma_trees_push(copy@, token);
                    }
                    copy.push(token);
                    i += 1;
                }
                assert(inner@.take(i as int) == inner@);
                TokenTree::Group(*delimiter, copy)
            },
            TokenTree::Ident(text) => TokenTree::Ident(text.clone()),
            TokenTree::Punct(ch, joint) => TokenTree::Punct(*ch, *joint),
            TokenTree::Literal(text) => TokenTree::Literal(text.clone()),
        }
    }
}

impl TokenTree {
    /// Whether two tokens have the same value.
    pub fn same(&self, other: &TokenTree) -> (r: bool)
        ensures
            r == (self@ == other@),
        decreases self,
    {
        match (self, other) {
            (TokenTree::Group(delimiter, inner), TokenTree::Group(other_delimiter, other_inner)) => {
                if *delimiter != *other_delimiter || inner.len() != other_inner.len() {
                    assert(trees(inner@).len() == inner.len());
                    assert(trees(other_inner@).len() == other_inner.len());
                    return false;
                }
                let mut i: usize = 0;
                while i < inner.len()
                    invariant
                        i <= inner.len(),
                        inner.len() == other_inner.len(),
                        *self == TokenTree::Group(*delimiter, *inner),
                        *other == TokenTree::Group(*other_delimiter, *other_inner),
                        forall|j: int| 0 <= j < i ==> inner@[j]@ == other_inner@[j]@,
                    decreases inner.len() - i,
                {
                    proof {
                        vstd::std_specs::vec::axiom_vec_index_decreases(*inner, i as int);
                        assert(decreases_to!(self => self->Group_1));
                    }
                    if !inner[i].same(&other_inner[i]) {
                        assert(trees(inner@)[i as int] == inner@[i as int]@);
                        assert(trees(other_inner@)[i as int] == other_inner@[i as int]@);
                        return false;
                    }
                    i += 1;
                }
                assert(trees(inner@) =~= trees(other_inner@));
                true
            },
            (TokenTree::Ident(text), TokenTree::Ident(other_text)) => *text == *other_text,
            (TokenTree::Punct(ch, joint), TokenTree::Punct(other_ch, other_joint)) => {
                *ch == *other_ch && *joint == *other_joint
            },
            (TokenTree::Literal(text), TokenTree::Literal(other_text)) => *text == *other_text,
            _ => false,
        }
    }

    /// The identifier with the given text.
    pub fn ident(text: &str) -> (r: TokenTree)
        ensures
            r@ == word(text),
    {
        TokenTree::Ident(String::from_str(text))
    }

    /// A punctuation character that stands alone.
    pub fn punct(ch: char) -> (r: TokenTree)
        ensures
            r@ == mark(ch),
    {
        TokenTree::Punct(ch, false)
    }

    /// A punctuation character that another one follows directly.
    pub fn joint(ch: char) -> (r: TokenTree)
        ensures
            r@ == joint_mark(ch),
    {
        TokenTree::Punct(ch, true)
    }

    /// The group that encloses `inner` in the given delimiters.
    pub fn group(delimiter: Delimiter, inner: Vec<TokenTree>) -> (r: TokenTree)
        ensures
            r@ == Tree::Group(delimiter, trees(inner@)),
    {
        TokenTree::Group(delimiter, inner)
    }
}

/// Whether two runs of tokens have the same value.
pub fn same_tokens(left: &Vec<TokenTree>, right: &Vec<TokenTree>) -> (r: bool)
    ensures
        r == (trees(left@) == trees(right@)),
{
    if left.len() != right.len() {
        assert(trees(left@).len() == left.len());
        assert(trees(right@).len() == right.len());
        return false;
    }
    let mut i: usize = 0;
    while i < left.len()
        invariant
            i <= left.len(),
            left.len() == right.len(),
            forall|j: int| 0 <= j < i ==> left@[j]@ == right@[j]@,
        decreases left.len() - i,
    {
        if !left[i].same(&right[i]) {
            assert(trees(left@)[i as int] == left@[i as int]@);
            assert(trees(right@)[i as int] == right@[i as int]@);
            return false;
        }
        i += 1;
    }
    assert(trees(left@) =~= trees(right@));
    true
}

/// A deep copy of a run of tokens.
pub fn clone_tokens(tokens: &Vec<TokenTree>) -> (r: Vec<TokenTree>)
    ensures
        trees(r@) == trees(tokens@),
{
    let mut copy: Vec<TokenTree> = Vec::new();
    let mut i: usize = 0;
    while i < tokens.len()
        invariant
            i <= tokens.len(),
            trees(copy@) == trees(tokens@.take(i as int)),
        decreases tokens.len() - i,
    {
        let token = tokens[i].clone();
        proof {
            lemma_trees_push(tokens@.take(i as int), tokens@[i as int]);
            assert(tokens@.take(i as int + 1) == tokens@.take(i as int).push(tokens@[i as int]));
            lemma_trees_push(copy@, token);
        }
        copy.push(token);
        i += 1;
    }
    assert(tokens@.take(i as int) == tokens@);
    copy
}

} // verus!
