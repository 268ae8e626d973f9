//! The roles, and the rule of each.

use crate::inherit::emit::{impl_node, impl_tokens};
use crate::inherit::error::InheritError;
use crate::inherit::fields::{
    add_props, append_props, has_block, inject, lemma_inject_keeps_blocks,
    lemma_inject_tells_fields, lemma_inject_twice, lemma_inject_without_block,
};
use crate::inherit::lexer::lexed;
use crate::inherit::name::{declared_name, struct_name};
use crate::inherit::token::{
    clone_tokens, joint_mark, mark, same_tokens, trees, word, TokenTree, Tree,
};
use vstd::prelude::*;

verus! {

/// The declaration of the position attribute, which every role that derives
/// a tag injects.
pub const LOC_FIELD: &'static str = "pub loc: SourceLocation,";

/// The declarations that the role `Function` injects: an optional
/// identifier, a parameter list and a generator flag.
pub const FUNCTION_FIELDS: &'static str =
    "pub id: Option<Identifier>, pub params: Vec<Pattern>, pub generator: bool,";

/// The declaration of the local name of an import specifier.
pub const LOCAL_FIELD: &'static str = "pub local: Identifier,";

/// The declaration of the exported name of an export specifier.
pub const EXPORTED_FIELD: &'static str = "pub exported: Identifier,";

/// The position attribute as tokens: `pub loc : SourceLocation ,`.
pub open spec fn loc_fields() -> Seq<Tree> {
    seq![word("pub"), word("loc"), mark(':'), word("SourceLocation"), mark(',')]
}

/// The local name of an import specifier as tokens:
/// `pub local : Identifier ,`.
pub open spec fn local_fields() -> Seq<Tree> {
    seq![word("pub"), word("local"), mark(':'), word("Identifier"), mark(',')]
}

/// The exported name of an export specifier as tokens:
/// `pub exported : Identifier ,`.
pub open spec fn exported_fields() -> Seq<Tree> {
    seq![word("pub"), word("exported"), mark(':'), word("Identifier"), mark(',')]
}

/// The three fields of the role `Function` as tokens: an optional
/// identifier, a parameter list and a generator flag. The `>` that closes a
/// type's arguments has the comma directly behind it.
pub open spec fn function_fields() -> Seq<Tree> {
    seq![
        word("pub"),
        word("id"),
        mark(':'),
        word("Option"),
        mark('<'),
        word("Identifier"),
        joint_mark('>'),
        mark(','),
        word("pub"),
        word("params"),
        mark(':'),
        word("Vec"),
        mark('<'),
        word("Pattern"),
        joint_mark('>'),
        mark(','),
        word("pub"),
        word("generator"),
        mark(':'),
        word("bool"),
        mark(','),
    ]
}

/// Builds `pub <name> : <kind> ,`.
fn simple_field(name: &str, kind: &str) -> (r: Vec<TokenTree>)
    ensures
        trees(r@) == seq![word("pub"), word(name), mark(':'), word(kind), mark(',')],
{
    let mut out: Vec<TokenTree> = Vec::new();
    out.push(TokenTree::ident("pub"));
    out.push(TokenTree::ident(name));
    out.push(TokenTree::punct(':'));
    out.push(TokenTree::ident(kind));
    out.push(TokenTree::punct(','));
    assert(trees(out@) =~= seq![word("pub"), word(name), mark(':'), word(kind), mark(',')]);
    out
}

/// Builds `pub <name> : <kind> < <of> > ,`.
fn generic_field(name: &str, kind: &str, of: &str) -> (r: Vec<TokenTree>)
    ensures
        trees(r@) == seq![
            word("pub"),
            word(name),
            mark(':'),
            word(kind),
            mark('<'),
            word(of),
            joint_mark('>'),
            mark(','),
        ],
{
    let mut out: Vec<TokenTree> = Vec::new();
    out.push(TokenTree::ident("pub"));
    out.push(TokenTree::ident(name));
    out.push(TokenTree::punct(':'));
    out.push(TokenTree::ident(kind));
    out.push(TokenTree::punct('<'));
    out.push(TokenTree::ident(of));
    out.push(TokenTree::joint('>'));
    out.push(TokenTree::punct(','));
    assert(trees(out@) =~= seq![
        word("pub"),
        word(name),
        mark(':'),
        word(kind),
        mark('<'),
        word(of),
        joint_mark('>'),
        mark(','),
    ]);
    out
}

/// The position attribute, token by token.
pub fn loc_tokens() -> (r: Vec<TokenTree>)
    ensures
        trees(r@) == loc_fields(),
{
    simple_field("loc", "SourceLocation")
}

/// The local name of an import specifier, token by token.
pub fn local_tokens() -> (r: Vec<TokenTree>)
    ensures
        trees(r@) == local_fields(),
{
    simple_field("local", "Identifier")
}

/// The exported name of an export specifier, token by token.
pub fn exported_tokens() -> (r: Vec<TokenTree>)
    ensures
        trees(r@) == exported_fields(),
{
    simple_field("exported", "Identifier")
}

/// The three fields of the role `Function`, token by token.
pub fn function_tokens() -> (r: Vec<TokenTree>)
    ensures
        trees(r@) == function_fields(),
{
    let mut out = generic_field("id", "Option", "Identifier");
    let mut params = generic_field("params", "Vec", "Pattern");
    let mut generator = simple_field("generator", "bool");
    let ghost first = out@;
    let ghost second = params@;
    let ghost third = generator@;
    out.append(&mut params);
    out.append(&mut generator);
    assert(trees(out@) =~= trees(first) + trees(second) + trees(third));
    assert(trees(first) + trees(second) + trees(third) =~= function_fields());
    out
}

/// A named rule for augmenting a type definition.
#[derive(Clone, Copy, Debug, PartialEq, Eq, Structural)]
pub enum Role {
    Node,
    Expression,
    Statement,
    Function,
    Pattern,
    Declaration,
    ImportSpecifier,
}

/// The field declarations of the roles as tokens, one run for each text.
#[derive(Debug, PartialEq, Eq)]
pub struct FieldTokens {
    /// What [`LOC_FIELD`] was read as.
    pub loc: Vec<TokenTree>,
    /// What [`FUNCTION_FIELDS`] was read as.
    pub function: Vec<TokenTree>,
    /// What [`LOCAL_FIELD`] was read as.
    pub local: Vec<TokenTree>,
}

/// The mathematical value of [`FieldTokens`].
pub struct Fields {
    pub loc: Seq<Tree>,
    pub function: Seq<Tree>,
    pub local: Seq<Tree>,
}

impl View for FieldTokens {
    type V = Fields;

    open spec fn view(&self) -> Fields {
        Fields {
            loc: trees(self.loc@),
            function: trees(self.function@),
            local: trees(self.local@),
        }
    }
}

/// The fields of the roles as their declarations read.
pub open spec fn standard_fields() -> Fields {
    Fields { loc: loc_fields(), function: function_fields(), local: local_fields() }
}

impl FieldTokens {
    /// The fields of the roles as their declarations read, token by token.
    pub fn standard() -> (r: FieldTokens)
        ensures
            r@ == standard_fields(),
    {
        FieldTokens { loc: loc_tokens(), function: function_tokens(), local: local_tokens() }
    }
}

/// What a rule returned, with the tokens taken by their values.
pub open spec fn outcome(r: Result<Vec<TokenTree>, InheritError>) -> Result<
    Seq<Tree>,
    InheritError,
> {
    match r {
        Ok(tokens) => Ok(trees(tokens@)),
        Err(e) => Err(e),
    }
}

/// What the rule of a specifier role gives on success: the position
/// attribute and the local name of an import, or the exported name of an
/// export, injected, and the implementation with the tag `<name>Specifier`.
pub open spec fn specifier(tokens: Seq<Tree>, import: bool) -> Result<Seq<Tree>, InheritError> {
    Role::ImportSpecifier.applied_to(
        tokens,
        loc_fields() + if import {
            local_fields()
        } else {
            exported_fields()
        },
    )
}

/// Whether the lexer was handed the declarations of a specifier role and
/// read them as the role's fields.
pub open spec fn specifier_read(import: bool) -> bool {
    &&& lexed(LOC_FIELD@, loc_fields())
    &&& if import {
        lexed(LOCAL_FIELD@, local_fields())
    } else {
        lexed(EXPORTED_FIELD@, exported_fields())
    }
}

/// What holds of a rule that reads its fields itself, where `expected` is
/// what the rule gives for the fields as their declarations read, `read`
/// says that the lexer read the declarations so, `tokens` is the definition
/// and `r` the result.
///
/// The rule gives what is expected, a definition or `MissingName`, but for
/// one case: where the definition has a block, so that fields had to be
/// read, the rule may fail with `FieldSyntax` in place of a definition. It
/// does where the lexer refuses a declaration or reads it as other tokens
/// than the role's fields. A definition with a block is given only after the
/// lexer has read the declarations.
pub open spec fn rule_outcome(
    expected: Result<Seq<Tree>, InheritError>,
    read: bool,
    tokens: Seq<Tree>,
    r: Result<Seq<Tree>, InheritError>,
) -> bool {
    &&& {
        ||| r == expected
        ||| {
            &&& r == Err::<Seq<Tree>, InheritError>(InheritError::FieldSyntax)
            &&& expected is Ok
            &&& has_block(tokens)
        }
    }
    &&& r is Ok && has_block(tokens) ==> read
}

impl Role {
    /// The registry: the role that a name stands for, if any. The names are
    /// those of the variants; no other name is known, and in particular not
    /// `ExportSpecifier`.
    pub open spec fn named(name: Seq<char>) -> Option<Role> {
        if name == "Node"@ {
            Some(Role::Node)
        } else if name == "Expression"@ {
            Some(Role::Expression)
        } else if name == "Statement"@ {
            Some(Role::Statement)
        } else if name == "Function"@ {
            Some(Role::Function)
        } else if name == "Pattern"@ {
            Some(Role::Pattern)
        } else if name == "Declaration"@ {
            Some(Role::Declaration)
        } else if name == "ImportSpecifier"@ {
            Some(Role::ImportSpecifier)
        } else {
            None
        }
    }

    /// The name by which a role list asks for the role.
    pub open spec fn name(self) -> Seq<char> {
        match self {
            Role::Node => "Node"@,
            Role::Expression => "Expression"@,
            Role::Statement => "Statement"@,
            Role::Function => "Function"@,
            Role::Pattern => "Pattern"@,
            Role::Declaration => "Declaration"@,
            Role::ImportSpecifier => "ImportSpecifier"@,
        }
    }

    /// What the role puts behind the type's name to make the tag, or `None`
    /// for the role that derives no tag.
    pub open spec fn suffix(self) -> Option<Seq<char>> {
        match self {
            Role::Node => Some(Seq::empty()),
            Role::Expression => Some("Expression"@),
            Role::Statement => Some("Statement"@),
            Role::Function => None,
            Role::Pattern => Some("Pattern"@),
            Role::Declaration => Some("Declaration"@),
            Role::ImportSpecifier => Some("Specifier"@),
        }
    }

    /// Whether the role derives a tag, and so emits an implementation.
    pub open spec fn has_tag(self) -> bool {
        self.suffix() is Some
    }

    /// The fields that the role injects, picked from the fields of all the
    /// roles: the three of `Function`; the position attribute and the local
    /// name for an import specifier; the position attribute for any other
    /// role.
    pub open spec fn fields(self, all: Fields) -> Seq<Tree> {
        match self {
            Role::Function => all.function,
            Role::ImportSpecifier => all.loc + all.local,
            _ => all.loc,
        }
    }

    /// The implementation that the role emits for the type `name`: none for
    /// the role that derives no tag.
    pub open spec fn implementation(self, name: Seq<char>) -> Seq<Tree> {
        match self.suffix() {
            Some(suffix) => impl_tokens(name, name + suffix),
            None => Seq::empty(),
        }
    }

    /// Whether the lexer was handed the declarations of the role's fields
    /// and read them as those fields.
    pub open spec fn declarations_read(self) -> bool {
        match self {
            Role::Function => lexed(FUNCTION_FIELDS@, function_fields()),
            Role::ImportSpecifier => specifier_read(true),
            _ => lexed(LOC_FIELD@, loc_fields()),
        }
    }

    /// What applying the role to a definition gives, for given fields: the
    /// fields are injected, and where the role derives a tag, an
    /// implementation with that tag follows the definition. A role that
    /// derives a tag fails where the definition declares no name.
    pub open spec fn applied_to(self, tokens: Seq<Tree>, fields: Seq<Tree>) -> Result<
        Seq<Tree>,
        InheritError,
    > {
        if self.has_tag() && declared_name(tokens).len() == 0 {
            Err(InheritError::MissingName)
        } else {
            Ok(inject(tokens, fields) + self.implementation(declared_name(tokens)))
        }
    }

    /// Looks a name up in the registry.
    pub fn from_name(name: &str) -> (r: Option<Role>)
        ensures
            r == Role::named(name@),
    {
        let name = String::from_str(name);
        if name == String::from_str("Node") {
            Some(Role::Node)
        } else if name == String::from_str("Expression") {
            Some(Role::Expression)
        } else if name == String::from_str("Statement") {
            Some(Role::Statement)
        } else if name == String::from_str("Function") {
            Some(Role::Function)
        } else if name == String::from_str("Pattern") {
            Some(Role::Pattern)
        } else if name == String::from_str("Declaration") {
            Some(Role::Declaration)
        } else if name == String::from_str("ImportSpecifier") {
            Some(Role::ImportSpecifier)
        } else {
            None
        }
    }

    /// Whether the role derives a tag.
    pub fn derives_tag(&self) -> (r: bool)
        ensures
            r == self.has_tag(),
    {
        match self {
            Role::Function => false,
            _ => true,
        }
    }

    /// The tag that the role derives for the type `name`: the name followed
    /// by the role's suffix. `None` for the role that derives none.
    pub fn tag(&self, name: &str) -> (r: Option<String>)
        ensures
            match r {
                Some(tag) => self.suffix() matches Some(suffix) && tag@ == name@ + suffix,
                None => self.suffix() is None,
            },
    {
        let base = String::from_str(name);
        match self {
            Role::Node => {
                assert(name@ + Seq::<char>::empty() =~= name@);
                Some(base)
            },
            Role::Expression => Some(base.concat("Expression")),
            Role::Statement => Some(base.concat("Statement")),
            Role::Function => None,
            Role::Pattern => Some(base.concat("Pattern")),
            Role::Declaration => Some(base.concat("Declaration")),
            Role::ImportSpecifier => Some(base.concat("Specifier")),
        }
    }

    /// Puts behind `input` the implementation that the role emits for the
    /// type `name`; for the role that derives no tag, `input` comes back as
    /// it is.
    pub fn implement(&self, input: &Vec<TokenTree>, name: &str) -> (r: Vec<TokenTree>)
        ensures
            trees(r@) == trees(input@) + self.implementation(name@),
    {
        match self.tag(name) {
            Some(kind) => impl_node(input, name, kind.as_str()),
            None => {
                let out = clone_tokens(input);
                assert(trees(input@) + Seq::<Tree>::empty() =~= trees(input@));
                out
            },
        }
    }

    /// Applies the role's rule to a definition, with the fields to inject
    /// given as tokens.
    pub fn apply_fields(&self, input: &Vec<TokenTree>, fields: &Vec<TokenTree>) -> (r: Result<
        Vec<TokenTree>,
        InheritError,
    >)
        ensures
            outcome(r) == self.applied_to(trees(input@), trees(fields@)),
    {
        let name = struct_name(input);
        if self.derives_tag() && name.as_str().unicode_len() == 0 {
            Err(InheritError::MissingName)
        } else {
            let stream = append_props(input, fields);
            Ok(self.implement(&stream, name.as_str()))
        }
    }

    /// Applies the role's rule to a definition. The rule reads its fields
    /// itself, where the definition has a block to put them into.
    pub fn apply(&self, input: &Vec<TokenTree>) -> (r: Result<Vec<TokenTree>, InheritError>)
        ensures
            rule_outcome(
                self.applied_to(trees(input@), self.fields(standard_fields())),
                self.declarations_read(),
                trees(input@),
                outcome(r),
            ),
    {
        match self {
            Role::Node => node(input),
            Role::Expression => expr(input),
            Role::Statement => stmt(input),
            Role::Function => func(input),
            Role::Pattern => pat(input),
            Role::Declaration => decl(input),
            Role::ImportSpecifier => mod_spec(input, true),
        }
    }
}

/// Puts the fields that `props` declares at the end of each block of
/// `input`, and sees to it that they are the fields `expected`.
///
/// The fields are read from `props` with [`add_props`]. Fails with
/// `FieldSyntax` where the lexer refuses `props` or reads it as other tokens
/// than `expected`; never where the definition has no block.
pub fn declare(input: &Vec<TokenTree>, props: &str, expected: &Vec<TokenTree>) -> (r: Result<
    Vec<TokenTree>,
    InheritError,
>)
    ensures
        r matches Ok(out) ==> trees(out@) == inject(trees(input@), trees(expected@)),
        r is Ok && has_block(trees(input@)) ==> lexed(props@, trees(expected@)),
        r matches Err(e) ==> e == InheritError::FieldSyntax && has_block(trees(input@)),
{
    let out = add_props(input, props)?;
    let wanted = append_props(input, expected);
    if same_tokens(&out, &wanted) {
        proof {
            if has_block(trees(input@)) {
                let fields = choose|fields: Seq<Tree>|
                    #[trigger] lexed(props@, fields) && trees(out@) == inject(
                        trees(input@),
                        fields,
                    );
                lemma_inject_tells_fields(trees(input@), fields, trees(expected@));
            }
        }
        Ok(out)
    } else {
        proof {
            if !has_block(trees(input@)) {
                lemma_inject_without_block(trees(input@), trees(expected@));
            }
        }
        Err(InheritError::FieldSyntax)
    }
}

/// Finds the declared name and injects the position attribute.
///
/// Returns the name, which is empty where the definition declares none,
/// together with the augmented definition. Fails with `FieldSyntax` where
/// the position attribute could not be read, and never where the definition
/// has no block.
pub fn inherit_node(input: &Vec<TokenTree>) -> (r: Result<(String, Vec<TokenTree>), InheritError>)
    ensures
        r matches Ok((name, stream)) ==> {
            &&& name@ == declared_name(trees(input@))
            &&& trees(stream@) == inject(trees(input@), loc_fields())
        },
        r is Ok && has_block(trees(input@)) ==> lexed(LOC_FIELD@, loc_fields()),
        r matches Err(e) ==> e == InheritError::FieldSyntax && has_block(trees(input@)),
{
    let name = struct_name(input);
    let expected = loc_tokens();
    let updated = declare(input, LOC_FIELD, &expected)?;
    Ok((name, updated))
}

/// The rule of a role that derives a tag and injects the position attribute
/// alone.
fn tagged_rule(role: Role, input: &Vec<TokenTree>) -> (r: Result<Vec<TokenTree>, InheritError>)
    requires
        role.has_tag(),
        role.fields(standard_fields()) == loc_fields(),
    ensures
        rule_outcome(
            role.applied_to(trees(input@), loc_fields()),
            lexed(LOC_FIELD@, loc_fields()),
            trees(input@),
            outcome(r),
        ),
{
    if struct_name(input).as_str().unicode_len() == 0 {
        return Err(InheritError::MissingName);
    }
    let (name, stream) = inherit_node(input)?;
    Ok(role.implement(&stream, name.as_str()))
}

/// The rule of the role `Node`: the tag is the type's name.
pub fn node(input: &Vec<TokenTree>) -> (r: Result<Vec<TokenTree>, InheritError>)
    ensures
        rule_outcome(
            Role::Node.applied_to(trees(input@), loc_fields()),
            lexed(LOC_FIELD@, loc_fields()),
            trees(input@),
            outcome(r),
        ),
{
    tagged_rule(Role::Node, input)
}

/// The rule of the role `Expression`.
pub fn expr(input: &Vec<TokenTree>) -> (r: Result<Vec<TokenTree>, InheritError>)
    ensures
        rule_outcome(
            Role::Expression.applied_to(trees(input@), loc_fields()),
            lexed(LOC_FIELD@, loc_fields()),
            trees(input@),
            outcome(r),
        ),
{
    tagged_rule(Role::Expression, input)
}

/// The rule of the role `Statement`.
pub fn stmt(input: &Vec<TokenTree>) -> (r: Result<Vec<TokenTree>, InheritError>)
    ensures
        rule_outcome(
            Role::Statement.applied_to(trees(input@), loc_fields()),
            lexed(LOC_FIELD@, loc_fields()),
            trees(input@),
            outcome(r),
        ),
{
    tagged_rule(Role::Statement, input)
}

/// The rule of the role `Function`: three fields, and no implementation.
pub fn func(input: &Vec<TokenTree>) -> (r: Result<Vec<TokenTree>, InheritError>)
    ensures
        rule_outcome(
            Role::Function.applied_to(trees(input@), function_fields()),
            lexed(FUNCTION_FIELDS@, function_fields()),
            trees(input@),
            outcome(r),
        ),
{
    let expected = function_tokens();
    let r = declare(input, FUNCTION_FIELDS, &expected);
    proof {
        let done = inject(trees(input@), function_fields());
        assert(done + Seq::<Tree>::empty() =~= done);
    }
    r
}

/// The rule of the role `Pattern`.
pub fn pat(input: &Vec<TokenTree>) -> (r: Result<Vec<TokenTree>, InheritError>)
    ensures
        rule_outcome(
            Role::Pattern.applied_to(trees(input@), loc_fields()),
            lexed(LOC_FIELD@, loc_fields()),
            trees(input@),
            outcome(r),
        ),
{
    tagged_rule(Role::Pattern, input)
}

/// The rule of the role `Declaration`.
pub fn decl(input: &Vec<TokenTree>) -> (r: Result<Vec<TokenTree>, InheritError>)
    ensures
        rule_outcome(
            Role::Declaration.applied_to(trees(input@), loc_fields()),
            lexed(LOC_FIELD@, loc_fields()),
            trees(input@),
            outcome(r),
        ),
{
    tagged_rule(Role::Declaration, input)
}

/// The rule of the specifier roles: the position attribute, then the local
/// name for an import (`import` set) or the exported name for an export, and
/// the tag `<name>Specifier`.
pub fn mod_spec(input: &Vec<TokenTree>, import: bool) -> (r: Result<Vec<TokenTree>, InheritError>)
    ensures
        rule_outcome(
            specifier(trees(input@), import),
            specifier_read(import),
            trees(input@),
            outcome(r),
        ),
{
    if struct_name(input).as_str().unicode_len() == 0 {
        return Err(InheritError::MissingName);
    }
    let (name, stream) = inherit_node(input)?;
    proof {
        lemma_inject_keeps_blocks(trees(input@), loc_fields());
    }
    let updated = if import {
        let expected = local_tokens();
        declare(&stream, LOCAL_FIELD, &expected)?
    } else {
        let expected = exported_tokens();
        declare(&stream, EXPORTED_FIELD, &expected)?
    };
    proof {
        lemma_inject_twice(
            trees(input@),
            loc_fields(),
            if import {
                local_fields()
            } else {
                exported_fields()
            },
        );
    }
    Ok(Role::ImportSpecifier.implement(&updated, name.as_str()))
}

} // verus!
