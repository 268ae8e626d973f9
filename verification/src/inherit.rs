//! The rules that augment a type definition by its roles.
//!
//! A definition is a run of token trees. Each role of the list injects its
//! fields into the definition's block; each role that derives a tag puts an
//! implementation of the node capability behind the definition. The
//! definition and the implementations are kept apart while the roles are
//! gone through, so that no role's fields get into an implementation.

use crate::inherit::error::InheritError;
use crate::inherit::fields::{append_props, contains_block, has_block, inject};
use crate::inherit::lexer::{lex, lexed};
use crate::inherit::name::{declared_name, struct_name};
use crate::inherit::role::{
    function_fields, function_tokens, local_fields, local_tokens, loc_fields, loc_tokens,
    outcome, standard_fields, FieldTokens, Fields, Role, FUNCTION_FIELDS, LOCAL_FIELD, LOC_FIELD,
};
use crate::inherit::token::{clone_tokens, same_tokens, trees, TokenTree, Tree};
use vstd::prelude::*;

pub mod emit;
pub mod error;
pub mod fields;
pub mod laws;
pub mod lexer;
pub mod name;
pub mod role;
pub mod token;

verus! {

/// Whether a token is an identifier that names no role.
pub open spec fn names_no_role(token: Tree) -> bool {
    token matches Tree::Ident(name) && Role::named(name) is None
}

/// Whether one of the identifiers of a role list names no role.
pub open spec fn names_unknown_role(attr: Seq<Tree>) -> bool {
    exists|i: int| 0 <= i < attr.len() && names_no_role(#[trigger] attr[i])
}

/// The roles that the identifiers of a role list name, in the order in which
/// they are written. What stands between the identifiers, such as the commas,
/// does not count.
pub open spec fn roles_in(attr: Seq<Tree>) -> Seq<Role>
    decreases attr.len(),
{
    if attr.len() == 0 {
        Seq::empty()
    } else {
        let before = roles_in(attr.drop_last());
        match attr.last() {
            Tree::Ident(name) => match Role::named(name) {
                Some(role) => before.push(role),
                None => before,
            },
            _ => before,
        }
    }
}

/// How many of the roles derive a tag.
pub open spec fn tag_count(roles: Seq<Role>) -> nat
    decreases roles.len(),
{
    if roles.len() == 0 {
        0
    } else {
        tag_count(roles.drop_last()) + if roles.last().has_tag() {
            1nat
        } else {
            0nat
        }
    }
}

/// The fields that the roles inject, role by role in the order of the list.
pub open spec fn fields_of(roles: Seq<Role>, all: Fields) -> Seq<Tree>
    decreases roles.len(),
{
    if roles.len() == 0 {
        Seq::empty()
    } else {
        fields_of(roles.drop_last(), all) + roles.last().fields(all)
    }
}

/// The implementations that the roles emit for the type `name`, role by role
/// in the order of the list.
pub open spec fn implementations(roles: Seq<Role>, name: Seq<char>) -> Seq<Tree>
    decreases roles.len(),
{
    if roles.len() == 0 {
        Seq::empty()
    } else {
        implementations(roles.drop_last(), name) + roles.last().implementation(name)
    }
}

/// What the roles make of a definition, for given fields: the definition
/// with the fields of all the roles injected in the order of the list, and
/// behind it one implementation for each role that derives a tag, each as it
/// was emitted. Where a role derives a tag and the definition declares no
/// name, nothing is made.
pub open spec fn generated(roles: Seq<Role>, tokens: Seq<Tree>, all: Fields) -> Result<
    Seq<Tree>,
    InheritError,
> {
    if tag_count(roles) > 0 && declared_name(tokens).len() == 0 {
        Err(InheritError::MissingName)
    } else {
        Ok(inject(tokens, fields_of(roles, all)) + implementations(roles, declared_name(tokens)))
    }
}

/// What `inherit` gives for a role list of known names and a definition, for
/// given fields.
pub open spec fn inherited(attr: Seq<Tree>, tokens: Seq<Tree>, all: Fields) -> Result<
    Seq<Tree>,
    InheritError,
> {
    if tag_count(roles_in(attr)) > 1 {
        Err(InheritError::ConflictingRoles)
    } else {
        generated(roles_in(attr), tokens, all)
    }
}

/// Reads the roles off a role list.
///
/// Fails with `UnknownRole`, and only so, where an identifier of the list
/// names no role.
pub fn resolve_roles(attr: &Vec<TokenTree>) -> (r: Result<Vec<Role>, InheritError>)
    ensures
        match r {
            Ok(roles) => !names_unknown_role(trees(attr@)) && roles@ == roles_in(trees(attr@)),
            Err(e) => e == InheritError::UnknownRole && names_unknown_role(trees(attr@)),
        },
{
    let mut roles: Vec<Role> = Vec::new();
    let mut i: usize = 0;
    while i < attr.len()
        invariant
            i <= attr.len(),
            !names_unknown_role(trees(attr@).take(i as int)),
            roles@ == roles_in(trees(attr@).take(i as int)),
        decreases attr.len() - i,
    {
        let ghost seen = trees(attr@).take(i as int + 1);
        proof {
            assert(seen.drop_last() == trees(attr@).take(i as int));
            assert(seen.last() == attr@[i as int]@);
        }
        match &attr[i] {
            TokenTree::Ident(name) => {
                match Role::from_name(name.as_str()) {
                    Some(role) => {
                        roles.push(role);
                    },
                    None => {
                        assert(trees(attr@)[i as int] == attr@[i as int]@);
                        return Err(InheritError::UnknownRole);
                    },
                }
            },
            _ => {},
        }
        proof {
            if names_unknown_role(seen) {
                let k = choose|k: int| 0 <= k < seen.len() && names_no_role(#[trigger] seen[k]);
                if k < i {
                    assert(trees(attr@).take(i as int)[k] == seen[k]);
                }
            }
        }
        i += 1;
    }
    assert(trees(attr@).take(i as int) == trees(attr@));
    Ok(roles)
}

/// Counts the roles that derive a tag, as far as it matters: the result is 0,
/// 1, or 2 for two or more.
fn count_tags(roles: &Vec<Role>) -> (n: u8)
    ensures
        n <= 2,
        n < 2 ==> n == tag_count(roles@),
        n == 2 ==> tag_count(roles@) >= 2,
{
    let mut n: u8 = 0;
    let mut i: usize = 0;
    while i < roles.len()
        invariant
            i <= roles.len(),
            n <= 2,
            n < 2 ==> n == tag_count(roles@.take(i as int)),
            n == 2 ==> tag_count(roles@.take(i as int)) >= 2,
        decreases roles.len() - i,
    {
        proof {
            assert(roles@.take(i as int + 1).drop_last() == roles@.take(i as int));
        }
        if roles[i].derives_tag() && n < 2 {
            n += 1;
        }
        i += 1;
    }
    assert(roles@.take(i as int) == roles@);
    n
}

/// Augments a definition by the given roles, with the fields of the roles
/// given as tokens.
///
/// The fields of all the roles go into the definition's block in the order of
/// the list; the implementations of the roles that derive a tag follow the
/// definition, untouched. Any list of roles is taken, also one with several
/// roles that derive a tag.
pub fn generate(roles: &Vec<Role>, input: &Vec<TokenTree>, fields: &FieldTokens) -> (r: Result<
    Vec<TokenTree>,
    InheritError,
>)
    ensures
        outcome(r) == generated(roles@, trees(input@), fields@),
{
    let name = struct_name(input);
    if count_tags(roles) > 0 && name.as_str().unicode_len() == 0 {
        return Err(InheritError::MissingName);
    }
    let mut definition = clone_tokens(input);
    let mut emitted: Vec<TokenTree> = Vec::new();
    let mut i: usize = 0;
    proof {
        crate::inherit::fields::lemma_inject_nothing(trees(input@));
        assert(trees(emitted@) =~= Seq::<Tree>::empty());
    }
    while i < roles.len()
        invariant
            i <= roles.len(),
            name@ == declared_name(trees(input@)),
            trees(definition@) == inject(
                trees(input@),
                fields_of(roles@.take(i as int), fields@),
            ),
            trees(emitted@) == implementations(roles@.take(i as int), name@),
        decreases roles.len() - i,
    {
        proof {
            assert(roles@.take(i as int + 1).drop_last() == roles@.take(i as int));
            crate::inherit::fields::lemma_inject_twice(
                trees(input@),
                fields_of(roles@.take(i as int), fields@),
                roles@[i as int].fields(fields@),
            );
        }
        match roles[i] {
            Role::Function => {
                definition = append_props(&definition, &fields.function);
            },
            Role::ImportSpecifier => {
                let with_loc = append_props(&definition, &fields.loc);
                definition = append_props(&with_loc, &fields.local);
                proof {
                    crate::inherit::fields::lemma_inject_twice(
                        inject(trees(input@), fields_of(roles@.take(i as int), fields@)),
                        fields@.loc,
                        fields@.local,
                    );
                }
            },
            _ => {
                definition = append_props(&definition, &fields.loc);
            },
        }
        emitted = roles[i].implement(&emitted, name.as_str());
        i += 1;
    }
    assert(roles@.take(i as int) == roles@);
    let ghost first = definition@;
    let ghost second = emitted@;
    definition.append(&mut emitted);
    assert(trees(definition@) =~= trees(first) + trees(second));
    Ok(definition)
}

/// Whether the lexer was handed the declarations of all the given roles and
/// read each as the role's fields.
pub open spec fn declarations_read(roles: Seq<Role>) -> bool {
    forall|i: int| 0 <= i < roles.len() ==> (#[trigger] roles[i]).declarations_read()
}

/// Hands a declaration to the lexer and sees that it is read as the fields
/// `expected`. `None` where the lexer refuses the text or reads it as other
/// tokens.
fn read_declared(text: &str, expected: Vec<TokenTree>) -> (r: Option<Vec<TokenTree>>)
    ensures
        r matches Some(tokens) ==> trees(tokens@) == trees(expected@) && lexed(
            text@,
            trees(expected@),
        ),
{
    match lex(text) {
        Some(tokens) => {
            if same_tokens(&tokens, &expected) {
                Some(tokens)
            } else {
                None
            }
        },
        None => None,
    }
}

/// Reads the field declarations that the given roles need, each text once.
/// `None` where one of them is not read as the fields it declares.
fn read_fields(roles: &Vec<Role>) -> (r: Option<FieldTokens>)
    ensures
        r matches Some(all) ==> all@ == standard_fields() && declarations_read(roles@),
{
    let mut all = FieldTokens::standard();
    let mut have_loc = false;
    let mut have_function = false;
    let mut have_local = false;
    let mut i: usize = 0;
    while i < roles.len()
        invariant
            i <= roles.len(),
            all@ == standard_fields(),
            have_loc ==> lexed(LOC_FIELD@, loc_fields()),
            have_function ==> lexed(FUNCTION_FIELDS@, function_fields()),
            have_local ==> lexed(LOCAL_FIELD@, local_fields()),
            forall|j: int| 0 <= j < i ==> (#[trigger] roles@[j]).declarations_read(),
        decreases roles.len() - i,
    {
        let role = roles[i];
        if role.derives_tag() && !have_loc {
            match read_declared(LOC_FIELD, loc_tokens()) {
                Some(tokens) => {
                    all.loc = tokens;
                    have_loc = true;
                },
                None => {
                    return None;
                },
            }
        }
        if role == Role::Function && !have_function {
            match read_declared(FUNCTION_FIELDS, function_tokens()) {
                Some(tokens) => {
                    all.function = tokens;
                    have_function = true;
                },
                None => {
                    return None;
                },
            }
        }
        if role == Role::ImportSpecifier && !have_local {
            match read_declared(LOCAL_FIELD, local_tokens()) {
                Some(tokens) => {
                    all.local = tokens;
                    have_local = true;
                },
                None => {
                    return None;
                },
            }
        }
        i += 1;
    }
    Some(all)
}

/// What holds of a call that reads the fields itself, where `expected` is
/// what is made for the fields as their declarations read, `roles` are the
/// roles, `tokens` is the definition and `r` the result.
///
/// The call gives what is expected, a definition or one of the library's own
/// failures, but for one case: where there is a role and the definition has
/// a block, so that fields had to be read, the call may fail with
/// `FieldSyntax` in place of a definition. It does where the lexer refuses a
/// declaration or reads it as other tokens than the role's fields. A
/// definition with a block is given only after the lexer has read the
/// declarations of all the roles.
pub open spec fn composed(
    expected: Result<Seq<Tree>, InheritError>,
    roles: Seq<Role>,
    tokens: Seq<Tree>,
    r: Result<Seq<Tree>, InheritError>,
) -> bool {
    &&& {
        ||| r == expected
        ||| {
            &&& r == Err::<Seq<Tree>, InheritError>(InheritError::FieldSyntax)
            &&& expected is Ok
            &&& has_block(tokens)
            &&& roles.len() > 0
        }
    }
    &&& r is Ok && has_block(tokens) ==> declarations_read(roles)
}

/// Augments a definition by the given roles. The fields are read where
/// there is a role and the definition has a block to put them into.
///
/// Any list of roles is taken, also one with several roles that derive a
/// tag: each of them then puts its own implementation behind the definition.
pub fn compose(roles: &Vec<Role>, input: &Vec<TokenTree>) -> (r: Result<
    Vec<TokenTree>,
    InheritError,
>)
    ensures
        composed(
            generated(roles@, trees(input@), standard_fields()),
            roles@,
            trees(input@),
            outcome(r),
        ),
{
    let name = struct_name(input);
    if count_tags(roles) > 0 && name.as_str().unicode_len() == 0 {
        return Err(InheritError::MissingName);
    }
    if roles.len() == 0 || !contains_block(input) {
        let r = generate(roles, input, &FieldTokens::standard());
        return r;
    }
    match read_fields(roles) {
        Some(all) => generate(roles, input, &all),
        None => Err(InheritError::FieldSyntax),
    }
}

/// Augments a type definition by the roles that `attr` lists, with the
/// fields of the roles given as tokens.
///
/// `attr` is the role list as it is written: identifiers, with commas
/// between them. Every identifier has to name a role: [`resolve_roles`]
/// tells. No definition is returned
/// - where more than one role of the list derives a tag: `ConflictingRoles`;
/// - else where a role derives a tag and the definition declares no name:
///   `MissingName`.
pub fn inherit_with(attr: &Vec<TokenTree>, input: &Vec<TokenTree>, fields: &FieldTokens) -> (r:
    Result<Vec<TokenTree>, InheritError>)
    requires
        !names_unknown_role(trees(attr@)),
    ensures
        outcome(r) == inherited(trees(attr@), trees(input@), fields@),
{
    match resolve_roles(attr) {
        Ok(roles) => {
            if count_tags(&roles) > 1 {
                Err(InheritError::ConflictingRoles)
            } else {
                generate(&roles, input, fields)
            }
        },
        Err(e) => Err(e),
    }
}

/// Augments a type definition by the roles that `attr` lists.
///
/// `attr` is the role list as it is written: identifiers, with commas
/// between them. Every identifier has to name a role: a list with an unknown
/// name is no input of this function, and [`resolve_roles`] tells whether a
/// list is one. Each role injects its fields into the definition's block, in
/// the order of the list, and the role that derives a tag puts an
/// implementation of the node capability behind the definition. The fields
/// are read where there is a role and the definition has a block.
///
/// No definition is returned
/// - where more than one role of the list derives a tag: `ConflictingRoles`;
/// - else where a role derives a tag and the definition declares no name:
///   `MissingName`;
/// - else where the lexer refuses the declaration of a role's fields or
///   reads it as other tokens than those fields: `FieldSyntax`.
pub fn inherit(attr: &Vec<TokenTree>, input: &Vec<TokenTree>) -> (r: Result<
    Vec<TokenTree>,
    InheritError,
>)
    requires
        !names_unknown_role(trees(attr@)),
    ensures
        composed(
            inherited(trees(attr@), trees(input@), standard_fields()),
            roles_in(trees(attr@)),
            trees(input@),
            outcome(r),
        ),
{
    match resolve_roles(attr) {
        Ok(roles) => {
            if count_tags(&roles) > 1 {
                Err(InheritError::ConflictingRoles)
            } else {
                compose(&roles, input)
            }
        },
        Err(e) => Err(e),
    }
}

} // verus!
