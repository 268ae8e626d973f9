//! What holds of generation as a whole.

use crate::inherit::emit::{impl_tokens, kind_accessor, loc_accessor};
use crate::inherit::error::InheritError;
use crate::inherit::fields::{
    has_block, inject, lemma_inject_concat, lemma_inject_keeps_name, lemma_inject_twice,
    lemma_inject_without_block,
};
use crate::inherit::name::{declared_name, ends_in_name};
use crate::inherit::role::{Fields, Role};
use crate::inherit::token::{word, Delimiter, Tree};
use crate::inherit::{
    fields_of, generated, implementations, inherited, names_no_role, names_unknown_role, roles_in,
    tag_count,
};
use vstd::prelude::*;

verus! {

/// The registry finds every role by its name.
pub proof fn law_every_role_is_registered(role: Role)
    ensures
        Role::named(role.name()) == Some(role),
{
    reveal_strlit("Node");
    reveal_strlit("Expression");
    reveal_strlit("Statement");
    reveal_strlit("Function");
    reveal_strlit("Pattern");
    reveal_strlit("Declaration");
    reveal_strlit("ImportSpecifier");
    assert("Node"@.len() == 4);
    assert("Expression"@.len() == 10);
    assert("Statement"@.len() == 9);
    assert("Function"@.len() == 8);
    assert("Pattern"@.len() == 7);
    assert("Declaration"@.len() == 11);
    assert("ImportSpecifier"@.len() == 15);
}

/// The role list that names the given roles, one identifier for each.
pub open spec fn list_of(roles: Seq<Role>) -> Seq<Tree> {
    Seq::new(roles.len(), |i: int| Tree::Ident(roles[i].name()))
}

/// A role list written with the names of roles names no unknown role, and
/// asks for those roles in that order.
pub proof fn law_list_names_its_roles(roles: Seq<Role>)
    ensures
        !names_unknown_role(list_of(roles)),
        roles_in(list_of(roles)) == roles,
    decreases roles.len(),
{
    let attr = list_of(roles);
    assert forall|i: int| 0 <= i < attr.len() implies !names_no_role(#[trigger] attr[i]) by {
        law_every_role_is_registered(roles[i]);
    }
    if roles.len() > 0 {
        law_list_names_its_roles(roles.drop_last());
        assert(attr.drop_last() =~= list_of(roles.drop_last()));
        law_every_role_is_registered(roles.last());
        assert(roles_in(attr) =~= roles);
    }
}

/// Generation never reports an unknown role: whether a list names one is
/// settled before, by its names alone.
pub proof fn law_unknown_role_is_of_the_list(attr: Seq<Tree>, tokens: Seq<Tree>, all: Fields)
    ensures
        inherited(attr, tokens, all) != Err::<Seq<Tree>, InheritError>(InheritError::UnknownRole),
{
}

/// For a definition without a block, and for no roles, the fields make no
/// difference to what is generated.
pub proof fn law_fields_matter_only_for_blocks(
    roles: Seq<Role>,
    tokens: Seq<Tree>,
    one: Fields,
    other: Fields,
)
    requires
        !has_block(tokens) || roles.len() == 0,
    ensures
        generated(roles, tokens, one) == generated(roles, tokens, other),
{
    if !has_block(tokens) {
        lemma_inject_without_block(tokens, fields_of(roles, one));
        lemma_inject_without_block(tokens, fields_of(roles, other));
    }
}

/// One role alone makes of a definition what its rule gives.
pub proof fn law_single_role_is_its_rule(role: Role, tokens: Seq<Tree>, all: Fields)
    ensures
        generated(seq![role], tokens, all) == role.applied_to(tokens, role.fields(all)),
{
    let roles = seq![role];
    assert(roles.drop_last() =~= Seq::<Role>::empty());
    assert(roles.last() == role);
    assert(tag_count(Seq::<Role>::empty()) == 0);
    assert(fields_of(Seq::<Role>::empty(), all) =~= Seq::<Tree>::empty());
    assert(fields_of(roles, all) =~= role.fields(all));
    assert(implementations(Seq::<Role>::empty(), declared_name(tokens)) =~= Seq::<Tree>::empty());
    assert(implementations(roles, declared_name(tokens)) =~= role.implementation(
        declared_name(tokens),
    ));
}

/// Roles that derive no tag emit nothing.
proof fn lemma_no_tag_no_implementation(roles: Seq<Role>, name: Seq<char>)
    requires
        tag_count(roles) == 0,
    ensures
        implementations(roles, name) == Seq::<Tree>::empty(),
    decreases roles.len(),
{
    if roles.len() > 0 {
        lemma_no_tag_no_implementation(roles.drop_last(), name);
        assert(implementations(roles, name) =~= Seq::<Tree>::empty());
    }
}

/// A list with a role that derives a tag counts at least one.
proof fn lemma_tag_is_counted(roles: Seq<Role>, k: int)
    requires
        0 <= k < roles.len(),
        roles[k].has_tag(),
    ensures
        tag_count(roles) >= 1,
    decreases roles.len(),
{
    if k < roles.len() - 1 {
        lemma_tag_is_counted(roles.drop_last(), k);
    }
}

/// Where exactly one role derives a tag, what is emitted is that role's
/// implementation and nothing else.
proof fn lemma_one_tag_one_implementation(roles: Seq<Role>, name: Seq<char>, k: int)
    requires
        0 <= k < roles.len(),
        roles[k].has_tag(),
        tag_count(roles) == 1,
    ensures
        implementations(roles, name) == roles[k].implementation(name),
    decreases roles.len(),
{
    let front = roles.drop_last();
    if k == roles.len() - 1 {
        lemma_no_tag_no_implementation(front, name);
        assert(Seq::<Tree>::empty() + roles[k].implementation(name) =~= roles[k].implementation(
            name,
        ));
    } else {
        lemma_tag_is_counted(front, k);
        lemma_one_tag_one_implementation(front, name, k);
        assert(front[k] == roles[k]);
        assert(roles[k].implementation(name) + Seq::<Tree>::empty() =~= roles[k].implementation(
            name,
        ));
    }
}

/// Exactly one role that derives a tag gives exactly one implementation, and
/// its tag accessor returns the tag that the role derives: the declared name
/// followed by the role's suffix. The accessor's body is that tag's path and
/// nothing else, so the tag is the same for every value of the type. The
/// implementation holds the two accessors and nothing more, wherever in the
/// list the role stands.
pub proof fn law_tag_follows_role(attr: Seq<Tree>, tokens: Seq<Tree>, all: Fields, k: int)
    requires
        !names_unknown_role(attr),
        tag_count(roles_in(attr)) == 1,
        0 <= k < roles_in(attr).len(),
        roles_in(attr)[k].has_tag(),
        declared_name(tokens).len() > 0,
    ensures
        inherited(attr, tokens, all) == Ok::<Seq<Tree>, InheritError>(
            inject(tokens, fields_of(roles_in(attr), all)) + impl_tokens(
                declared_name(tokens),
                declared_name(tokens) + roles_in(attr)[k].suffix()->Some_0,
            ),
        ),
        ({
            let out = inherited(attr, tokens, all)->Ok_0;
            let name = declared_name(tokens);
            let tag = name + roles_in(attr)[k].suffix()->Some_0;
            let n = tokens.len() as int;
            &&& out.len() == n + 5
            &&& out.subrange(n, n + 4) == seq![
                word("impl"),
                word("Node"),
                word("for"),
                Tree::Ident(name),
            ]
            &&& out[n + 4] == Tree::Group(Delimiter::Brace, loc_accessor() + kind_accessor(tag))
        }),
{
    let roles = roles_in(attr);
    lemma_one_tag_one_implementation(roles, declared_name(tokens), k);
    let out = inherited(attr, tokens, all)->Ok_0;
    let n = tokens.len() as int;
    assert(out.subrange(n, n + 4) =~= seq![
        word("impl"),
        word("Node"),
        word("for"),
        Tree::Ident(declared_name(tokens)),
    ]);
}

/// In a definition with one block, injected fields go behind what the block
/// holds, and nothing else changes.
pub proof fn lemma_inject_single_block(
    before: Seq<Tree>,
    held: Seq<Tree>,
    after: Seq<Tree>,
    fields: Seq<Tree>,
)
    requires
        !has_block(before),
        !has_block(after),
    ensures
        inject(before + seq![Tree::Group(Delimiter::Brace, held)] + after, fields) == before
            + seq![Tree::Group(Delimiter::Brace, held + fields)] + after,
{
    let block = seq![Tree::Group(Delimiter::Brace, held)];
    lemma_inject_concat(before + block, after, fields);
    lemma_inject_concat(before, block, fields);
    lemma_inject_without_block(before, fields);
    lemma_inject_without_block(after, fields);
    assert(inject(block, fields) =~= seq![Tree::Group(Delimiter::Brace, held + fields)]);
}

/// Injection order follows the order of the role list. For a definition with
/// one block, a declared name and at most one role that derives a tag, the
/// block then holds what it held before and, behind that, the fields of the
/// roles in the order in which the list names them; the implementation
/// follows the definition and holds none of the fields.
pub proof fn law_fields_follow_role_order(
    attr: Seq<Tree>,
    before: Seq<Tree>,
    held: Seq<Tree>,
    after: Seq<Tree>,
    all: Fields,
)
    requires
        !names_unknown_role(attr),
        tag_count(roles_in(attr)) <= 1,
        !has_block(before),
        !has_block(after),
        declared_name(before + seq![Tree::Group(Delimiter::Brace, held)] + after).len() > 0,
    ensures
        ({
            let definition = before + seq![Tree::Group(Delimiter::Brace, held)] + after;
            inherited(attr, definition, all) == Ok::<Seq<Tree>, InheritError>(
                before + seq![
                    Tree::Group(Delimiter::Brace, held + fields_of(roles_in(attr), all)),
                ] + after + implementations(roles_in(attr), declared_name(definition)),
            )
        }),
{
    lemma_inject_single_block(before, held, after, fields_of(roles_in(attr), all));
}

/// The role `Function` listed in front of one role that derives a tag, for a
/// definition with one block and a declared name: the block then holds, in
/// this order, what it held before, the fields of `Function`, and the fields
/// of the other role. One implementation follows the definition, with the
/// other role's tag.
pub proof fn law_function_fields_come_first(
    attr: Seq<Tree>,
    role: Role,
    before: Seq<Tree>,
    held: Seq<Tree>,
    after: Seq<Tree>,
    all: Fields,
)
    requires
        !names_unknown_role(attr),
        roles_in(attr) == seq![Role::Function, role],
        role.has_tag(),
        !has_block(before),
        !has_block(after),
        declared_name(before + seq![Tree::Group(Delimiter::Brace, held)] + after).len() > 0,
    ensures
        ({
            let definition = before + seq![Tree::Group(Delimiter::Brace, held)] + after;
            let name = declared_name(definition);
            inherited(attr, definition, all) == Ok::<Seq<Tree>, InheritError>(
                before + seq![
                    Tree::Group(Delimiter::Brace, held + all.function + role.fields(all)),
                ] + after + impl_tokens(name, name + role.suffix()->Some_0),
            )
        }),
{
    let roles = seq![Role::Function, role];
    let definition = before + seq![Tree::Group(Delimiter::Brace, held)] + after;
    lemma_pair(Role::Function, role, all, declared_name(definition));
    lemma_one_tag_one_implementation(roles, declared_name(definition), 1);
    law_fields_follow_role_order(attr, before, held, after, all);
    assert(held + (all.function + role.fields(all)) =~= held + all.function + role.fields(all));
}

/// The same two roles in the other order: the fields of the role that
/// derives a tag come first in the block, those of `Function` behind them,
/// and the implementation is the same as before.
pub proof fn law_function_fields_come_last(
    attr: Seq<Tree>,
    role: Role,
    before: Seq<Tree>,
    held: Seq<Tree>,
    after: Seq<Tree>,
    all: Fields,
)
    requires
        !names_unknown_role(attr),
        roles_in(attr) == seq![role, Role::Function],
        role.has_tag(),
        !has_block(before),
        !has_block(after),
        declared_name(before + seq![Tree::Group(Delimiter::Brace, held)] + after).len() > 0,
    ensures
        ({
            let definition = before + seq![Tree::Group(Delimiter::Brace, held)] + after;
            let name = declared_name(definition);
            inherited(attr, definition, all) == Ok::<Seq<Tree>, InheritError>(
                before + seq![
                    Tree::Group(Delimiter::Brace, held + role.fields(all) + all.function),
                ] + after + impl_tokens(name, name + role.suffix()->Some_0),
            )
        }),
{
    let roles = seq![role, Role::Function];
    let definition = before + seq![Tree::Group(Delimiter::Brace, held)] + after;
    lemma_pair(role, Role::Function, all, declared_name(definition));
    lemma_one_tag_one_implementation(roles, declared_name(definition), 0);
    law_fields_follow_role_order(attr, before, held, after, all);
    assert(held + (role.fields(all) + all.function) =~= held + role.fields(all) + all.function);
}

/// The fields and the count of tags of a list of two roles.
proof fn lemma_pair(first: Role, second: Role, all: Fields, name: Seq<char>)
    ensures
        fields_of(seq![first, second], all) == first.fields(all) + second.fields(all),
        tag_count(seq![first, second]) == (if first.has_tag() {
            1nat
        } else {
            0nat
        }) + (if second.has_tag() {
            1nat
        } else {
            0nat
        }),
        implementations(seq![first, second], name) == first.implementation(name)
            + second.implementation(name),
{
    let roles = seq![first, second];
    let front = roles.drop_last();
    assert(front =~= seq![first]);
    assert(front.drop_last() =~= Seq::<Role>::empty());
    assert(fields_of(Seq::<Role>::empty(), all) =~= Seq::<Tree>::empty());
    assert(fields_of(front, all) =~= first.fields(all));
    assert(tag_count(Seq::<Role>::empty()) == 0);
    assert(tag_count(front) == if first.has_tag() {
        1nat
    } else {
        0nat
    });
    assert(roles.last() == second);
    assert(implementations(Seq::<Role>::empty(), name) =~= Seq::<Tree>::empty());
    assert(implementations(front, name) =~= first.implementation(name));
}

/// Two roles that derive a tag, for a definition with a declared name: the
/// entry point refuses the list. Gone through all the same, the two roles
/// give the definition with the fields of both and two implementations
/// behind it, each holding its two accessors and nothing more.
pub proof fn law_two_tags_two_implementations(
    attr: Seq<Tree>,
    first: Role,
    second: Role,
    tokens: Seq<Tree>,
    all: Fields,
)
    requires
        !names_unknown_role(attr),
        roles_in(attr) == seq![first, second],
        first.has_tag(),
        second.has_tag(),
        declared_name(tokens).len() > 0,
    ensures
        inherited(attr, tokens, all) == Err::<Seq<Tree>, InheritError>(
            InheritError::ConflictingRoles,
        ),
        ({
            let name = declared_name(tokens);
            generated(roles_in(attr), tokens, all) == Ok::<Seq<Tree>, InheritError>(
                inject(tokens, first.fields(all) + second.fields(all)) + impl_tokens(
                    name,
                    name + first.suffix()->Some_0,
                ) + impl_tokens(name, name + second.suffix()->Some_0),
            )
        }),
{
    let name = declared_name(tokens);
    lemma_pair(first, second, all, name);
    let done = inject(tokens, first.fields(all) + second.fields(all));
    assert(done + (first.implementation(name) + second.implementation(name)) =~= done
        + first.implementation(name) + second.implementation(name));
}

/// The name that a definition declares once an implementation stands behind
/// it.
proof fn lemma_name_behind_impl(tokens: Seq<Tree>, name: Seq<char>, kind: Seq<char>)
    ensures
        declared_name(tokens + impl_tokens(name, kind)) == if tokens.len() > 0 && tokens.last()
            == word("struct") {
            "impl"@
        } else {
            declared_name(tokens)
        },
{
    reveal_strlit("struct");
    reveal_strlit("impl");
    reveal_strlit("Node");
    reveal_strlit("for");
    let emitted = impl_tokens(name, kind);
    let t5 = tokens + emitted;
    let t4 = t5.drop_last();
    let t3 = t4.drop_last();
    let t2 = t3.drop_last();
    let t1 = t2.drop_last();
    assert(t4 =~= tokens + emitted.take(4));
    assert(t3 =~= tokens + emitted.take(3));
    assert(t2 =~= tokens + emitted.take(2));
    assert(t1 =~= tokens + emitted.take(1));
    assert(t1.drop_last() =~= tokens);
    assert(!ends_in_name(t5));
    assert(t4[t4.len() - 2] == word("for"));
    assert("for"@.len() != "struct"@.len());
    assert(!ends_in_name(t4));
    assert(t3[t3.len() - 2] == word("Node"));
    assert("Node"@.len() != "struct"@.len());
    assert(!ends_in_name(t3));
    assert(t2[t2.len() - 2] == word("impl"));
    assert("impl"@.len() != "struct"@.len());
    assert(!ends_in_name(t2));
    assert(declared_name(t5) == declared_name(t4));
    assert(declared_name(t4) == declared_name(t3));
    assert(declared_name(t3) == declared_name(t2));
    assert(declared_name(t2) == declared_name(t1));
    assert(t1.last() == word("impl"));
    if tokens.len() > 0 {
        assert(t1[t1.len() - 2] == tokens.last());
    }
}

/// Generation is not idempotent. A role list of one role that derives a
/// tag, applied to what it gave before for a definition with a declared
/// name, takes all of that for the definition: it injects the role's fields
/// a second time, into the definition's block and into the block of the
/// implementation that is there, and puts a second implementation behind the
/// first.
pub proof fn law_not_idempotent(attr: Seq<Tree>, role: Role, tokens: Seq<Tree>, all: Fields)
    requires
        !names_unknown_role(attr),
        roles_in(attr) == seq![role],
        role.has_tag(),
        declared_name(tokens).len() > 0,
    ensures
        inherited(attr, tokens, all) is Ok,
        inherited(attr, inherited(attr, tokens, all)->Ok_0, all) is Ok,
        ({
            let fields = role.fields(all);
            let suffix = role.suffix()->Some_0;
            let name = declared_name(tokens);
            let once = inherited(attr, tokens, all)->Ok_0;
            let twice = inherited(attr, once, all)->Ok_0;
            let again = declared_name(once);
            &&& twice != once
            &&& twice.len() == tokens.len() + 10
            &&& twice == inject(tokens, fields + fields) + inject(
                impl_tokens(name, name + suffix),
                fields,
            ) + impl_tokens(again, again + suffix)
        }),
{
    reveal_strlit("impl");
    let roles = seq![role];
    assert(tag_count(roles) == 1) by {
        assert(roles.drop_last() =~= Seq::<Role>::empty());
        assert(tag_count(Seq::<Role>::empty()) == 0);
        assert(roles.last() == role);
    }
    assert forall|t: Seq<Tree>| #[trigger] generated(roles, t, all) == role.applied_to(
        t,
        role.fields(all),
    ) by {
        law_single_role_is_its_rule(role, t, all);
    }
    let fields = role.fields(all);
    let suffix = role.suffix()->Some_0;
    let name = declared_name(tokens);
    let emitted = impl_tokens(name, name + suffix);
    let once = inject(tokens, fields) + emitted;
    lemma_inject_keeps_name(tokens, fields);
    lemma_name_behind_impl(inject(tokens, fields), name, name + suffix);
    assert(declared_name(once).len() > 0);
    lemma_inject_concat(inject(tokens, fields), emitted, fields);
    lemma_inject_twice(tokens, fields, fields);
}

} // verus!
