//! The failures of generation.

use vstd::prelude::*;

verus! {

/// Why no augmented definition was produced.
#[derive(Clone, Copy, Debug, PartialEq, Eq, Structural)]
pub enum InheritError {
    /// A name in the role list is not the name of a role. Reading the roles
    /// off the list reports it; generation takes no such list.
    UnknownRole,
    /// The role list asks for more than one role that derives a tag, so two
    /// implementations of the node capability would compete.
    ConflictingRoles,
    /// A role that derives a tag was applied to a definition in which no
    /// name follows the keyword `struct`.
    MissingName,
    /// The lexer refused the text of the field declarations to inject, or
    /// read it as other tokens than the fields it declares.
    FieldSyntax,
}

} // verus!
