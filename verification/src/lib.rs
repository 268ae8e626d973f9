//! A syntax tree for ECMAScript programs, and the rules by which its node
//! types come to carry a position and a tag.
//!
//! The record types of the tree are written out with the fields and the
//! implementation of [`node::Node`] that their roles give them; the module
//! [`inherit`] holds the rules themselves, as functions on token trees.

use vstd::prelude::*;

pub mod expression;
pub mod inherit;
pub mod module;
pub mod node;
pub mod statement;

use expression::{Expression, Identifier, Literal, PropertyKind};
use module::ModuleDeclaration;
use node::{Node, NodeKind, SourceLocation};
use statement::{FunctionBody, Statement};

verus! {

/// Role: `Node`.
#[derive(Debug)]
pub struct Program {
    pub source_type: SourceType,
    pub body: Vec<ProgramPart>,
    pub loc: SourceLocation,
}

impl Node for Program {
    open spec fn loc_spec(&self) -> SourceLocation {
        self.loc
    }

    open spec fn kind_spec(&self) -> NodeKind {
        NodeKind::Program
    }

    fn loc(&self) -> (r: SourceLocation) {
        self.loc.clone()
    }

    fn kind(&self) -> (r: NodeKind) {
        NodeKind::Program
    }
}

#[derive(Debug)]
pub enum SourceType {
    Script,
    Module,
}

#[derive(Debug)]
pub enum ProgramPart {
    Directive(Directive),
    Statement(Statement),
    ModuleDecl(ModuleDeclaration),
}

#[derive(Debug)]
pub struct Function {
    pub id: Option<Identifier>,
    pub params: Vec<Pattern>,
    pub body: FunctionBody,
    pub generator: bool,
    pub loc: SourceLocation,
}

#[derive(Debug)]
pub struct Directive {
    pub expression: Literal,
    pub directive: String,
    pub loc: SourceLocation,
}

impl Node for Directive {
    open spec fn loc_spec(&self) -> SourceLocation {
        self.loc
    }

    open spec fn kind_spec(&self) -> NodeKind {
        NodeKind::ExpressionStatement
    }

    fn loc(&self) -> (r: SourceLocation) {
        self.loc.clone()
    }

    fn kind(&self) -> (r: NodeKind) {
        NodeKind::ExpressionStatement
    }
}

#[derive(Debug)]
pub struct AssignmentProperty {
    pub key: Expression,
    pub value: Pattern,
    pub kind: PropertyKind,
    pub method: bool,
    pub shorthand: bool,
    pub computed: bool,
}

#[derive(Debug)]
pub enum Pattern {
    Ident(Identifier),
    Object(Object),
    Array(Array),
    RestElement(Box<RestElement>),
    Assignment(Box<Assignment>),
}

/// Role: `Pattern`.
#[derive(Debug)]
pub struct Object {
    pub properties: Vec<AssignmentProperty>,
    pub loc: SourceLocation,
}

impl Node for Object {
    open spec fn loc_spec(&self) -> SourceLocation {
        self.loc
    }

    open spec fn kind_spec(&self) -> NodeKind {
        NodeKind::ObjectPattern
    }

    fn loc(&self) -> (r: SourceLocation) {
        self.loc.clone()
    }

    fn kind(&self) -> (r: NodeKind) {
        NodeKind::ObjectPattern
    }
}

/// Role: `Pattern`.
#[derive(Debug)]
pub struct Array {
    pub elements: Vec<Option<Pattern>>,
    pub loc: SourceLocation,
}

impl Node for Array {
    open spec fn loc_spec(&self) -> SourceLocation {
        self.loc
    }

    open spec fn kind_spec(&self) -> NodeKind {
        NodeKind::ArrayPattern
    }

    fn loc(&self) -> (r: SourceLocation) {
        self.loc.clone()
    }

    fn kind(&self) -> (r: NodeKind) {
        NodeKind::ArrayPattern
    }
}

/// Role: `Node`.
#[derive(Debug)]
pub struct RestElement {
    pub argument: Pattern,
    pub loc: SourceLocation,
}

impl Node for RestElement {
    open spec fn loc_spec(&self) -> SourceLocation {
        self.loc
    }

    open spec fn kind_spec(&self) -> NodeKind {
        NodeKind::RestElement
    }

    fn loc(&self) -> (r: SourceLocation) {
        self.loc.clone()
    }

    fn kind(&self) -> (r: NodeKind) {
        NodeKind::RestElement
    }
}

/// Role: `Pattern`.
#[derive(Debug)]
pub struct Assignment {
    pub left: Pattern,
    pub right: Expression,
    pub loc: SourceLocation,
}

impl Node for Assignment {
    open spec fn loc_spec(&self) -> SourceLocation {
        self.loc
    }

    open spec fn kind_spec(&self) -> NodeKind {
        NodeKind::AssignmentPattern
    }

    fn loc(&self) -> (r: SourceLocation) {
        self.loc.clone()
    }

    fn kind(&self) -> (r: NodeKind) {
        NodeKind::AssignmentPattern
    }
}

impl Node for Pattern {
    open spec fn loc_spec(&self) -> SourceLocation {
        match self {
            Pattern::Ident(i) => i.loc_spec(),
            Pattern::Object(o) => o.loc_spec(),
            Pattern::Array(a) => a.loc_spec(),
            Pattern::RestElement(r) => r.loc_spec(),
            Pattern::Assignment(a) => a.loc_spec(),
        }
    }

    open spec fn kind_spec(&self) -> NodeKind {
        match self {
            Pattern::Ident(i) => i.kind_spec(),
            Pattern::Object(o) => o.kind_spec(),
            Pattern::Array(a) => a.kind_spec(),
            Pattern::RestElement(r) => r.kind_spec(),
            Pattern::Assignment(a) => a.kind_spec(),
        }
    }

    fn loc(&self) -> (r: SourceLocation) {
        match self {
            Pattern::Ident(i) => i.loc(),
            Pattern::Object(o) => o.loc(),
            Pattern::Array(a) => a.loc(),
            Pattern::RestElement(r) => r.loc(),
            Pattern::Assignment(a) => a.loc(),
        }
    }

    fn kind(&self) -> (r: NodeKind) {
        match self {
            Pattern::Ident(i) => i.kind(),
            Pattern::Object(o) => o.kind(),
            Pattern::Array(a) => a.kind(),
            Pattern::RestElement(r) => r.kind(),
            Pattern::Assignment(a) => a.kind(),
        }
    }
}

#[derive(Debug)]
pub struct Class {
    pub id: Option<Identifier>,
    pub super_class: Option<Expression>,
    pub body: ClassBody,
    pub loc: SourceLocation,
}

/// Role: `Node`.
#[derive(Debug)]
pub struct ClassBody {
    pub body: Vec<MethodDefinition>,
    pub loc: SourceLocation,
}

impl Node for ClassBody {
    open spec fn loc_spec(&self) -> SourceLocation {
        self.loc
    }

    open spec fn kind_spec(&self) -> NodeKind {
        NodeKind::ClassBody
    }

    fn loc(&self) -> (r: SourceLocation) {
        self.loc.clone()
    }

    fn kind(&self) -> (r: NodeKind) {
        NodeKind::ClassBody
    }
}

/// Role: `Node`.
#[derive(Debug)]
pub struct MethodDefinition {
    pub key: Expression,
    pub value: Function,
    pub kind: MethodKind,
    pub computed: bool,
    pub _static: bool,
    pub loc: SourceLocation,
}

impl Node for MethodDefinition {
    open spec fn loc_spec(&self) -> SourceLocation {
        self.loc
    }

    open spec fn kind_spec(&self) -> NodeKind {
        NodeKind::MethodDefinition
    }

    fn loc(&self) -> (r: SourceLocation) {
        self.loc.clone()
    }

    fn kind(&self) -> (r: NodeKind) {
        NodeKind::MethodDefinition
    }
}

#[derive(Debug)]
pub enum MethodKind {
    Constructor,
    Method,
    Get,
    Setter,
}

} // verus!
