//! What all nodes have in common: a position and a tag.

use vstd::prelude::*;

verus! {

/// A line and column in the source text.
#[derive(Clone, Copy, Debug, PartialEq, Eq, Structural)]
pub struct Position {
    pub line: usize,
    pub column: usize,
}

/// The span of source text that a node was read from.
///
/// It is a small value that is handed out by copy.
#[derive(Clone, Copy, Debug, PartialEq, Eq, Structural)]
pub struct SourceLocation {
    pub start: Position,
    pub end: Position,
}

/// The closed set of tags by which a node says what it is.
#[derive(Clone, Copy, Debug, PartialEq, Eq, Structural)]
pub enum NodeKind {
    ArrayExpression,
    ArrayPattern,
    ArrowFunctionExpression,
    AssignmentExpression,
    AssignmentPattern,
    BinaryExpression,
    BlockStatement,
    BreakStatement,
    CallExpression,
    CatchClause,
    ClassBody,
    ClassDeclaration,
    ClassExpression,
    ConditionalExpression,
    ContinueStatement,
    DebuggerStatement,
    DoWhileStatement,
    EmptyStatement,
    ExportAllDeclaration,
    ExportDefaultDeclaration,
    ExportNamedDeclaration,
    ExportSpecifier,
    ExpressionStatement,
    ForInStatement,
    ForStatement,
    FunctionDeclaration,
    FunctionExpression,
    Identifier,
    IfStatement,
    ImportDeclaration,
    ImportDefaultSpecifier,
    ImportNamespaceSpecifier,
    ImportSpecifier,
    LabeledStatement,
    Literal,
    LogicalExpression,
    MemberExpression,
    MetaProperty,
    MethodDefinition,
    NewExpression,
    ObjectExpression,
    ObjectPattern,
    Program,
    Property,
    RestElement,
    ReturnStatement,
    SequenceExpression,
    SpreadElement,
    Super,
    SwitchCase,
    SwitchStatement,
    TaggedTemplateExpression,
    TemplateElement,
    TemplateLiteral,
    ThisExpression,
    ThrowStatement,
    TryStatement,
    UnaryExpression,
    UpdateExpression,
    VariableDeclaration,
    VariableDeclarator,
    WhileStatement,
    WithStatement,
    YieldExpression,
}

/// What every node of the tree offers: where it was read from, and its tag.
///
/// The tag of a record type is fixed by the type: `kind_spec` of such a type
/// does not look at the value.
pub trait Node {
    /// The location that `loc` returns.
    spec fn loc_spec(&self) -> SourceLocation;

    /// The tag that `kind` returns.
    spec fn kind_spec(&self) -> NodeKind;

    /// The stored location, by value.
    fn loc(&self) -> (r: SourceLocation)
        ensures
            r == self.loc_spec(),
    ;

    /// The tag of this node.
    fn kind(&self) -> (r: NodeKind)
        ensures
            r == self.kind_spec(),
    ;
}

} // verus!
