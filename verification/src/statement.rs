//! Statements and declarations.

use crate::expression::{Expression, Identifier};
use crate::node::{Node, NodeKind, SourceLocation};
use crate::{Class, Directive, Function, Pattern};
use vstd::prelude::*;

verus! {

#[derive(Debug)]
pub enum Statement {
    Expr(Expression),
    Block(Block),
    FuncBody(FunctionBody),
    Empty(Empty),
    Debugger(Debugger),
    With(Box<With>),
    Return(Return),
    Labeled(Box<Labeled>),
    Break(Break),
    Continue(Continue),
    If(Box<If>),
    Switch(Switch),
    Throw(Throw),
    Try(Try),
    While(Box<While>),
    DoWhile(Box<DoWhile>),
    For(Box<For>),
    ForIn(Box<ForIn>),
    Decl(Declaration),
}

impl Node for Statement {
    open spec fn loc_spec(&self) -> SourceLocation {
        match self {
            Statement::Expr(inner) => inner.loc_spec(),
            Statement::Block(inner) => inner.loc_spec(),
            Statement::FuncBody(inner) => inner.loc_spec(),
            Statement::Empty(inner) => inner.loc_spec(),
            Statement::Debugger(inner) => inner.loc_spec(),
            Statement::With(inner) => inner.loc_spec(),
            Statement::Return(inner) => inner.loc_spec(),
            Statement::Labeled(inner) => inner.loc_spec(),
            Statement::Break(inner) => inner.loc_spec(),
            Statement::Continue(inner) => inner.loc_spec(),
            Statement::If(inner) => inner.loc_spec(),
            Statement::Switch(inner) => inner.loc_spec(),
            Statement::Throw(inner) => inner.loc_spec(),
            Statement::Try(inner) => inner.loc_spec(),
            Statement::While(inner) => inner.loc_spec(),
            Statement::DoWhile(inner) => inner.loc_spec(),
            Statement::For(inner) => inner.loc_spec(),
            Statement::ForIn(inner) => inner.loc_spec(),
            Statement::Decl(inner) => inner.loc_spec(),
        }
    }

    open spec fn kind_spec(&self) -> NodeKind {
        match self {
            Statement::Expr(_) => NodeKind::ExpressionStatement,
            Statement::Block(inner) => inner.kind_spec(),
            Statement::FuncBody(inner) => inner.kind_spec(),
            Statement::Empty(inner) => inner.kind_spec(),
            Statement::Debugger(inner) => inner.kind_spec(),
            Statement::With(inner) => inner.kind_spec(),
            Statement::Return(inner) => inner.kind_spec(),
            Statement::Labeled(inner) => inner.kind_spec(),
            Statement::Break(inner) => inner.kind_spec(),
            Statement::Continue(inner) => inner.kind_spec(),
            Statement::If(inner) => inner.kind_spec(),
            Statement::Switch(inner) => inner.kind_spec(),
            Statement::Throw(inner) => inner.kind_spec(),
            Statement::Try(inner) => inner.kind_spec(),
            Statement::While(inner) => inner.kind_spec(),
            Statement::DoWhile(inner) => inner.kind_spec(),
            Statement::For(inner) => inner.kind_spec(),
            Statement::ForIn(inner) => inner.kind_spec(),
            Statement::Decl(inner) => inner.kind_spec(),
        }
    }

    fn loc(&self) -> (r: SourceLocation) {
        match self {
            Statement::Expr(inner) => inner.loc(),
            Statement::Block(inner) => inner.loc(),
            Statement::FuncBody(inner) => inner.loc(),
            Statement::Empty(inner) => inner.loc(),
            Statement::Debugger(inner) => inner.loc(),
            Statement::With(inner) => inner.loc(),
            Statement::Return(inner) => inner.loc(),
            Statement::Labeled(inner) => inner.loc(),
            Statement::Break(inner) => inner.loc(),
            Statement::Continue(inner) => inner.loc(),
            Statement::If(inner) => inner.loc(),
            Statement::Switch(inner) => inner.loc(),
            Statement::Throw(inner) => inner.loc(),
            Statement::Try(inner) => inner.loc(),
            Statement::While(inner) => inner.loc(),
            Statement::DoWhile(inner) => inner.loc(),
            Statement::For(inner) => inner.loc(),
            Statement::ForIn(inner) => inner.loc(),
            Statement::Decl(inner) => inner.loc(),
        }
    }

    fn kind(&self) -> (r: NodeKind) {
        match self {
            Statement::Expr(_) => NodeKind::ExpressionStatement,
            Statement::Block(inner) => inner.kind(),
            Statement::FuncBody(inner) => inner.kind(),
            Statement::Empty(inner) => inner.kind(),
            Statement::Debugger(inner) => inner.kind(),
            Statement::With(inner) => inner.kind(),
            Statement::Return(inner) => inner.kind(),
            Statement::Labeled(inner) => inner.kind(),
            Statement::Break(inner) => inner.kind(),
            Statement::Continue(inner) => inner.kind(),
            Statement::If(inner) => inner.kind(),
            Statement::Switch(inner) => inner.kind(),
            Statement::Throw(inner) => inner.kind(),
            Statement::Try(inner) => inner.kind(),
            Statement::While(inner) => inner.kind(),
            Statement::DoWhile(inner) => inner.kind(),
            Statement::For(inner) => inner.kind(),
            Statement::ForIn(inner) => inner.kind(),
            Statement::Decl(inner) => inner.kind(),
        }
    }
}

/// Role: `Statement`.
#[derive(Debug)]
pub struct Block {
    pub body: Vec<Statement>,
    pub loc: SourceLocation,
}

impl Node for Block {
    open spec fn loc_spec(&self) -> SourceLocation {
        self.loc
    }

    open spec fn kind_spec(&self) -> NodeKind {
        NodeKind::BlockStatement
    }

    fn loc(&self) -> (r: SourceLocation) {
        self.loc.clone()
    }

    fn kind(&self) -> (r: NodeKind) {
        NodeKind::BlockStatement
    }
}

#[derive(Debug)]
pub struct FunctionBody {
    pub body: Vec<FunctionBodyPart>,
    pub loc: SourceLocation,
}

impl Node for FunctionBody {
    open spec fn loc_spec(&self) -> SourceLocation {
        self.loc
    }

    open spec fn kind_spec(&self) -> NodeKind {
        NodeKind::BlockStatement
    }

    fn loc(&self) -> (r: SourceLocation) {
        self.loc.clone()
    }

    fn kind(&self) -> (r: NodeKind) {
        NodeKind::BlockStatement
    }
}

#[derive(Debug)]
pub enum FunctionBodyPart {
    Directive(Directive),
    Statement(Statement),
}

/// Role: `Statement`.
#[derive(Debug)]
pub struct Empty {
    pub loc: SourceLocation,
}

impl Node for Empty {
    open spec fn loc_spec(&self) -> SourceLocation {
        self.loc
    }

    open spec fn kind_spec(&self) -> NodeKind {
        NodeKind::EmptyStatement
    }

    fn loc(&self) -> (r: SourceLocation) {
        self.loc.clone()
    }

    fn kind(&self) -> (r: NodeKind) {
        NodeKind::EmptyStatement
    }
}

/// Role: `Statement`.
#[derive(Debug)]
pub struct Debugger {
    pub loc: SourceLocation,
}

impl Node for Debugger {
    open spec fn loc_spec(&self) -> SourceLocation {
        self.loc
    }

    open spec fn kind_spec(&self) -> NodeKind {
        NodeKind::DebuggerStatement
    }

    fn loc(&self) -> (r: SourceLocation) {
        self.loc.clone()
    }

    fn kind(&self) -> (r: NodeKind) {
        NodeKind::DebuggerStatement
    }
}

/// Role: `Statement`.
#[derive(Debug)]
pub struct With {
    pub object: Expression,
    pub body: Statement,
    pub loc: SourceLocation,
}

impl Node for With {
    open spec fn loc_spec(&self) -> SourceLocation {
        self.loc
    }

    open spec fn kind_spec(&self) -> NodeKind {
        NodeKind::WithStatement
    }

    fn loc(&self) -> (r: SourceLocation) {
        self.loc.clone()
    }

    fn kind(&self) -> (r: NodeKind) {
        NodeKind::WithStatement
    }
}

/// Role: `Statement`.
#[derive(Debug)]
pub struct Return {
    pub argument: Option<Expression>,
    pub loc: SourceLocation,
}

impl Node for Return {
    open spec fn loc_spec(&self) -> SourceLocation {
        self.loc
    }

    open spec fn kind_spec(&self) -> NodeKind {
        NodeKind::ReturnStatement
    }

    fn loc(&self) -> (r: SourceLocation) {
        self.loc.clone()
    }

    fn kind(&self) -> (r: NodeKind) {
        NodeKind::ReturnStatement
    }
}

/// Role: `Statement`.
#[derive(Debug)]
pub struct Labeled {
    pub label: Identifier,
    pub body: Statement,
    pub loc: SourceLocation,
}

impl Node for Labeled {
    open spec fn loc_spec(&self) -> SourceLocation {
        self.loc
    }

    open spec fn kind_spec(&self) -> NodeKind {
        NodeKind::LabeledStatement
    }

    fn loc(&self) -> (r: SourceLocation) {
        self.loc.clone()
    }

    fn kind(&self) -> (r: NodeKind) {
        NodeKind::LabeledStatement
    }
}

/// Role: `Statement`.
#[derive(Debug)]
pub struct Break {
    pub label: Option<Identifier>,
    pub loc: SourceLocation,
}

impl Node for Break {
    open spec fn loc_spec(&self) -> SourceLocation {
        self.loc
    }

    open spec fn kind_spec(&self) -> NodeKind {
        NodeKind::BreakStatement
    }

    fn loc(&self) -> (r: SourceLocation) {
        self.loc.clone()
    }

    fn kind(&self) -> (r: NodeKind) {
        NodeKind::BreakStatement
    }
}

/// Role: `Statement`.
#[derive(Debug)]
pub struct Continue {
    pub label: Option<Identifier>,
    pub loc: SourceLocation,
}

impl Node for Continue {
    open spec fn loc_spec(&self) -> SourceLocation {
        self.loc
    }

    open spec fn kind_spec(&self) -> NodeKind {
        NodeKind::ContinueStatement
    }

    fn loc(&self) -> (r: SourceLocation) {
        self.loc.clone()
    }

    fn kind(&self) -> (r: NodeKind) {
        NodeKind::ContinueStatement
    }
}

/// Role: `Statement`.
#[derive(Debug)]
pub struct If {
    pub test: Expression,
    pub consequent: Statement,
    pub alternate: Option<Statement>,
    pub loc: SourceLocation,
}

impl Node for If {
    open spec fn loc_spec(&self) -> SourceLocation {
        self.loc
    }

    open spec fn kind_spec(&self) -> NodeKind {
        NodeKind::IfStatement
    }

    fn loc(&self) -> (r: SourceLocation) {
        self.loc.clone()
    }

    fn kind(&self) -> (r: NodeKind) {
        NodeKind::IfStatement
    }
}

/// Role: `Statement`.
#[derive(Debug)]
pub struct Switch {
    pub discriminant: Expression,
    pub cases: Vec<SwitchCase>,
    pub loc: SourceLocation,
}

impl Node for Switch {
    open spec fn loc_spec(&self) -> SourceLocation {
        self.loc
    }

    open spec fn kind_spec(&self) -> NodeKind {
        NodeKind::SwitchStatement
    }

    fn loc(&self) -> (r: SourceLocation) {
        self.loc.clone()
    }

    fn kind(&self) -> (r: NodeKind) {
        NodeKind::SwitchStatement
    }
}

/// Role: `Node`.
#[derive(Debug)]
pub struct SwitchCase {
    pub test: Option<Expression>,
    pub consequent: Vec<Statement>,
    pub loc: SourceLocation,
}

impl Node for SwitchCase {
    open spec fn loc_spec(&self) -> SourceLocation {
        self.loc
    }

    open spec fn kind_spec(&self) -> NodeKind {
        NodeKind::SwitchCase
    }

    fn loc(&self) -> (r: SourceLocation) {
        self.loc.clone()
    }

    fn kind(&self) -> (r: NodeKind) {
        NodeKind::SwitchCase
    }
}

/// Role: `Statement`.
#[derive(Debug)]
pub struct Throw {
    pub argument: Expression,
    pub loc: SourceLocation,
}

impl Node for Throw {
    open spec fn loc_spec(&self) -> SourceLocation {
        self.loc
    }

    open spec fn kind_spec(&self) -> NodeKind {
        NodeKind::ThrowStatement
    }

    fn loc(&self) -> (r: SourceLocation) {
        self.loc.clone()
    }

    fn kind(&self) -> (r: NodeKind) {
        NodeKind::ThrowStatement
    }
}

/// Role: `Statement`.
#[derive(Debug)]
pub struct Try {
    pub block: Block,
    pub handler: Option<CatchClause>,
    pub finalizer: Option<Block>,
    pub loc: SourceLocation,
}

impl Node for Try {
    open spec fn loc_spec(&self) -> SourceLocation {
        self.loc
    }

    open spec fn kind_spec(&self) -> NodeKind {
        NodeKind::TryStatement
    }

    fn loc(&self) -> (r: SourceLocation) {
        self.loc.clone()
    }

    fn kind(&self) -> (r: NodeKind) {
        NodeKind::TryStatement
    }
}

/// Role: `Node`.
#[derive(Debug)]
pub struct CatchClause {
    pub param: Pattern,
    pub body: Block,
    pub loc: SourceLocation,
}

impl Node for CatchClause {
    open spec fn loc_spec(&self) -> SourceLocation {
        self.loc
    }

    open spec fn kind_spec(&self) -> NodeKind {
        NodeKind::CatchClause
    }

    fn loc(&self) -> (r: SourceLocation) {
        self.loc.clone()
    }

    fn kind(&self) -> (r: NodeKind) {
        NodeKind::CatchClause
    }
}

/// Role: `Statement`.
#[derive(Debug)]
pub struct While {
    pub test: Expression,
    pub body: Statement,
    pub loc: SourceLocation,
}

impl Node for While {
    open spec fn loc_spec(&self) -> SourceLocation {
        self.loc
    }

    open spec fn kind_spec(&self) -> NodeKind {
        NodeKind::WhileStatement
    }

    fn loc(&self) -> (r: SourceLocation) {
        self.loc.clone()
    }

    fn kind(&self) -> (r: NodeKind) {
        NodeKind::WhileStatement
    }
}

/// Role: `Statement`.
#[derive(Debug)]
pub struct DoWhile {
    pub body: Statement,
    pub test: Expression,
    pub loc: SourceLocation,
}

impl Node for DoWhile {
    open spec fn loc_spec(&self) -> SourceLocation {
        self.loc
    }

    open spec fn kind_spec(&self) -> NodeKind {
        NodeKind::DoWhileStatement
    }

    fn loc(&self) -> (r: SourceLocation) {
        self.loc.clone()
    }

    fn kind(&self) -> (r: NodeKind) {
        NodeKind::DoWhileStatement
    }
}

/// Role: `Statement`.
#[derive(Debug)]
pub struct For {
    pub init: ForInit,
    pub test: Option<Expression>,
    pub update: Option<Expression>,
    pub body: Statement,
    pub loc: SourceLocation,
}

impl Node for For {
    open spec fn loc_spec(&self) -> SourceLocation {
        self.loc
    }

    open spec fn kind_spec(&self) -> NodeKind {
        NodeKind::ForStatement
    }

    fn loc(&self) -> (r: SourceLocation) {
        self.loc.clone()
    }

    fn kind(&self) -> (r: NodeKind) {
        NodeKind::ForStatement
    }
}

#[derive(Debug)]
pub enum ForInit {
    Var(VariableDeclaration),
    Expr(Expression),
    Null,
}

/// Role: `Statement`.
#[derive(Debug)]
pub struct ForIn {
    pub left: ForLeft,
    pub right: Expression,
    pub body: Statement,
    pub loc: SourceLocation,
}

impl Node for ForIn {
    open spec fn loc_spec(&self) -> SourceLocation {
        self.loc
    }

    open spec fn kind_spec(&self) -> NodeKind {
        NodeKind::ForInStatement
    }

    fn loc(&self) -> (r: SourceLocation) {
        self.loc.clone()
    }

    fn kind(&self) -> (r: NodeKind) {
        NodeKind::ForInStatement
    }
}

#[derive(Debug)]
pub enum ForLeft {
    Var(VariableDeclaration),
    Pat(Pattern),
}

#[derive(Debug)]
pub enum Declaration {
    Function(Function),
    Variable(VariableDeclaration),
    Class(Class),
}

impl Node for Declaration {
    open spec fn loc_spec(&self) -> SourceLocation {
        match self {
            Declaration::Function(inner) => inner.loc,
            Declaration::Variable(inner) => inner.loc_spec(),
            Declaration::Class(inner) => inner.loc,
        }
    }

    open spec fn kind_spec(&self) -> NodeKind {
        match self {
            Declaration::Function(_) => NodeKind::FunctionDeclaration,
            Declaration::Class(_) => NodeKind::ClassDeclaration,
            Declaration::Variable(inner) => inner.kind_spec(),
        }
    }

    fn loc(&self) -> (r: SourceLocation) {
        match self {
            Declaration::Function(inner) => inner.loc.clone(),
            Declaration::Variable(inner) => inner.loc(),
            Declaration::Class(inner) => inner.loc.clone(),
        }
    }

    fn kind(&self) -> (r: NodeKind) {
        match self {
            Declaration::Function(_) => NodeKind::FunctionDeclaration,
            Declaration::Class(_) => NodeKind::ClassDeclaration,
            Declaration::Variable(inner) => inner.kind(),
        }
    }
}

/// Role: `Node`.
#[derive(Debug)]
pub struct VariableDeclaration {
    pub declarations: Vec<VariableDeclarator>,
    pub kind: VariableKind,
    pub loc: SourceLocation,
}

impl Node for VariableDeclaration {
    open spec fn loc_spec(&self) -> SourceLocation {
        self.loc
    }

    open spec fn kind_spec(&self) -> NodeKind {
        NodeKind::VariableDeclaration
    }

    fn loc(&self) -> (r: SourceLocation) {
        self.loc.clone()
    }

    fn kind(&self) -> (r: NodeKind) {
        NodeKind::VariableDeclaration
    }
}

#[derive(Debug)]
pub enum VariableKind {
    Var,
    Let,
    Const,
}

/// Role: `Node`.
#[derive(Debug)]
pub struct VariableDeclarator {
    pub id: Pattern,
    pub init: Option<Expression>,
    pub loc: SourceLocation,
}

impl Node for VariableDeclarator {
    open spec fn loc_spec(&self) -> SourceLocation {
        self.loc
    }

    open spec fn kind_spec(&self) -> NodeKind {
        NodeKind::VariableDeclarator
    }

    fn loc(&self) -> (r: SourceLocation) {
        self.loc.clone()
    }

    fn kind(&self) -> (r: NodeKind) {
        NodeKind::VariableDeclarator
    }
}

} // verus!
