//! Expressions.

use crate::node::{Node, NodeKind, SourceLocation};
use crate::statement::FunctionBody;
use crate::{Class, Function, Pattern};
use vstd::prelude::*;

verus! {

#[derive(Debug)]
pub enum Expression {
    This(This),
    Array(Array),
    Object(Object),
    Function(Box<Function>),
    Unary(Box<Unary>),
    Update(Box<Update>),
    Binary(Box<Binary>),
    Assignment(Box<Assignment>),
    Logical(Box<Logical>),
    Member(Box<Member>),
    Conditional(Box<Conditional>),
    Call(Box<Call>),
    New(Box<New>),
    Sequence(Sequence),
    Spread(Box<Expression>),
    ArrowFunction(Box<ArrowFunction>),
    Yield(Box<Expression>),
    Await(Box<Expression>),
    Identifier(Box<Identifier>),
    Literal(Box<Literal>),
    TaggedTemplate(Box<TaggedTemplate>),
    Class(Box<Class>),
    Meta(MetaProperty),
}

impl Node for Expression {
    open spec fn loc_spec(&self) -> SourceLocation
        decreases self,
    {
        match self {
            Expression::This(inner) => inner.loc_spec(),
            Expression::Array(inner) => inner.loc_spec(),
            Expression::Object(inner) => inner.loc_spec(),
            Expression::Function(inner) => inner.loc,
            Expression::Unary(inner) => inner.loc_spec(),
            Expression::Update(inner) => inner.loc_spec(),
            Expression::Binary(inner) => inner.loc_spec(),
            Expression::Assignment(inner) => inner.loc_spec(),
            Expression::Logical(inner) => inner.loc_spec(),
            Expression::Member(inner) => inner.loc_spec(),
            Expression::Conditional(inner) => inner.loc_spec(),
            Expression::Call(inner) => inner.loc_spec(),
            Expression::New(inner) => inner.loc_spec(),
            Expression::Sequence(inner) => inner.loc_spec(),
            Expression::Spread(inner) => inner.loc_spec(),
            Expression::Yield(inner) => inner.loc_spec(),
            Expression::Await(inner) => inner.loc_spec(),
            Expression::Identifier(inner) => inner.loc_spec(),
            Expression::Literal(inner) => inner.loc_spec(),
            Expression::ArrowFunction(inner) => inner.loc_spec(),
            Expression::TaggedTemplate(inner) => inner.loc_spec(),
            Expression::Class(inner) => inner.loc,
            Expression::Meta(inner) => inner.loc_spec(),
        }
    }

    open spec fn kind_spec(&self) -> NodeKind
        decreases self,
    {
        match self {
            Expression::This(inner) => inner.kind_spec(),
            Expression::Array(inner) => inner.kind_spec(),
            Expression::Object(inner) => inner.kind_spec(),
            Expression::Function(_) => NodeKind::FunctionExpression,
            Expression::Unary(inner) => inner.kind_spec(),
            Expression::Update(inner) => inner.kind_spec(),
            Expression::Binary(inner) => inner.kind_spec(),
            Expression::Assignment(inner) => inner.kind_spec(),
            Expression::Logical(inner) => inner.kind_spec(),
            Expression::Member(inner) => inner.kind_spec(),
            Expression::Conditional(inner) => inner.kind_spec(),
            Expression::Call(inner) => inner.kind_spec(),
            Expression::New(inner) => inner.kind_spec(),
            Expression::Sequence(inner) => inner.kind_spec(),
            Expression::Spread(inner) => inner.kind_spec(),
            Expression::Yield(inner) => inner.kind_spec(),
            Expression::Await(inner) => inner.kind_spec(),
            Expression::Identifier(inner) => inner.kind_spec(),
            Expression::Literal(inner) => inner.kind_spec(),
            Expression::ArrowFunction(inner) => inner.kind_spec(),
            Expression::TaggedTemplate(inner) => inner.kind_spec(),
            Expression::Class(_) => NodeKind::ClassExpression,
            Expression::Meta(inner) => inner.kind_spec(),
        }
    }

    fn loc(&self) -> (r: SourceLocation)
        decreases self,
    {
        match self {
            Expression::This(inner) => inner.loc(),
            Expression::Array(inner) => inner.loc(),
            Expression::Object(inner) => inner.loc(),
            Expression::Function(inner) => inner.loc.clone(),
            Expression::Unary(inner) => inner.loc(),
            Expression::Update(inner) => inner.loc(),
            Expression::Binary(inner) => inner.loc(),
            Expression::Assignment(inner) => inner.loc(),
            Expression::Logical(inner) => inner.loc(),
            Expression::Member(inner) => inner.loc(),
            Expression::Conditional(inner) => inner.loc(),
            Expression::Call(inner) => inner.loc(),
            Expression::New(inner) => inner.loc(),
            Expression::Sequence(inner) => inner.loc(),
            Expression::Spread(inner) => inner.loc(),
            Expression::Yield(inner) => inner.loc(),
            Expression::Await(inner) => inner.loc(),
            Expression::Identifier(inner) => inner.loc(),
            Expression::Literal(inner) => inner.loc(),
            Expression::ArrowFunction(inner) => inner.loc(),
            Expression::TaggedTemplate(inner) => inner.loc(),
            Expression::Class(inner) => inner.loc.clone(),
            Expression::Meta(inner) => inner.loc(),
        }
    }

    fn kind(&self) -> (r: NodeKind)
        decreases self,
    {
        match self {
            Expression::This(inner) => inner.kind(),
            Expression::Array(inner) => inner.kind(),
            Expression::Object(inner) => inner.kind(),
            Expression::Function(_) => NodeKind::FunctionExpression,
            Expression::Unary(inner) => inner.kind(),
            Expression::Update(inner) => inner.kind(),
            Expression::Binary(inner) => inner.kind(),
            Expression::Assignment(inner) => inner.kind(),
            Expression::Logical(inner) => inner.kind(),
            Expression::Member(inner) => inner.kind(),
            Expression::Conditional(inner) => inner.kind(),
            Expression::Call(inner) => inner.kind(),
            Expression::New(inner) => inner.kind(),
            Expression::Sequence(inner) => inner.kind(),
            Expression::Spread(inner) => inner.kind(),
            Expression::Yield(inner) => inner.kind(),
            Expression::Await(inner) => inner.kind(),
            Expression::Identifier(inner) => inner.kind(),
            Expression::Literal(inner) => inner.kind(),
            Expression::ArrowFunction(inner) => inner.kind(),
            Expression::TaggedTemplate(inner) => inner.kind(),
            Expression::Class(_) => NodeKind::ClassExpression,
            Expression::Meta(inner) => inner.kind(),
        }
    }
}

/// Role: `Node`.
#[derive(Debug)]
pub struct Identifier {
    pub name: String,
    pub loc: SourceLocation,
}

impl Node for Identifier {
    open spec fn loc_spec(&self) -> SourceLocation {
        self.loc
    }

    open spec fn kind_spec(&self) -> NodeKind {
        NodeKind::Identifier
    }

    fn loc(&self) -> (r: SourceLocation) {
        self.loc.clone()
    }

    fn kind(&self) -> (r: NodeKind) {
        NodeKind::Identifier
    }
}

/// Role: `Node`.
#[derive(Debug)]
pub struct Literal {
    pub value: LiteralValue,
    pub loc: SourceLocation,
}

impl Node for Literal {
    open spec fn loc_spec(&self) -> SourceLocation {
        self.loc
    }

    open spec fn kind_spec(&self) -> NodeKind {
        NodeKind::Literal
    }

    fn loc(&self) -> (r: SourceLocation) {
        self.loc.clone()
    }

    fn kind(&self) -> (r: NodeKind) {
        NodeKind::Literal
    }
}

#[derive(Debug)]
pub enum LiteralValue {
    String(String),
    Boolean(bool),
    Null,
    Number(String),
    RegExp(RegExpLiteral),
    TemplateLiteral(TemplateLiteral),
}

#[derive(Debug)]
pub struct RegExpLiteral {
    pub regex: RegEx,
    pub loc: SourceLocation,
}

impl Node for RegExpLiteral {
    open spec fn loc_spec(&self) -> SourceLocation {
        self.loc
    }

    open spec fn kind_spec(&self) -> NodeKind {
        NodeKind::Literal
    }

    fn loc(&self) -> (r: SourceLocation) {
        self.loc.clone()
    }

    fn kind(&self) -> (r: NodeKind) {
        NodeKind::Literal
    }
}

#[derive(Debug)]
pub struct RegEx {
    pub pattern: String,
    pub flags: String,
    pub loc: SourceLocation,
}

impl Node for RegEx {
    open spec fn loc_spec(&self) -> SourceLocation {
        self.loc
    }

    open spec fn kind_spec(&self) -> NodeKind {
        NodeKind::Literal
    }

    fn loc(&self) -> (r: SourceLocation) {
        self.loc.clone()
    }

    fn kind(&self) -> (r: NodeKind) {
        NodeKind::Literal
    }
}

/// Role: `Expression`.
#[derive(Debug)]
pub struct This {
    pub loc: SourceLocation,
}

impl Node for This {
    open spec fn loc_spec(&self) -> SourceLocation {
        self.loc
    }

    open spec fn kind_spec(&self) -> NodeKind {
        NodeKind::ThisExpression
    }

    fn loc(&self) -> (r: SourceLocation) {
        self.loc.clone()
    }

    fn kind(&self) -> (r: NodeKind) {
        NodeKind::ThisExpression
    }
}

/// Role: `Node`.
#[derive(Debug)]
pub struct Super {
    pub loc: SourceLocation,
}

impl Node for Super {
    open spec fn loc_spec(&self) -> SourceLocation {
        self.loc
    }

    open spec fn kind_spec(&self) -> NodeKind {
        NodeKind::Super
    }

    fn loc(&self) -> (r: SourceLocation) {
        self.loc.clone()
    }

    fn kind(&self) -> (r: NodeKind) {
        NodeKind::Super
    }
}

/// Role: `Expression`.
#[derive(Debug)]
pub struct Array {
    pub elements: Vec<Option<Spreadable>>,
    pub loc: SourceLocation,
}

impl Node for Array {
    open spec fn loc_spec(&self) -> SourceLocation {
        self.loc
    }

    open spec fn kind_spec(&self) -> NodeKind {
        NodeKind::ArrayExpression
    }

    fn loc(&self) -> (r: SourceLocation) {
        self.loc.clone()
    }

    fn kind(&self) -> (r: NodeKind) {
        NodeKind::ArrayExpression
    }
}

#[derive(Debug)]
pub enum Spreadable {
    Expr(Expression),
    Spread(SpreadElement),
}

/// Role: `Expression`.
#[derive(Debug)]
pub struct Object {
    pub properties: Vec<Property>,
    pub loc: SourceLocation,
}

impl Node for Object {
    open spec fn loc_spec(&self) -> SourceLocation {
        self.loc
    }

    open spec fn kind_spec(&self) -> NodeKind {
        NodeKind::ObjectExpression
    }

    fn loc(&self) -> (r: SourceLocation) {
        self.loc.clone()
    }

    fn kind(&self) -> (r: NodeKind) {
        NodeKind::ObjectExpression
    }
}

/// Role: `Node`.
#[derive(Debug)]
pub struct Property {
    pub key: Expression,
    pub value: Expression,
    pub kind: PropertyKind,
    pub method: bool,
    pub shorthand: bool,
    pub computed: bool,
    pub loc: SourceLocation,
}

impl Node for Property {
    open spec fn loc_spec(&self) -> SourceLocation {
        self.loc
    }

    open spec fn kind_spec(&self) -> NodeKind {
        NodeKind::Property
    }

    fn loc(&self) -> (r: SourceLocation) {
        self.loc.clone()
    }

    fn kind(&self) -> (r: NodeKind) {
        NodeKind::Property
    }
}

#[derive(Debug)]
pub enum PropertyKind {
    Init,
    Get,
    Setter,
}

/// Role: `Expression`.
#[derive(Debug)]
pub struct Unary {
    pub operator: UnaryOperator,
    pub prefix: bool,
    pub argument: Expression,
    pub loc: SourceLocation,
}

impl Node for Unary {
    open spec fn loc_spec(&self) -> SourceLocation {
        self.loc
    }

    open spec fn kind_spec(&self) -> NodeKind {
        NodeKind::UnaryExpression
    }

    fn loc(&self) -> (r: SourceLocation) {
        self.loc.clone()
    }

    fn kind(&self) -> (r: NodeKind) {
        NodeKind::UnaryExpression
    }
}

#[derive(Debug)]
pub enum UnaryOperator {
    Minus,
    Plus,
    Not,
    Tilde,
    TypeOf,
    Void,
    Delete,
}

/// Role: `Expression`.
#[derive(Debug)]
pub struct Update {
    pub operator: UpdateOperator,
    pub argument: Expression,
    pub prefix: bool,
    pub loc: SourceLocation,
}

impl Node for Update {
    open spec fn loc_spec(&self) -> SourceLocation {
        self.loc
    }

    open spec fn kind_spec(&self) -> NodeKind {
        NodeKind::UpdateExpression
    }

    fn loc(&self) -> (r: SourceLocation) {
        self.loc.clone()
    }

    fn kind(&self) -> (r: NodeKind) {
        NodeKind::UpdateExpression
    }
}

#[derive(Debug)]
pub enum UpdateOperator {
    Decrement,
    Increment,
}

/// Role: `Expression`.
#[derive(Debug)]
pub struct Binary {
    pub operator: BinaryOperator,
    pub left: Expression,
    pub right: Expression,
    pub loc: SourceLocation,
}

impl Node for Binary {
    open spec fn loc_spec(&self) -> SourceLocation {
        self.loc
    }

    open spec fn kind_spec(&self) -> NodeKind {
        NodeKind::BinaryExpression
    }

    fn loc(&self) -> (r: SourceLocation) {
        self.loc.clone()
    }

    fn kind(&self) -> (r: NodeKind) {
        NodeKind::BinaryExpression
    }
}

#[derive(Debug)]
pub enum BinaryOperator {
    And,
    GreaterThan,
    GreaterThanEqual,
    Div,
    Equal,
    In,
    InstanceOf,
    LeftShift,
    LessThan,
    LessThanEqual,
    Minus,
    Mod,
    NotEqual,
    Or,
    Plus,
    RightShift,
    StrictEqual,
    StrictNotEqual,
    Times,
    UnsignedRightShift,
    XOr,
}

/// Role: `Expression`.
#[derive(Debug)]
pub struct Assignment {
    pub operator: AssignmentOperator,
    pub left: PatOrExpr,
    pub right: Expression,
    pub loc: SourceLocation,
}

impl Node for Assignment {
    open spec fn loc_spec(&self) -> SourceLocation {
        self.loc
    }

    open spec fn kind_spec(&self) -> NodeKind {
        NodeKind::AssignmentExpression
    }

    fn loc(&self) -> (r: SourceLocation) {
        self.loc.clone()
    }

    fn kind(&self) -> (r: NodeKind) {
        NodeKind::AssignmentExpression
    }
}

#[derive(Debug)]
pub enum PatOrExpr {
    Pat(Pattern),
    Expr(Expression),
}

#[derive(Debug)]
pub enum AssignmentOperator {
    AddAssign,
    AndAssign,
    Assign,
    DivAssign,
    LHSAssign,
    MulAssign,
    ModAssign,
    OrAssign,
    RHSAssign,
    SubAssign,
    URHSAssign,
    XOrAssign,
}

/// Role: `Expression`.
#[derive(Debug)]
pub struct Logical {
    pub operator: LogicalOperator,
    pub left: Expression,
    pub right: Expression,
    pub loc: SourceLocation,
}

impl Node for Logical {
    open spec fn loc_spec(&self) -> SourceLocation {
        self.loc
    }

    open spec fn kind_spec(&self) -> NodeKind {
        NodeKind::LogicalExpression
    }

    fn loc(&self) -> (r: SourceLocation) {
        self.loc.clone()
    }

    fn kind(&self) -> (r: NodeKind) {
        NodeKind::LogicalExpression
    }
}

#[derive(Debug)]
pub enum LogicalOperator {
    Or,
    And,
}

/// Role: `Expression`.
#[derive(Debug)]
pub struct Member {
    pub object: Parent,
    pub property: Expression,
    pub computed: bool,
    pub loc: SourceLocation,
}

impl Node for Member {
    open spec fn loc_spec(&self) -> SourceLocation {
        self.loc
    }

    open spec fn kind_spec(&self) -> NodeKind {
        NodeKind::MemberExpression
    }

    fn loc(&self) -> (r: SourceLocation) {
        self.loc.clone()
    }

    fn kind(&self) -> (r: NodeKind) {
        NodeKind::MemberExpression
    }
}

/// Role: `Expression`.
#[derive(Debug)]
pub struct Conditional {
    pub test: Expression,
    pub alternate: Expression,
    pub consequent: Expression,
    pub loc: SourceLocation,
}

impl Node for Conditional {
    open spec fn loc_spec(&self) -> SourceLocation {
        self.loc
    }

    open spec fn kind_spec(&self) -> NodeKind {
        NodeKind::ConditionalExpression
    }

    fn loc(&self) -> (r: SourceLocation) {
        self.loc.clone()
    }

    fn kind(&self) -> (r: NodeKind) {
        NodeKind::ConditionalExpression
    }
}

/// Role: `Expression`.
#[derive(Debug)]
pub struct Call {
    pub callee: Parent,
    pub arguments: Vec<Spreadable>,
    pub loc: SourceLocation,
}

impl Node for Call {
    open spec fn loc_spec(&self) -> SourceLocation {
        self.loc
    }

    open spec fn kind_spec(&self) -> NodeKind {
        NodeKind::CallExpression
    }

    fn loc(&self) -> (r: SourceLocation) {
        self.loc.clone()
    }

    fn kind(&self) -> (r: NodeKind) {
        NodeKind::CallExpression
    }
}

#[derive(Debug)]
pub enum Parent {
    Expr(Expression),
    Super(Super),
}

/// Role: `Expression`.
#[derive(Debug)]
pub struct New {
    pub callee: Expression,
    pub arguments: Vec<Spreadable>,
    pub loc: SourceLocation,
}

impl Node for New {
    open spec fn loc_spec(&self) -> SourceLocation {
        self.loc
    }

    open spec fn kind_spec(&self) -> NodeKind {
        NodeKind::NewExpression
    }

    fn loc(&self) -> (r: SourceLocation) {
        self.loc.clone()
    }

    fn kind(&self) -> (r: NodeKind) {
        NodeKind::NewExpression
    }
}

/// Role: `Expression`.
#[derive(Debug)]
pub struct Sequence {
    pub expressions: Vec<Expression>,
    pub loc: SourceLocation,
}

impl Node for Sequence {
    open spec fn loc_spec(&self) -> SourceLocation {
        self.loc
    }

    open spec fn kind_spec(&self) -> NodeKind {
        NodeKind::SequenceExpression
    }

    fn loc(&self) -> (r: SourceLocation) {
        self.loc.clone()
    }

    fn kind(&self) -> (r: NodeKind) {
        NodeKind::SequenceExpression
    }
}

/// Role: `Node`.
#[derive(Debug)]
pub struct SpreadElement {
    pub argument: Expression,
    pub loc: SourceLocation,
}

impl Node for SpreadElement {
    open spec fn loc_spec(&self) -> SourceLocation {
        self.loc
    }

    open spec fn kind_spec(&self) -> NodeKind {
        NodeKind::SpreadElement
    }

    fn loc(&self) -> (r: SourceLocation) {
        self.loc.clone()
    }

    fn kind(&self) -> (r: NodeKind) {
        NodeKind::SpreadElement
    }
}

/// Roles: `Function`, `Expression`.
#[derive(Debug)]
pub struct ArrowFunction {
    pub body: ArrowFunctionBody,
    pub id: Option<Identifier>,
    pub params: Vec<Pattern>,
    pub generator: bool,
    pub loc: SourceLocation,
}

impl Node for ArrowFunction {
    open spec fn loc_spec(&self) -> SourceLocation {
        self.loc
    }

    open spec fn kind_spec(&self) -> NodeKind {
        NodeKind::ArrowFunctionExpression
    }

    fn loc(&self) -> (r: SourceLocation) {
        self.loc.clone()
    }

    fn kind(&self) -> (r: NodeKind) {
        NodeKind::ArrowFunctionExpression
    }
}

#[derive(Debug)]
pub enum ArrowFunctionBody {
    Expr(Expression),
    Block(FunctionBody),
}

/// Role: `Expression`.
#[derive(Debug)]
pub struct Yield {
    pub argument: Option<Expression>,
    pub delegate: bool,
    pub loc: SourceLocation,
}

impl Node for Yield {
    open spec fn loc_spec(&self) -> SourceLocation {
        self.loc
    }

    open spec fn kind_spec(&self) -> NodeKind {
        NodeKind::YieldExpression
    }

    fn loc(&self) -> (r: SourceLocation) {
        self.loc.clone()
    }

    fn kind(&self) -> (r: NodeKind) {
        NodeKind::YieldExpression
    }
}

/// Role: `Node`.
#[derive(Debug)]
pub struct TemplateLiteral {
    pub quasis: Vec<TemplateElement>,
    pub expressions: Vec<Expression>,
    pub loc: SourceLocation,
}

impl Node for TemplateLiteral {
    open spec fn loc_spec(&self) -> SourceLocation {
        self.loc
    }

    open spec fn kind_spec(&self) -> NodeKind {
        NodeKind::TemplateLiteral
    }

    fn loc(&self) -> (r: SourceLocation) {
        self.loc.clone()
    }

    fn kind(&self) -> (r: NodeKind) {
        NodeKind::TemplateLiteral
    }
}

/// Role: `Expression`.
#[derive(Debug)]
pub struct TaggedTemplate {
    pub tag: Expression,
    pub quasi: TemplateLiteral,
    pub loc: SourceLocation,
}

impl Node for TaggedTemplate {
    open spec fn loc_spec(&self) -> SourceLocation {
        self.loc
    }

    open spec fn kind_spec(&self) -> NodeKind {
        NodeKind::TaggedTemplateExpression
    }

    fn loc(&self) -> (r: SourceLocation) {
        self.loc.clone()
    }

    fn kind(&self) -> (r: NodeKind) {
        NodeKind::TaggedTemplateExpression
    }
}

/// Role: `Node`.
#[derive(Debug)]
pub struct TemplateElement {
    pub tail: bool,
    pub value: TemplateValue,
    pub loc: SourceLocation,
}

impl Node for TemplateElement {
    open spec fn loc_spec(&self) -> SourceLocation {
        self.loc
    }

    open spec fn kind_spec(&self) -> NodeKind {
        NodeKind::TemplateElement
    }

    fn loc(&self) -> (r: SourceLocation) {
        self.loc.clone()
    }

    fn kind(&self) -> (r: NodeKind) {
        NodeKind::TemplateElement
    }
}

#[derive(Debug)]
pub struct TemplateValue {
    pub cooked: String,
    pub raw: String,
}

/// Role: `Node`.
#[derive(Debug)]
pub struct MetaProperty {
    pub meta: Identifier,
    pub property: Identifier,
    pub loc: SourceLocation,
}

impl Node for MetaProperty {
    open spec fn loc_spec(&self) -> SourceLocation {
        self.loc
    }

    open spec fn kind_spec(&self) -> NodeKind {
        NodeKind::MetaProperty
    }

    fn loc(&self) -> (r: SourceLocation) {
        self.loc.clone()
    }

    fn kind(&self) -> (r: NodeKind) {
        NodeKind::MetaProperty
    }
}

} // verus!
