use ast_inherit::expression::{
    Array, ArrowFunction, ArrowFunctionBody, Assignment, AssignmentOperator, Binary,
    BinaryOperator, Call, Conditional, Expression, Identifier, Literal, LiteralValue, Logical,
    LogicalOperator, Member, MetaProperty, New, Object, Parent, Property, PropertyKind, RegEx,
    RegExpLiteral, Sequence, SpreadElement, Super, TaggedTemplate, TemplateElement,
    TemplateLiteral, TemplateValue, This, Unary, UnaryOperator, Update, UpdateOperator, Yield,
};
use ast_inherit::inherit::role::Role;
use ast_inherit::module::{
    ExportAll, ExportDecl, ExportDeclaration, ExportDefault, ExportNamed, ExportSpecifier, Import,
    ImportDeclaration, ImportDefault, ImportNamespace, ImportSpecifier, ModuleDeclaration,
};
use ast_inherit::node::{Node, NodeKind, Position, SourceLocation};
use ast_inherit::statement::{
    Block, Break, CatchClause, Continue, Debugger, Declaration, DoWhile, Empty, For, ForIn,
    ForInit, ForLeft, FunctionBody, If, Labeled, Return, Statement, Switch, SwitchCase, Throw,
    Try, VariableDeclaration, VariableDeclarator, VariableKind, While, With,
};
use ast_inherit::{
    Class, ClassBody, Directive, Function, MethodDefinition, MethodKind, Pattern, Program,
    ProgramPart, RestElement, SourceType,
};

fn at(line: usize) -> SourceLocation {
    SourceLocation {
        start: Position { line, column: 0 },
        end: Position { line, column: line + 1 },
    }
}

fn ident(name: &str, line: usize) -> Identifier {
    Identifier { name: name.to_string(), loc: at(line) }
}

fn this(line: usize) -> Expression {
    Expression::This(This { loc: at(line) })
}

fn empty(line: usize) -> Statement {
    Statement::Empty(Empty { loc: at(line) })
}

fn number(text: &str, line: usize) -> Literal {
    Literal { value: LiteralValue::Number(text.to_string()), loc: at(line) }
}

fn function(line: usize) -> Function {
    Function {
        id: Some(ident("f", 1)),
        params: vec![Pattern::Ident(ident("x", 2))],
        body: FunctionBody { body: vec![], loc: at(3) },
        generator: false,
        loc: at(line),
    }
}

fn class(line: usize) -> Class {
    Class {
        id: None,
        super_class: None,
        body: ClassBody { body: vec![], loc: at(4) },
        loc: at(line),
    }
}

fn variables(line: usize) -> VariableDeclaration {
    VariableDeclaration {
        declarations: vec![VariableDeclarator {
            id: Pattern::Ident(ident("v", 1)),
            init: Some(this(2)),
            loc: at(3),
        }],
        kind: VariableKind::Let,
        loc: at(line),
    }
}

fn check<N: Node>(node: &N, kind: NodeKind, line: usize) {
    assert_eq!(node.kind(), kind);
    assert_eq!(node.loc(), at(line));
}

#[test]
fn location_is_handed_out_by_value() {
    let node = This { loc: at(7) };
    let first = node.loc();
    let second = node.loc();
    assert_eq!(first, second);
    assert_eq!(first, SourceLocation {
        start: Position { line: 7, column: 0 },
        end: Position { line: 7, column: 8 },
    });
    assert_eq!(node.loc, first);
}

#[test]
fn tag_is_the_same_for_every_value_of_a_type() {
    for line in 0..20 {
        assert_eq!(This { loc: at(line) }.kind(), NodeKind::ThisExpression);
        assert_eq!(ident("a", line).kind(), NodeKind::Identifier);
        assert_eq!(ident("b", line).kind(), NodeKind::Identifier);
        assert_eq!(Empty { loc: at(line) }.kind(), NodeKind::EmptyStatement);
    }
}

#[test]
fn expression_records() {
    check(&ident("a", 1), NodeKind::Identifier, 1);
    check(&number("1", 2), NodeKind::Literal, 2);
    check(&This { loc: at(3) }, NodeKind::ThisExpression, 3);
    check(&Super { loc: at(4) }, NodeKind::Super, 4);
    check(&Array { elements: vec![None], loc: at(5) }, NodeKind::ArrayExpression, 5);
    check(&Object { properties: vec![], loc: at(6) }, NodeKind::ObjectExpression, 6);
    check(
        &Property {
            key: this(1),
            value: this(2),
            kind: PropertyKind::Init,
            method: false,
            shorthand: true,
            computed: false,
            loc: at(7),
        },
        NodeKind::Property,
        7,
    );
    check(
        &Unary { operator: UnaryOperator::Not, prefix: true, argument: this(1), loc: at(8) },
        NodeKind::UnaryExpression,
        8,
    );
    check(
        &Update { operator: UpdateOperator::Increment, argument: this(1), prefix: false, loc: at(9) },
        NodeKind::UpdateExpression,
        9,
    );
    check(
        &Binary { operator: BinaryOperator::Plus, left: this(1), right: this(2), loc: at(10) },
        NodeKind::BinaryExpression,
        10,
    );
    check(
        &Assignment {
            operator: AssignmentOperator::Assign,
            left: ast_inherit::expression::PatOrExpr::Expr(this(1)),
            right: this(2),
            loc: at(11),
        },
        NodeKind::AssignmentExpression,
        11,
    );
    check(
        &Logical { operator: LogicalOperator::And, left: this(1), right: this(2), loc: at(12) },
        NodeKind::LogicalExpression,
        12,
    );
    check(
        &Member { object: Parent::Super(Super { loc: at(1) }), property: this(2), computed: false, loc: at(13) },
        NodeKind::MemberExpression,
        13,
    );
    check(
        &Conditional { test: this(1), alternate: this(2), consequent: this(3), loc: at(14) },
        NodeKind::ConditionalExpression,
        14,
    );
    check(
        &Call { callee: Parent::Expr(this(1)), arguments: vec![], loc: at(15) },
        NodeKind::CallExpression,
        15,
    );
    check(&New { callee: this(1), arguments: vec![], loc: at(16) }, NodeKind::NewExpression, 16);
    check(&Sequence { expressions: vec![this(1)], loc: at(17) }, NodeKind::SequenceExpression, 17);
    check(&SpreadElement { argument: this(1), loc: at(18) }, NodeKind::SpreadElement, 18);
    check(
        &Yield { argument: None, delegate: false, loc: at(19) },
        NodeKind::YieldExpression,
        19,
    );
    check(
        &TemplateLiteral { quasis: vec![], expressions: vec![], loc: at(20) },
        NodeKind::TemplateLiteral,
        20,
    );
    check(
        &TaggedTemplate {
            tag: this(1),
            quasi: TemplateLiteral { quasis: vec![], expressions: vec![], loc: at(2) },
            loc: at(21),
        },
        NodeKind::TaggedTemplateExpression,
        21,
    );
    check(
        &TemplateElement {
            tail: true,
            value: TemplateValue { cooked: "a".to_string(), raw: "a".to_string() },
            loc: at(22),
        },
        NodeKind::TemplateElement,
        22,
    );
    check(
        &MetaProperty { meta: ident("new", 1), property: ident("target", 2), loc: at(23) },
        NodeKind::MetaProperty,
        23,
    );
}

#[test]
fn arrow_function_has_the_function_fields_and_the_expression_tag() {
    let arrow = ArrowFunction {
        body: ArrowFunctionBody::Expr(this(1)),
        id: None,
        params: vec![Pattern::Ident(ident("x", 2))],
        generator: false,
        loc: at(24),
    };
    check(&arrow, NodeKind::ArrowFunctionExpression, 24);
    assert!(arrow.id.is_none());
    assert_eq!(arrow.params.len(), 1);
    assert!(!arrow.generator);
}

#[test]
fn records_with_a_tag_written_out() {
    check(
        &RegExpLiteral {
            regex: RegEx { pattern: "a+".to_string(), flags: "g".to_string(), loc: at(1) },
            loc: at(2),
        },
        NodeKind::Literal,
        2,
    );
    check(
        &RegEx { pattern: "a+".to_string(), flags: "g".to_string(), loc: at(3) },
        NodeKind::Literal,
        3,
    );
    check(
        &Directive { expression: number("1", 1), directive: "use strict".to_string(), loc: at(4) },
        NodeKind::ExpressionStatement,
        4,
    );
    check(&FunctionBody { body: vec![], loc: at(5) }, NodeKind::BlockStatement, 5);
}

#[test]
fn expression_reports_what_it_wraps() {
    check(&this(1), NodeKind::ThisExpression, 1);
    check(&Expression::Array(Array { elements: vec![], loc: at(2) }), NodeKind::ArrayExpression, 2);
    check(
        &Expression::Object(Object { properties: vec![], loc: at(3) }),
        NodeKind::ObjectExpression,
        3,
    );
    check(
        &Expression::Unary(Box::new(Unary {
            operator: UnaryOperator::Minus,
            prefix: true,
            argument: this(1),
            loc: at(5),
        })),
        NodeKind::UnaryExpression,
        5,
    );
    check(
        &Expression::Update(Box::new(Update {
            operator: UpdateOperator::Decrement,
            argument: this(1),
            prefix: true,
            loc: at(6),
        })),
        NodeKind::UpdateExpression,
        6,
    );
    check(
        &Expression::Binary(Box::new(Binary {
            operator: BinaryOperator::Times,
            left: this(1),
            right: this(2),
            loc: at(7),
        })),
        NodeKind::BinaryExpression,
        7,
    );
    check(
        &Expression::Assignment(Box::new(Assignment {
            operator: AssignmentOperator::AddAssign,
            left: ast_inherit::expression::PatOrExpr::Pat(Pattern::Ident(ident("a", 1))),
            right: this(2),
            loc: at(8),
        })),
        NodeKind::AssignmentExpression,
        8,
    );
    check(
        &Expression::Logical(Box::new(Logical {
            operator: LogicalOperator::Or,
            left: this(1),
            right: this(2),
            loc: at(9),
        })),
        NodeKind::LogicalExpression,
        9,
    );
    check(
        &Expression::Member(Box::new(Member {
            object: Parent::Expr(this(1)),
            property: this(2),
            computed: true,
            loc: at(10),
        })),
        NodeKind::MemberExpression,
        10,
    );
    check(
        &Expression::Conditional(Box::new(Conditional {
            test: this(1),
            alternate: this(2),
            consequent: this(3),
            loc: at(11),
        })),
        NodeKind::ConditionalExpression,
        11,
    );
    check(
        &Expression::Call(Box::new(Call { callee: Parent::Expr(this(1)), arguments: vec![], loc: at(12) })),
        NodeKind::CallExpression,
        12,
    );
    check(
        &Expression::New(Box::new(New { callee: this(1), arguments: vec![], loc: at(13) })),
        NodeKind::NewExpression,
        13,
    );
    check(
        &Expression::Sequence(Sequence { expressions: vec![], loc: at(14) }),
        NodeKind::SequenceExpression,
        14,
    );
    check(
        &Expression::ArrowFunction(Box::new(ArrowFunction {
            body: ArrowFunctionBody::Block(FunctionBody { body: vec![], loc: at(1) }),
            id: None,
            params: vec![],
            generator: false,
            loc: at(15),
        })),
        NodeKind::ArrowFunctionExpression,
        15,
    );
    check(&Expression::Identifier(Box::new(ident("a", 16))), NodeKind::Identifier, 16);
    check(&Expression::Literal(Box::new(number("1", 17))), NodeKind::Literal, 17);
    check(
        &Expression::TaggedTemplate(Box::new(TaggedTemplate {
            tag: this(1),
            quasi: TemplateLiteral { quasis: vec![], expressions: vec![], loc: at(2) },
            loc: at(18),
        })),
        NodeKind::TaggedTemplateExpression,
        18,
    );
    check(
        &Expression::Meta(MetaProperty { meta: ident("new", 1), property: ident("target", 2), loc: at(19) }),
        NodeKind::MetaProperty,
        19,
    );
}

#[test]
fn function_and_class_expressions_have_their_own_tags() {
    check(&Expression::Function(Box::new(function(20))), NodeKind::FunctionExpression, 20);
    check(&Expression::Class(Box::new(class(21))), NodeKind::ClassExpression, 21);
}

#[test]
fn spread_yield_and_await_report_their_operand() {
    check(&Expression::Spread(Box::new(this(1))), NodeKind::ThisExpression, 1);
    check(&Expression::Yield(Box::new(this(2))), NodeKind::ThisExpression, 2);
    check(&Expression::Await(Box::new(this(3))), NodeKind::ThisExpression, 3);
    let nested = Expression::Await(Box::new(Expression::Yield(Box::new(Expression::Spread(
        Box::new(Expression::Class(Box::new(class(4)))),
    )))));
    check(&nested, NodeKind::ClassExpression, 4);
}

#[test]
fn statement_records() {
    check(&Block { body: vec![empty(1)], loc: at(1) }, NodeKind::BlockStatement, 1);
    check(&Empty { loc: at(2) }, NodeKind::EmptyStatement, 2);
    check(&Debugger { loc: at(3) }, NodeKind::DebuggerStatement, 3);
    check(&With { object: this(1), body: empty(2), loc: at(4) }, NodeKind::WithStatement, 4);
    check(&Return { argument: None, loc: at(5) }, NodeKind::ReturnStatement, 5);
    check(
        &Labeled { label: ident("l", 1), body: empty(2), loc: at(6) },
        NodeKind::LabeledStatement,
        6,
    );
    check(&Break { label: None, loc: at(7) }, NodeKind::BreakStatement, 7);
    check(&Continue { label: Some(ident("l", 1)), loc: at(8) }, NodeKind::ContinueStatement, 8);
    check(
        &If { test: this(1), consequent: empty(2), alternate: None, loc: at(9) },
        NodeKind::IfStatement,
        9,
    );
    check(
        &Switch { discriminant: this(1), cases: vec![], loc: at(10) },
        NodeKind::SwitchStatement,
        10,
    );
    check(&SwitchCase { test: None, consequent: vec![], loc: at(11) }, NodeKind::SwitchCase, 11);
    check(&Throw { argument: this(1), loc: at(12) }, NodeKind::ThrowStatement, 12);
    check(
        &Try {
            block: Block { body: vec![], loc: at(1) },
            handler: None,
            finalizer: None,
            loc: at(13),
        },
        NodeKind::TryStatement,
        13,
    );
    check(
        &CatchClause {
            param: Pattern::Ident(ident("e", 1)),
            body: Block { body: vec![], loc: at(2) },
            loc: at(14),
        },
        NodeKind::CatchClause,
        14,
    );
    check(&While { test: this(1), body: empty(2), loc: at(15) }, NodeKind::WhileStatement, 15);
    check(&DoWhile { body: empty(1), test: this(2), loc: at(16) }, NodeKind::DoWhileStatement, 16);
    check(
        &For { init: ForInit::Null, test: None, update: None, body: empty(1), loc: at(17) },
        NodeKind::ForStatement,
        17,
    );
    check(
        &ForIn {
            left: ForLeft::Pat(Pattern::Ident(ident("k", 1))),
            right: this(2),
            body: empty(3),
            loc: at(18),
        },
        NodeKind::ForInStatement,
        18,
    );
    check(&variables(19), NodeKind::VariableDeclaration, 19);
    check(
        &VariableDeclarator { id: Pattern::Ident(ident("v", 1)), init: None, loc: at(20) },
        NodeKind::VariableDeclarator,
        20,
    );
}

#[test]
fn statement_reports_what_it_wraps() {
    check(&Statement::Block(Block { body: vec![], loc: at(1) }), NodeKind::BlockStatement, 1);
    check(
        &Statement::FuncBody(FunctionBody { body: vec![], loc: at(2) }),
        NodeKind::BlockStatement,
        2,
    );
    check(&empty(3), NodeKind::EmptyStatement, 3);
    check(&Statement::Debugger(Debugger { loc: at(4) }), NodeKind::DebuggerStatement, 4);
    check(
        &Statement::With(Box::new(With { object: this(1), body: empty(2), loc: at(5) })),
        NodeKind::WithStatement,
        5,
    );
    check(
        &Statement::Return(Return { argument: Some(this(1)), loc: at(6) }),
        NodeKind::ReturnStatement,
        6,
    );
    check(
        &Statement::Labeled(Box::new(Labeled { label: ident("l", 1), body: empty(2), loc: at(7) })),
        NodeKind::LabeledStatement,
        7,
    );
    check(&Statement::Break(Break { label: None, loc: at(8) }), NodeKind::BreakStatement, 8);
    check(
        &Statement::Continue(Continue { label: None, loc: at(9) }),
        NodeKind::ContinueStatement,
        9,
    );
    check(
        &Statement::If(Box::new(If {
            test: this(1),
            consequent: empty(2),
            alternate: Some(empty(3)),
            loc: at(10),
        })),
        NodeKind::IfStatement,
        10,
    );
    check(
        &Statement::Switch(Switch { discriminant: this(1), cases: vec![], loc: at(11) }),
        NodeKind::SwitchStatement,
        11,
    );
    check(&Statement::Throw(Throw { argument: this(1), loc: at(12) }), NodeKind::ThrowStatement, 12);
    check(
        &Statement::Try(Try {
            block: Block { body: vec![], loc: at(1) },
            handler: None,
            finalizer: Some(Block { body: vec![], loc: at(2) }),
            loc: at(13),
        }),
        NodeKind::TryStatement,
        13,
    );
    check(
        &Statement::While(Box::new(While { test: this(1), body: empty(2), loc: at(14) })),
        NodeKind::WhileStatement,
        14,
    );
    check(
        &Statement::DoWhile(Box::new(DoWhile { body: empty(1), test: this(2), loc: at(15) })),
        NodeKind::DoWhileStatement,
        15,
    );
    check(
        &Statement::For(Box::new(For {
            init: ForInit::Expr(this(1)),
            test: None,
            update: None,
            body: empty(2),
            loc: at(16),
        })),
        NodeKind::ForStatement,
        16,
    );
    check(
        &Statement::ForIn(Box::new(ForIn {
            left: ForLeft::Var(variables(1)),
            right: this(2),
            body: empty(3),
            loc: at(17),
        })),
        NodeKind::ForInStatement,
        17,
    );
    check(
        &Statement::Decl(Declaration::Variable(variables(18))),
        NodeKind::VariableDeclaration,
        18,
    );
}

#[test]
fn expression_statement_has_its_own_tag_and_the_expression_location() {
    check(&Statement::Expr(this(5)), NodeKind::ExpressionStatement, 5);
    check(
        &Statement::Expr(Expression::Class(Box::new(class(6)))),
        NodeKind::ExpressionStatement,
        6,
    );
}

#[test]
fn declaration_reports_what_it_wraps() {
    check(&Declaration::Function(function(1)), NodeKind::FunctionDeclaration, 1);
    check(&Declaration::Variable(variables(2)), NodeKind::VariableDeclaration, 2);
    check(&Declaration::Class(class(3)), NodeKind::ClassDeclaration, 3);
}

#[test]
fn pattern_records_and_what_wraps_them() {
    check(&ast_inherit::Object { properties: vec![], loc: at(1) }, NodeKind::ObjectPattern, 1);
    check(&ast_inherit::Array { elements: vec![None], loc: at(2) }, NodeKind::ArrayPattern, 2);
    check(
        &RestElement { argument: Pattern::Ident(ident("r", 1)), loc: at(3) },
        NodeKind::RestElement,
        3,
    );
    check(
        &ast_inherit::Assignment { left: Pattern::Ident(ident("a", 1)), right: this(2), loc: at(4) },
        NodeKind::AssignmentPattern,
        4,
    );
    check(&Pattern::Ident(ident("a", 5)), NodeKind::Identifier, 5);
    check(
        &Pattern::Object(ast_inherit::Object { properties: vec![], loc: at(6) }),
        NodeKind::ObjectPattern,
        6,
    );
    check(
        &Pattern::Array(ast_inherit::Array { elements: vec![], loc: at(7) }),
        NodeKind::ArrayPattern,
        7,
    );
    check(
        &Pattern::RestElement(Box::new(RestElement {
            argument: Pattern::Ident(ident("r", 1)),
            loc: at(8),
        })),
        NodeKind::RestElement,
        8,
    );
    check(
        &Pattern::Assignment(Box::new(ast_inherit::Assignment {
            left: Pattern::Ident(ident("a", 1)),
            right: this(2),
            loc: at(9),
        })),
        NodeKind::AssignmentPattern,
        9,
    );
}

#[test]
fn program_and_class_records() {
    check(
        &Program {
            source_type: SourceType::Module,
            body: vec![
                ProgramPart::Statement(empty(1)),
                ProgramPart::Directive(Directive {
                    expression: number("1", 1),
                    directive: "use strict".to_string(),
                    loc: at(2),
                }),
            ],
            loc: at(1),
        },
        NodeKind::Program,
        1,
    );
    check(&ClassBody { body: vec![], loc: at(2) }, NodeKind::ClassBody, 2);
    check(
        &MethodDefinition {
            key: this(1),
            value: function(2),
            kind: MethodKind::Constructor,
            computed: false,
            _static: false,
            loc: at(3),
        },
        NodeKind::MethodDefinition,
        3,
    );
}

#[test]
fn module_records() {
    check(&ImportDeclaration { specifiers: vec![], loc: at(1) }, NodeKind::ImportDeclaration, 1);
    check(
        &Import { import: ident("a", 1), loc: at(2), local: ident("b", 3) },
        NodeKind::ImportSpecifier,
        2,
    );
    check(&ImportDefault { loc: at(3), local: ident("d", 1) }, NodeKind::ImportDefaultSpecifier, 3);
    check(
        &ImportNamespace { loc: at(4), local: ident("n", 1) },
        NodeKind::ImportNamespaceSpecifier,
        4,
    );
    check(
        &ExportNamed {
            declaration: None,
            specifiers: vec![ExportSpecifier { exported: ident("e", 1), loc: at(2) }],
            source: None,
            exported: ident("e", 3),
            loc: at(5),
        },
        NodeKind::ExportNamedDeclaration,
        5,
    );
    check(&ExportSpecifier { exported: ident("e", 1), loc: at(6) }, NodeKind::ExportSpecifier, 6);
    check(
        &ExportDefault { declaration: ExportDecl::Expr(this(1)), loc: at(7) },
        NodeKind::ExportDefaultDeclaration,
        7,
    );
    check(&ExportAll { source: number("1", 1), loc: at(8) }, NodeKind::ExportAllDeclaration, 8);
}

#[test]
fn module_declarations_report_what_they_wrap() {
    check(
        &ModuleDeclaration::Import(ImportDeclaration {
            specifiers: vec![ImportSpecifier::Default(ImportDefault {
                loc: at(1),
                local: ident("d", 2),
            })],
            loc: at(1),
        }),
        NodeKind::ImportDeclaration,
        1,
    );
    check(
        &ModuleDeclaration::Export(ExportDeclaration::All(ExportAll {
            source: number("1", 1),
            loc: at(2),
        })),
        NodeKind::ExportAllDeclaration,
        2,
    );
    check(
        &ExportDeclaration::Named(ExportNamed {
            declaration: Some(Declaration::Class(class(1))),
            specifiers: vec![],
            source: None,
            exported: ident("e", 2),
            loc: at(3),
        }),
        NodeKind::ExportNamedDeclaration,
        3,
    );
    check(
        &ExportDeclaration::Default(ExportDefault {
            declaration: ExportDecl::Decl(Declaration::Function(function(1))),
            loc: at(4),
        }),
        NodeKind::ExportDefaultDeclaration,
        4,
    );
    check(
        &ExportDeclaration::All(ExportAll { source: number("1", 1), loc: at(5) }),
        NodeKind::ExportAllDeclaration,
        5,
    );
}

#[test]
fn tags_of_the_schema_are_those_that_the_roles_derive() {
    let name = |kind: NodeKind| format!("{:?}", kind);
    assert_eq!(Role::Node.tag("Identifier"), Some(name(ident("a", 1).kind())));
    assert_eq!(Role::Expression.tag("This"), Some(name(This { loc: at(1) }.kind())));
    assert_eq!(Role::Statement.tag("Empty"), Some(name(Empty { loc: at(1) }.kind())));
    assert_eq!(
        Role::Pattern.tag("Object"),
        Some(name(ast_inherit::Object { properties: vec![], loc: at(1) }.kind()))
    );
    assert_eq!(
        Role::Declaration.tag("ExportAll"),
        Some(name(ExportAll { source: number("1", 1), loc: at(1) }.kind()))
    );
    assert_eq!(
        Role::ImportSpecifier.tag("Import"),
        Some(name(Import { import: ident("a", 1), loc: at(2), local: ident("b", 3) }.kind()))
    );
    assert_eq!(
        Role::ImportSpecifier.tag("ImportNamespace"),
        Some(name(ImportNamespace { loc: at(4), local: ident("n", 1) }.kind()))
    );
}
