//! Import and export declarations.

use crate::expression::{Expression, Identifier, Literal};
use crate::node::{Node, NodeKind, SourceLocation};
use crate::statement::Declaration;
use vstd::prelude::*;

verus! {

#[derive(Debug)]
pub enum ModuleDeclaration {
    Import(ImportDeclaration),
    Export(ExportDeclaration),
}

impl Node for ModuleDeclaration {
    open spec fn loc_spec(&self) -> SourceLocation {
        match self {
            ModuleDeclaration::Import(inner) => inner.loc_spec(),
            ModuleDeclaration::Export(inner) => inner.loc_spec(),
        }
    }

    open spec fn kind_spec(&self) -> NodeKind {
        match self {
            ModuleDeclaration::Import(inner) => inner.kind_spec(),
            ModuleDeclaration::Export(inner) => inner.kind_spec(),
        }
    }

    fn loc(&self) -> (r: SourceLocation) {
        match self {
            ModuleDeclaration::Import(inner) => inner.loc(),
            ModuleDeclaration::Export(inner) => inner.loc(),
        }
    }

    fn kind(&self) -> (r: NodeKind) {
        match self {
            ModuleDeclaration::Import(inner) => inner.kind(),
            ModuleDeclaration::Export(inner) => inner.kind(),
        }
    }
}

/// Role: `Node`.
#[derive(Debug)]
pub struct ImportDeclaration {
    pub specifiers: Vec<ImportSpecifier>,
    pub loc: SourceLocation,
}

impl Node for ImportDeclaration {
    open spec fn loc_spec(&self) -> SourceLocation {
        self.loc
    }

    open spec fn kind_spec(&self) -> NodeKind {
        NodeKind::ImportDeclaration
    }

    fn loc(&self) -> (r: SourceLocation) {
        self.loc.clone()
    }

    fn kind(&self) -> (r: NodeKind) {
        NodeKind::ImportDeclaration
    }
}

#[derive(Debug)]
pub enum ImportSpecifier {
    Named(Import),
    Default(ImportDefault),
    NameSpace(ImportNamespace),
}

/// Role: `ImportSpecifier`.
#[derive(Debug)]
pub struct Import {
    pub import: Identifier,
    pub loc: SourceLocation,
    pub local: Identifier,
}

impl Node for Import {
    open spec fn loc_spec(&self) -> SourceLocation {
        self.loc
    }

    open spec fn kind_spec(&self) -> NodeKind {
        NodeKind::ImportSpecifier
    }

    fn loc(&self) -> (r: SourceLocation) {
        self.loc.clone()
    }

    fn kind(&self) -> (r: NodeKind) {
        NodeKind::ImportSpecifier
    }
}

/// Role: `ImportSpecifier`.
#[derive(Debug)]
pub struct ImportDefault {
    pub loc: SourceLocation,
    pub local: Identifier,
}

impl Node for ImportDefault {
    open spec fn loc_spec(&self) -> SourceLocation {
        self.loc
    }

    open spec fn kind_spec(&self) -> NodeKind {
        NodeKind::ImportDefaultSpecifier
    }

    fn loc(&self) -> (r: SourceLocation) {
        self.loc.clone()
    }

    fn kind(&self) -> (r: NodeKind) {
        NodeKind::ImportDefaultSpecifier
    }
}

/// Role: `ImportSpecifier`.
#[derive(Debug)]
pub struct ImportNamespace {
    pub loc: SourceLocation,
    pub local: Identifier,
}

impl Node for ImportNamespace {
    open spec fn loc_spec(&self) -> SourceLocation {
        self.loc
    }

    open spec fn kind_spec(&self) -> NodeKind {
        NodeKind::ImportNamespaceSpecifier
    }

    fn loc(&self) -> (r: SourceLocation) {
        self.loc.clone()
    }

    fn kind(&self) -> (r: NodeKind) {
        NodeKind::ImportNamespaceSpecifier
    }
}

#[derive(Debug)]
pub enum ExportDeclaration {
    Named(ExportNamed),
    Default(ExportDefault),
    All(ExportAll),
}

impl Node for ExportDeclaration {
    open spec fn loc_spec(&self) -> SourceLocation {
        match self {
            ExportDeclaration::Named(inner) => inner.loc_spec(),
            ExportDeclaration::Default(inner) => inner.loc_spec(),
            ExportDeclaration::All(inner) => inner.loc_spec(),
        }
    }

    open spec fn kind_spec(&self) -> NodeKind {
        match self {
            ExportDeclaration::Named(inner) => inner.kind_spec(),
            ExportDeclaration::Default(inner) => inner.kind_spec(),
            ExportDeclaration::All(inner) => inner.kind_spec(),
        }
    }

    fn loc(&self) -> (r: SourceLocation) {
        match self {
            ExportDeclaration::Named(inner) => inner.loc(),
            ExportDeclaration::Default(inner) => inner.loc(),
            ExportDeclaration::All(inner) => inner.loc(),
        }
    }

    fn kind(&self) -> (r: NodeKind) {
        match self {
            ExportDeclaration::Named(inner) => inner.kind(),
            ExportDeclaration::Default(inner) => inner.kind(),
            ExportDeclaration::All(inner) => inner.kind(),
        }
    }
}

/// Role: `Declaration`.
#[derive(Debug)]
pub struct ExportNamed {
    pub declaration: Option<Declaration>,
    pub specifiers: Vec<ExportSpecifier>,
    pub source: Option<Literal>,
    pub exported: Identifier,
    pub loc: SourceLocation,
}

impl Node for ExportNamed {
    open spec fn loc_spec(&self) -> SourceLocation {
        self.loc
    }

    open spec fn kind_spec(&self) -> NodeKind {
        NodeKind::ExportNamedDeclaration
    }

    fn loc(&self) -> (r: SourceLocation) {
        self.loc.clone()
    }

    fn kind(&self) -> (r: NodeKind) {
        NodeKind::ExportNamedDeclaration
    }
}

/// Role: `Node`.
#[derive(Debug)]
pub struct ExportSpecifier {
    pub exported: Identifier,
    pub loc: SourceLocation,
}

impl Node for ExportSpecifier {
    open spec fn loc_spec(&self) -> SourceLocation {
        self.loc
    }

    open spec fn kind_spec(&self) -> NodeKind {
        NodeKind::ExportSpecifier
    }

    fn loc(&self) -> (r: SourceLocation) {
        self.loc.clone()
    }

    fn kind(&self) -> (r: NodeKind) {
        NodeKind::ExportSpecifier
    }
}

/// Role: `Declaration`.
#[derive(Debug)]
pub struct ExportDefault {
    pub declaration: ExportDecl,
    pub loc: SourceLocation,
}

impl Node for ExportDefault {
    open spec fn loc_spec(&self) -> SourceLocation {
        self.loc
    }

    open spec fn kind_spec(&self) -> NodeKind {
        NodeKind::ExportDefaultDeclaration
    }

    fn loc(&self) -> (r: SourceLocation) {
        self.loc.clone()
    }

    fn kind(&self) -> (r: NodeKind) {
        NodeKind::ExportDefaultDeclaration
    }
}

/// Role: `Declaration`.
#[derive(Debug)]
pub struct ExportAll {
    pub source: Literal,
    pub loc: SourceLocation,
}

impl Node for ExportAll {
    open spec fn loc_spec(&self) -> SourceLocation {
        self.loc
    }

    open spec fn kind_spec(&self) -> NodeKind {
        NodeKind::ExportAllDeclaration
    }

    fn loc(&self) -> (r: SourceLocation) {
        self.loc.clone()
    }

    fn kind(&self) -> (r: NodeKind) {
        NodeKind::ExportAllDeclaration
    }
}

#[derive(Debug)]
pub enum ExportDecl {
    Decl(Declaration),
    Expr(Expression),
}

} // verus!
