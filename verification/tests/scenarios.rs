use ast_inherit::inherit::error::InheritError;
use ast_inherit::inherit::{inherit, resolve_roles};
use ast_inherit::inherit::token::{Delimiter, TokenTree};

fn tokens(text: &str) -> Vec<TokenTree> {
    convert(text.parse::<proc_macro2::TokenStream>().expect("the text lexes"))
}

fn convert(stream: proc_macro2::TokenStream) -> Vec<TokenTree> {
    stream
        .into_iter()
        .map(|tree| match tree {
            proc_macro2::TokenTree::Group(group) => TokenTree::Group(
                match group.delimiter() {
                    proc_macro2::Delimiter::Parenthesis => Delimiter::Parenthesis,
                    proc_macro2::Delimiter::Brace => Delimiter::Brace,
                    proc_macro2::Delimiter::Bracket => Delimiter::Bracket,
                    proc_macro2::Delimiter::None => Delimiter::Invisible,
                },
                convert(group.stream()),
            ),
            proc_macro2::TokenTree::Ident(ident) => TokenTree::Ident(ident.to_string()),
            proc_macro2::TokenTree::Punct(punct) => TokenTree::Punct(
                punct.as_char(),
                punct.spacing() == proc_macro2::Spacing::Joint,
            ),
            proc_macro2::TokenTree::Literal(literal) => TokenTree::Literal(literal.to_string()),
        })
        .collect()
}

fn ident(text: &str) -> TokenTree {
    TokenTree::Ident(text.to_string())
}

#[test]
fn identifier_with_node_role() {
    let definition = tokens("#[derive(Debug)] pub struct Identifier { pub name: String, }");
    let out = inherit(&tokens("Node"), &definition).unwrap();
    let expected = tokens(
        "#[derive(Debug)] pub struct Identifier { pub name: String, pub loc: SourceLocation, }
         impl Node for Identifier {
             fn loc(&self) -> SourceLocation { self.loc.clone() }
             fn kind(&self) -> NodeKind { NodeKind::Identifier }
         }",
    );
    assert_eq!(out, expected);
}

#[test]
fn identifier_with_node_role_token_by_token() {
    let definition = vec![
        ident("pub"),
        ident("struct"),
        ident("Identifier"),
        TokenTree::Group(
            Delimiter::Brace,
            vec![
                ident("pub"),
                ident("name"),
                TokenTree::Punct(':', false),
                ident("String"),
                TokenTree::Punct(',', false),
            ],
        ),
    ];
    let out = inherit(&vec![ident("Node")], &definition).unwrap();
    let receiver = TokenTree::Group(
        Delimiter::Parenthesis,
        vec![TokenTree::Punct('&', false), ident("self")],
    );
    let expected = vec![
        ident("pub"),
        ident("struct"),
        ident("Identifier"),
        TokenTree::Group(
            Delimiter::Brace,
            vec![
                ident("pub"),
                ident("name"),
                TokenTree::Punct(':', false),
                ident("String"),
                TokenTree::Punct(',', false),
                ident("pub"),
                ident("loc"),
                TokenTree::Punct(':', false),
                ident("SourceLocation"),
                TokenTree::Punct(',', false),
            ],
        ),
        ident("impl"),
        ident("Node"),
        ident("for"),
        ident("Identifier"),
        TokenTree::Group(
            Delimiter::Brace,
            vec![
                ident("fn"),
                ident("loc"),
                receiver.clone(),
                TokenTree::Punct('-', true),
                TokenTree::Punct('>', false),
                ident("SourceLocation"),
                TokenTree::Group(
                    Delimiter::Brace,
                    vec![
                        ident("self"),
                        TokenTree::Punct('.', false),
                        ident("loc"),
                        TokenTree::Punct('.', false),
                        ident("clone"),
                        TokenTree::Group(Delimiter::Parenthesis, vec![]),
                    ],
                ),
                ident("fn"),
                ident("kind"),
                receiver,
                TokenTree::Punct('-', true),
                TokenTree::Punct('>', false),
                ident("NodeKind"),
                TokenTree::Group(
                    Delimiter::Brace,
                    vec![
                        ident("NodeKind"),
                        TokenTree::Punct(':', true),
                        TokenTree::Punct(':', false),
                        ident("Identifier"),
                    ],
                ),
            ],
        ),
    ];
    assert_eq!(out, expected);
}

#[test]
fn this_with_expression_role() {
    let definition = tokens("pub struct This { }");
    let out = inherit(&tokens("Expression"), &definition).unwrap();
    let expected = tokens(
        "pub struct This { pub loc: SourceLocation, }
         impl Node for This {
             fn loc(&self) -> SourceLocation { self.loc.clone() }
             fn kind(&self) -> NodeKind { NodeKind::ThisExpression }
         }",
    );
    assert_eq!(out, expected);
}

#[test]
fn arrow_function_with_function_and_expression_roles() {
    let definition = tokens("pub struct ArrowFunction { pub body: ArrowFunctionBody, }");
    let out = inherit(&tokens("Function, Expression"), &definition).unwrap();
    let expected = tokens(
        "pub struct ArrowFunction {
             pub body: ArrowFunctionBody,
             pub id: Option<Identifier>, pub params: Vec<Pattern>, pub generator: bool,
             pub loc: SourceLocation,
         }
         impl Node for ArrowFunction {
             fn loc(&self) -> SourceLocation { self.loc.clone() }
             fn kind(&self) -> NodeKind { NodeKind::ArrowFunctionExpression }
         }",
    );
    assert_eq!(out, expected);
    let implementations = out.iter().filter(|t| **t == ident("impl")).count();
    assert_eq!(implementations, 1);
}

#[test]
fn import_with_import_specifier_role() {
    let definition = tokens("pub struct Import { pub import: Identifier, }");
    let out = inherit(&tokens("ImportSpecifier"), &definition).unwrap();
    let expected = tokens(
        "pub struct Import {
             pub import: Identifier,
             pub loc: SourceLocation,
             pub local: Identifier,
         }
         impl Node for Import {
             fn loc(&self) -> SourceLocation { self.loc.clone() }
             fn kind(&self) -> NodeKind { NodeKind::ImportSpecifier }
         }",
    );
    assert_eq!(out, expected);
}

#[test]
fn bogus_role_is_fatal() {
    assert_eq!(resolve_roles(&tokens("Bogus")), Err(InheritError::UnknownRole));
}
