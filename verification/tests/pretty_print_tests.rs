use wrig::expr::Expr;
use wrig::literal_type::Lit;
use wrig::token::Tok;
use wrig::token_type::TokType;

fn num(x: f64) -> Lit {
    Lit::Number(x.to_bits())
}

#[test]
fn ast_should_pretty_print_plus() {
    let ast = Expr::Binary {
        left: Box::from(Expr::Literal { value: num(5.0) }),
        operator: Tok {
            lexeme: "+".to_string(),
            line: 1,
            literal: None,
            token_type: TokType::Plus,
        },
        right: Box::from(Expr::Literal { value: num(3.0) }),
    };

    assert_eq!("(+ 5 3)", ast.to_string())
}

#[test]
fn ast_should_pretty_print_deep() {
    let ast = Expr::Binary {
        left: Box::from(Expr::Grouping {
            expression: Box::from(Expr::Unary {
                operator: Tok {
                    lexeme: "/".to_string(),
                    line: 1,
                    literal: None,
                    token_type: TokType::Slash,
                },
                right: Box::from(Expr::Literal { value: num(1.0) }),
            }),
        }),
        operator: Tok {
            lexeme: "+".to_string(),
            line: 1,
            literal: None,
            token_type: TokType::Plus,
        },
        right: Box::from(Expr::Literal { value: num(3.0) }),
    };

    assert_eq!("(+ (group (/ 1)) 3)", ast.to_string())
}

#[test]
fn expr_should_pretty_print_plus() {
    let ast = Expr::Binary {
        left: Box::from(Expr::Literal { value: num(5.0) }),
        operator: Tok {
            lexeme: "+".to_string(),
            line: 1,
            literal: None,
            token_type: TokType::Plus,
        },
        right: Box::from(Expr::Literal { value: num(3.0) }),
    };

    assert_eq!("(+ 5 3)", ast.to_string())
}

#[test]
fn expr_should_pretty_print_deep() {
    let ast = Expr::Binary {
        left: Box::from(Expr::Grouping {
            expression: Box::from(Expr::Unary {
                operator: Tok {
                    lexeme: "/".to_string(),
                    line: 1,
                    literal: None,
                    token_type: TokType::Slash,
                },
                right: Box::from(Expr::Literal { value: num(1.0) }),
            }),
        }),
        operator: Tok {
            lexeme: "+".to_string(),
            line: 1,
            literal: None,
            token_type: TokType::Plus,
        },
        right: Box::from(Expr::Literal { value: num(3.0) }),
    };

    assert_eq!("(+ (group (/ 1)) 3)", ast.to_string())
}

#[test]
fn should_render_each_literal_kind() {
    assert_eq!(num(123.45).to_text(), "123.45");
    assert_eq!(Lit::String("hey".to_string()).to_text(), "hey");
    assert_eq!(Lit::Bool(true).to_text(), "true");
    assert_eq!(Lit::Bool(false).to_text(), "false");
    assert_eq!(Lit::Nil.to_text(), "nil");
}
