use wrig::evaluator::Evaluator;
use wrig::expr::Expr;
use wrig::interpreter::Interpreter;
use wrig::literal_type::Lit;
use wrig::token::Tok;
use wrig::token_type::TokType;

fn num(x: f64) -> Lit {
    Lit::Number(x.to_bits())
}

fn test_create_expr_literal(literal: Lit) -> Box<Expr> {
    Box::new(Expr::Literal { value: literal })
}

fn test_create_operator(operator: TokType, lexeme: &str) -> Tok {
    Tok {
        token_type: operator,
        lexeme: lexeme.to_string(),
        literal: None,
        line: 0,
    }
}

fn evaluate(expression: &Expr) -> Result<Lit, String> {
    let mut evaluator = Evaluator::new(expression);
    let mut interpreter = Interpreter::new();
    interpreter
        .interpret_expr(&mut evaluator)
        .map_err(|error| error.message())
}

// UNARY
#[test]
fn should_evaluate_unary_bang() {
    let expression = Expr::Unary {
        operator: test_create_operator(TokType::Bang, "!"),
        right: test_create_expr_literal(Lit::Bool(true)),
    };

    let result = evaluate(&expression).unwrap();

    assert_eq!(result, Lit::Bool(false));
}

#[test]
fn should_evaluate_unary_bang_with_0_number() {
    let expression = Expr::Unary {
        operator: test_create_operator(TokType::Bang, "!"),
        right: test_create_expr_literal(num(0.0)),
    };

    let result = evaluate(&expression);

    assert_eq!(result, Ok(Lit::Bool(true)))
}

#[test]
fn should_evaluate_unary_bang_with_other_number() {
    let expression = Expr::Unary {
        operator: test_create_operator(TokType::Bang, "!"),
        right: test_create_expr_literal(num(1.0)),
    };

    let result = evaluate(&expression);

    assert_eq!(result, Ok(Lit::Bool(false)))
}

#[test]
fn should_evaluate_unary_minus() {
    let expression = Expr::Unary {
        operator: test_create_operator(TokType::Minus, "-"),
        right: test_create_expr_literal(num(1.0)),
    };

    let result = evaluate(&expression).unwrap();

    assert_eq!(result, num(-1.0));
}

#[test]
fn should_evaluate_unary_plus() {
    let expression = Expr::Unary {
        operator: test_create_operator(TokType::Plus, "+"),
        right: test_create_expr_literal(num(1.0)),
    };

    let result = evaluate(&expression).unwrap();

    assert_eq!(result, num(1.0));
}

#[test]
fn should_evaluate_unary_plus_with_0_number() {
    let expression = Expr::Unary {
        operator: test_create_operator(TokType::Plus, "+"),
        right: test_create_expr_literal(num(0.0)),
    };

    let result = evaluate(&expression).unwrap();

    assert_eq!(result, num(0.0));
}

// BINARY

#[test]
fn should_sum_numbers() {
    let expression = Expr::Binary {
        left: test_create_expr_literal(num(1.0)),
        operator: test_create_operator(TokType::Plus, "+"),
        right: test_create_expr_literal(num(2.0)),
    };

    let result = evaluate(&expression).unwrap();

    assert_eq!(result, num(3.0));
}

#[test]
fn should_subtract_numbers() {
    let expression = Expr::Binary {
        left: test_create_expr_literal(num(1.0)),
        operator: test_create_operator(TokType::Minus, "-"),
        right: test_create_expr_literal(num(2.0)),
    };

    let result = evaluate(&expression).unwrap();

    assert_eq!(result, num(-1.0));
}

#[test]
fn should_multiply_numbers() {
    let expression = Expr::Binary {
        left: test_create_expr_literal(num(2.0)),
        operator: test_create_operator(TokType::Star, "*"),
        right: test_create_expr_literal(num(2.0)),
    };

    let result = evaluate(&expression).unwrap();

    assert_eq!(result, num(4.0));
}

#[test]
fn should_divide_numbers() {
    let expression = Expr::Binary {
        left: test_create_expr_literal(num(2.0)),
        operator: test_create_operator(TokType::Slash, "/"),
        right: test_create_expr_literal(num(2.0)),
    };

    let result = evaluate(&expression).unwrap();

    assert_eq!(result, num(1.0));
}

#[test]
fn should_evaluate_greater_than() {
    let expression = Expr::Binary {
        left: test_create_expr_literal(num(2.0)),
        operator: test_create_operator(TokType::Greater, ">"),
        right: test_create_expr_literal(num(1.0)),
    };

    let result = evaluate(&expression).unwrap();

    assert_eq!(result, Lit::Bool(true));
}

#[test]
fn should_evaluate_greater_than_equal() {
    let expression = Expr::Binary {
        left: test_create_expr_literal(num(2.0)),
        operator: test_create_operator(TokType::GreaterEqual, ">="),
        right: test_create_expr_literal(num(1.0)),
    };

    let result = evaluate(&expression).unwrap();

    assert_eq!(result, Lit::Bool(true));
}

#[test]
fn should_evaluate_less_than() {
    let expression = Expr::Binary {
        left: test_create_expr_literal(num(1.0)),
        operator: test_create_operator(TokType::Less, "<"),
        right: test_create_expr_literal(num(2.0)),
    };

    let result = evaluate(&expression).unwrap();

    assert_eq!(result, Lit::Bool(true));
}

#[test]
fn should_evaluate_less_than_equal() {
    let expression = Expr::Binary {
        left: test_create_expr_literal(num(1.0)),
        operator: test_create_operator(TokType::LessEqual, "<="),
        right: test_create_expr_literal(num(2.0)),
    };

    let result = evaluate(&expression).unwrap();

    assert_eq!(result, Lit::Bool(true));
}

#[test]
fn should_evaluate_equal_equal() {
    let expression = Expr::Binary {
        left: test_create_expr_literal(num(1.0)),
        operator: test_create_operator(TokType::EqualEqual, "=="),
        right: test_create_expr_literal(num(1.0)),
    };

    let result = evaluate(&expression).unwrap();

    assert_eq!(result, Lit::Bool(true));
}

#[test]
fn should_evaluate_bang_equal() {
    let expression = Expr::Binary {
        left: test_create_expr_literal(num(1.0)),
        operator: test_create_operator(TokType::BangEqual, "!="),
        right: test_create_expr_literal(num(2.0)),
    };

    let result = evaluate(&expression).unwrap();

    assert_eq!(result, Lit::Bool(true));
}

#[test]
fn should_evaluate_bang_equal_with_different_types() {
    let expression = Expr::Binary {
        left: test_create_expr_literal(num(1.0)),
        operator: test_create_operator(TokType::BangEqual, "!="),
        right: test_create_expr_literal(Lit::Bool(true)),
    };

    let result = evaluate(&expression);

    assert_eq!(result, Ok(Lit::Bool(true)));
}

#[test]
fn should_evaluate_bang_equal_with_same_types() {
    let expression = Expr::Binary {
        left: test_create_expr_literal(num(1.0)),
        operator: test_create_operator(TokType::BangEqual, "!="),
        right: test_create_expr_literal(num(1.0)),
    };

    let result = evaluate(&expression);

    assert_eq!(result, Ok(Lit::Bool(false)));
}

#[test]
fn should_evaluate_plus_with_strings() {
    let expression = Expr::Binary {
        left: test_create_expr_literal(Lit::String("Hello".to_string())),
        operator: test_create_operator(TokType::Plus, "+"),
        right: test_create_expr_literal(Lit::String("World".to_string())),
    };

    let result = evaluate(&expression);

    assert_eq!(result, Ok(Lit::String("HelloWorld".to_string())));
}

#[test]
fn should_evaluate_plus_with_string_and_number() {
    let expression = Expr::Binary {
        left: test_create_expr_literal(Lit::String("Hello".to_string())),
        operator: test_create_operator(TokType::Plus, "+"),
        right: test_create_expr_literal(num(1.0)),
    };

    let result = evaluate(&expression);

    assert_eq!(
        result,
        Err("Attempt to add two unmatching or illegal data types.".to_string())
    );
}

#[test]
fn should_evaluate_plus_with_number_and_string() {
    let expression = Expr::Binary {
        left: test_create_expr_literal(num(1.0)),
        operator: test_create_operator(TokType::Plus, "+"),
        right: test_create_expr_literal(Lit::String("Hello".to_string())),
    };

    let result = evaluate(&expression);

    assert_eq!(
        result,
        Err("Attempt to add two unmatching or illegal data types.".to_string())
    );
}

#[test]
fn should_evaluate_plus_with_number_and_bool() {
    let expression = Expr::Binary {
        left: test_create_expr_literal(num(1.0)),
        operator: test_create_operator(TokType::Plus, "+"),
        right: test_create_expr_literal(Lit::Bool(true)),
    };

    let result = evaluate(&expression);

    assert_eq!(
        result,
        Err("Attempt to add two unmatching or illegal data types.".to_string())
    );
}

#[test]
fn should_evaluate_plus_with_bool_and_number() {
    let expression = Expr::Binary {
        left: test_create_expr_literal(Lit::Bool(true)),
        operator: test_create_operator(TokType::Plus, "+"),
        right: test_create_expr_literal(num(1.0)),
    };

    let result = evaluate(&expression);

    assert_eq!(
        result,
        Err("Attempt to add two unmatching or illegal data types.".to_string())
    );
}

#[test]
fn should_evaluate_plus_with_bool_and_bool() {
    let expression = Expr::Binary {
        left: test_create_expr_literal(Lit::Bool(true)),
        operator: test_create_operator(TokType::Plus, "+"),
        right: test_create_expr_literal(Lit::Bool(true)),
    };

    let result = evaluate(&expression);

    assert_eq!(
        result,
        Err("Attempt to add two unmatching or illegal data types.".to_string())
    );
}

#[test]
fn should_evaluate_plus_with_string_and_bool() {
    let expression = Expr::Binary {
        left: test_create_expr_literal(Lit::String("Hello".to_string())),
        operator: test_create_operator(TokType::Plus, "+"),
        right: test_create_expr_literal(Lit::Bool(true)),
    };

    let result = evaluate(&expression);

    assert_eq!(
        result,
        Err("Attempt to add two unmatching or illegal data types.".to_string())
    );
}

#[test]
fn should_evaluate_plus_with_bool_and_string() {
    let expression = Expr::Binary {
        left: test_create_expr_literal(Lit::Bool(true)),
        operator: test_create_operator(TokType::Plus, "+"),
        right: test_create_expr_literal(Lit::String("Hello".to_string())),
    };

    let result = evaluate(&expression);

    assert_eq!(
        result,
        Err("Attempt to add two unmatching or illegal data types.".to_string())
    );
}

#[test]
fn should_evaluate_plus_with_string_and_nil() {
    let expression = Expr::Binary {
        left: test_create_expr_literal(Lit::String("Hello".to_string())),
        operator: test_create_operator(TokType::Plus, "+"),
        right: test_create_expr_literal(Lit::Nil),
    };

    let result = evaluate(&expression);

    assert_eq!(
        result,
        Err("Attempt to add two unmatching or illegal data types.".to_string())
    );
}

#[test]
fn should_evaluate_plus_with_nil_and_string() {
    let expression = Expr::Binary {
        left: test_create_expr_literal(Lit::Nil),
        operator: test_create_operator(TokType::Plus, "+"),
        right: test_create_expr_literal(Lit::String("Hello".to_string())),
    };

    let result = evaluate(&expression);

    assert_eq!(
        result,
        Err("Attempt to add two unmatching or illegal data types.".to_string())
    );
}

// GROUPING
#[test]
fn should_evaluate_grouping() {
    let expression = Expr::Grouping {
        expression: test_create_expr_literal(num(1.0)),
    };

    let result = evaluate(&expression).unwrap();

    assert_eq!(result, num(1.0));
}

#[test]
fn should_evaluate_grouping_with_binary() {
    let expression = Expr::Grouping {
        expression: Box::new(Expr::Binary {
            left: test_create_expr_literal(num(1.0)),
            operator: test_create_operator(TokType::Plus, "+"),
            right: test_create_expr_literal(num(2.0)),
        }),
    };

    let result = evaluate(&expression).unwrap();

    assert_eq!(result, num(3.0));
}

#[test]
fn should_evaluate_grouping_with_unary() {
    let expression = Expr::Grouping {
        expression: Box::new(Expr::Unary {
            operator: test_create_operator(TokType::Minus, "-"),
            right: test_create_expr_literal(num(1.0)),
        }),
    };

    let result = evaluate(&expression).unwrap();

    assert_eq!(result, num(-1.0));
}
