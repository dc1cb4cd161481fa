use wrig::environment::Environment;
use wrig::evaluator::EvalError;
use wrig::evaluator::Evaluator;
use wrig::expr::Expr;
use wrig::interpreter::Interpreter;
use wrig::literal_type::Lit;
use wrig::parser::Parser;
use wrig::run::RunError;
use wrig::run::run;
use wrig::scanner::Scanner;
use wrig::token::Tok;
use wrig::token_type::TokType;
use wrig::util::parse_string;

fn num(x: f64) -> Lit {
    Lit::Number(x.to_bits())
}

fn literal(value: Lit) -> Box<Expr> {
    Box::new(Expr::Literal { value })
}

fn operator(kind: TokType, lexeme: &str) -> Tok {
    Tok {
        token_type: kind,
        lexeme: lexeme.to_string(),
        literal: None,
        line: 1,
    }
}

fn eval_binary(left: Lit, kind: TokType, lexeme: &str, right: Lit) -> Result<Lit, EvalError> {
    let expression = Expr::Binary {
        left: literal(left),
        operator: operator(kind, lexeme),
        right: literal(right),
    };
    let evaluator = Evaluator::new(&expression);
    let mut environment = Environment::new();
    evaluator.evaluate(None, &mut environment)
}

fn run_source(source: &str) -> Result<Vec<String>, RunError> {
    let mut out: Vec<String> = Vec::new();
    run(source, &mut out).map(|_| out)
}

#[test]
fn numeric_operators_follow_ieee_float_arithmetic() {
    assert_eq!(
        eval_binary(num(0.1), TokType::Plus, "+", num(0.2)),
        Ok(num(0.1 + 0.2))
    );
    assert_eq!(
        eval_binary(num(1.5), TokType::Minus, "-", num(2.25)),
        Ok(num(1.5 - 2.25))
    );
    assert_eq!(
        eval_binary(num(1.1), TokType::Star, "*", num(3.0)),
        Ok(num(1.1 * 3.0))
    );
    assert_eq!(
        eval_binary(num(10.0), TokType::Slash, "/", num(4.0)),
        Ok(num(10.0 / 4.0))
    );
}

#[test]
fn dividing_one_by_zero_gives_positive_infinity() {
    assert_eq!(
        eval_binary(num(1.0), TokType::Slash, "/", num(0.0)),
        Ok(num(f64::INFINITY))
    );
}

#[test]
fn dividing_zero_by_zero_gives_a_nan() {
    let result = eval_binary(num(0.0), TokType::Slash, "/", num(0.0)).unwrap();
    match result {
        Lit::Number(bits) => assert!(f64::from_bits(bits).is_nan()),
        other => panic!("expected a number, got {:?}", other),
    }
}

#[test]
fn every_literal_equals_itself() {
    let values = [
        num(1.5),
        num(0.0),
        Lit::String("hey".to_string()),
        Lit::Bool(true),
        Lit::Nil,
    ];
    for value in values {
        assert_eq!(
            eval_binary(value.clone(), TokType::EqualEqual, "==", value),
            Ok(Lit::Bool(true))
        );
    }
}

#[test]
fn literals_of_different_variants_are_never_equal() {
    assert_eq!(
        eval_binary(num(1.0), TokType::EqualEqual, "==", Lit::String("1".to_string())),
        Ok(Lit::Bool(false))
    );
    assert_eq!(
        eval_binary(Lit::Bool(true), TokType::EqualEqual, "==", num(1.0)),
        Ok(Lit::Bool(false))
    );
    assert_eq!(
        eval_binary(Lit::Nil, TokType::EqualEqual, "==", Lit::Bool(false)),
        Ok(Lit::Bool(false))
    );
}

#[test]
fn negative_zero_equals_positive_zero() {
    assert_eq!(
        eval_binary(num(-0.0), TokType::EqualEqual, "==", num(0.0)),
        Ok(Lit::Bool(true))
    );
}

#[test]
fn string_relational_operators_compare_by_length() {
    let ab = Lit::String("ab".to_string());
    let abc = Lit::String("abc".to_string());
    let cd = Lit::String("cd".to_string());
    assert_eq!(
        eval_binary(ab.clone(), TokType::Less, "<", abc.clone()),
        Ok(Lit::Bool(true))
    );
    assert_eq!(
        eval_binary(abc, TokType::Less, "<", ab.clone()),
        Ok(Lit::Bool(false))
    );
    assert_eq!(eval_binary(ab, TokType::Less, "<", cd), Ok(Lit::Bool(false)));
}

#[test]
fn bang_on_zero_is_true_and_on_one_is_false() {
    let on_zero = Expr::Unary {
        operator: operator(TokType::Bang, "!"),
        right: literal(num(0.0)),
    };
    let on_one = Expr::Unary {
        operator: operator(TokType::Bang, "!"),
        right: literal(num(1.0)),
    };
    let on_negative_zero = Expr::Unary {
        operator: operator(TokType::Bang, "!"),
        right: literal(num(-0.0)),
    };
    let mut environment = Environment::new();
    assert_eq!(
        Evaluator::new(&on_zero).evaluate(None, &mut environment),
        Ok(Lit::Bool(true))
    );
    assert_eq!(
        Evaluator::new(&on_one).evaluate(None, &mut environment),
        Ok(Lit::Bool(false))
    );
    assert_eq!(
        Evaluator::new(&on_negative_zero).evaluate(None, &mut environment),
        Ok(Lit::Bool(true))
    );
}

#[test]
fn comparisons_order_negative_numbers() {
    assert_eq!(
        eval_binary(num(-2.0), TokType::Less, "<", num(1.0)),
        Ok(Lit::Bool(true))
    );
    assert_eq!(
        eval_binary(num(-2.0), TokType::Less, "<", num(-1.0)),
        Ok(Lit::Bool(true))
    );
    assert_eq!(
        eval_binary(num(-1.0), TokType::Greater, ">", num(-2.0)),
        Ok(Lit::Bool(true))
    );
    assert_eq!(
        eval_binary(num(-0.0), TokType::Less, "<", num(0.0)),
        Ok(Lit::Bool(false))
    );
}

#[test]
fn scan_parse_print_round_trip() {
    let source = "1 + (2 + 2) == 5";
    let mut scanner = Scanner::new(source);
    let tokens = scanner.scan_tokens().unwrap();
    let mut parser = Parser::new(&tokens);
    let expr = parser.expression().unwrap();

    assert_eq!(expr.to_string(), "(== (+ 1 (group (+ 2 2))) 5)");
}

#[test]
fn var_declaration_defines_and_print_renders() {
    let source = "var x = 1 + 2; print x;";
    let mut scanner = Scanner::new(source);
    let tokens = scanner.scan_tokens().unwrap();
    let mut parser = Parser::new(&tokens);
    let statements = parser.parse().unwrap();
    let mut interpreter = Interpreter::new();
    let mut out: Vec<String> = Vec::new();

    interpreter.interpret_stmts(statements, &mut out).unwrap();

    assert_eq!(out, vec!["3".to_string()]);
    assert_eq!(interpreter.environment.get("x"), Some(num(3.0)));
}

#[test]
fn run_executes_statements_in_order() {
    let outputs = run_source("print 1 + 2; print \"hey\"; print nil; print 1 < 2;").unwrap();
    assert_eq!(
        outputs,
        vec![
            "3".to_string(),
            "hey".to_string(),
            "nil".to_string(),
            "true".to_string()
        ]
    );
}

#[test]
fn malformed_term_recovers_and_reports_later_errors_too() {
    let source = "1 +; 2 +;";
    let mut scanner = Scanner::new(source);
    let tokens = scanner.scan_tokens().unwrap();
    let mut parser = Parser::new(&tokens);
    let result = parser.parse();

    match result {
        Err(wrig::parser::ParserError::ParseError(report)) => {
            assert_eq!(report.matches("No primary").count(), 2);
        },
        other => panic!("expected an aggregated parse error, got {:?}", other),
    }
}

#[test]
fn unterminated_string_is_tagged_with_its_starting_line() {
    let source = "\"abc";
    let mut scanner = Scanner::new(source);
    let result = scanner.scan_tokens();

    match result {
        Err(wrig::scanner::ScannerError::UnterminatedString(location)) => {
            assert_eq!(location.line, 1);
        },
        other => panic!("expected an unterminated string, got {:?}", other),
    }
}

#[test]
fn adding_a_number_and_a_bool_is_a_type_mismatch() {
    let result = eval_binary(num(1.0), TokType::Plus, "+", Lit::Bool(true));
    match result {
        Err(EvalError::TypeMismatch(op, _, _)) => assert_eq!(op, TokType::Plus),
        other => panic!("expected a type mismatch, got {:?}", other),
    }
}

#[test]
fn adding_a_string_and_a_number_is_a_type_mismatch() {
    let result = eval_binary(
        Lit::String("a".to_string()),
        TokType::Plus,
        "+",
        num(1.0),
    );
    match result {
        Err(EvalError::TypeMismatch(op, _, _)) => assert_eq!(op, TokType::Plus),
        other => panic!("expected a type mismatch, got {:?}", other),
    }
}

#[test]
fn reading_an_undefined_variable_is_an_error() {
    let result = run_source("print x;");
    match result {
        Err(RunError::Eval(EvalError::UndefinedVariable(name))) => assert_eq!(name, "x"),
        other => panic!("expected an undefined variable error, got {:?}", other),
    }
}

#[test]
fn an_evaluation_error_keeps_the_prints_before_it() {
    let mut out: Vec<String> = Vec::new();
    let result = run("print 1; print x; print 2;", &mut out);
    assert!(matches!(
        result,
        Err(RunError::Eval(EvalError::UndefinedVariable(_)))
    ));
    assert_eq!(out, vec!["1".to_string()]);
}

#[test]
fn a_later_define_overwrites_the_earlier_binding() {
    let outputs = run_source("var x = 1; var x = 2; print x;").unwrap();
    assert_eq!(outputs, vec!["2".to_string()]);
}

#[test]
fn unary_on_a_string_or_nil_is_an_illegal_operand() {
    let on_nil = Expr::Unary {
        operator: operator(TokType::Bang, "!"),
        right: literal(Lit::Nil),
    };
    let on_string = Expr::Unary {
        operator: operator(TokType::Minus, "-"),
        right: literal(Lit::String("a".to_string())),
    };
    let mut environment = Environment::new();
    let nil_result = Evaluator::new(&on_nil).evaluate(None, &mut environment);
    let string_result = Evaluator::new(&on_string).evaluate(None, &mut environment);
    assert_eq!(
        nil_result.map_err(|e| e.message()),
        Err("Illegal use of nil in unary.".to_string())
    );
    assert_eq!(
        string_result.map_err(|e| e.message()),
        Err("Illegal use of string in unary.".to_string())
    );
}

#[test]
fn parse_string_reads_a_decimal_numeral_as_a_float() {
    assert_eq!(parse_string("123.45"), Some(123.45f64.to_bits()));
    assert_eq!(parse_string("100"), Some(100.0f64.to_bits()));
    assert_eq!(parse_string("not a number"), None);
}

#[test]
fn environment_defines_and_reads_back() {
    let mut environment = Environment::new();
    assert_eq!(environment.get("a"), None);
    environment.define("a", num(1.0));
    environment.define("b", Lit::Bool(true));
    assert_eq!(environment.get("a"), Some(num(1.0)));
    assert_eq!(environment.get("b"), Some(Lit::Bool(true)));
    environment.define("a", Lit::Nil);
    assert_eq!(environment.get("a"), Some(Lit::Nil));
}

fn eval_num_pair(a: f64, kind: TokType, lexeme: &str, b: f64) -> Lit {
    eval_binary(num(a), kind, lexeme, num(b)).unwrap()
}

#[test]
fn number_operators_agree_with_float_semantics_on_edge_values() {
    let values = [
        0.0f64,
        -0.0,
        1.5,
        -1.5,
        f64::INFINITY,
        f64::NEG_INFINITY,
        f64::MIN_POSITIVE,
        5e-324,
        -5e-324,
        f64::MAX,
        f64::MIN,
        f64::NAN,
    ];
    for &a in &values {
        for &b in &values {
            assert_eq!(
                eval_num_pair(a, TokType::Less, "<", b),
                Lit::Bool(a < b),
                "{} < {}",
                a,
                b
            );
            assert_eq!(
                eval_num_pair(a, TokType::LessEqual, "<=", b),
                Lit::Bool(a <= b),
                "{} <= {}",
                a,
                b
            );
            assert_eq!(
                eval_num_pair(a, TokType::Greater, ">", b),
                Lit::Bool(a > b),
                "{} > {}",
                a,
                b
            );
            assert_eq!(
                eval_num_pair(a, TokType::GreaterEqual, ">=", b),
                Lit::Bool(a >= b),
                "{} >= {}",
                a,
                b
            );
            assert_eq!(
                eval_num_pair(a, TokType::EqualEqual, "==", b),
                Lit::Bool(a == b),
                "{} == {}",
                a,
                b
            );
            let sums = [
                (TokType::Plus, "+", a + b),
                (TokType::Minus, "-", a - b),
                (TokType::Star, "*", a * b),
                (TokType::Slash, "/", a / b),
            ];
            for (kind, lexeme, expected) in sums {
                let result = eval_num_pair(a, kind, lexeme, b);
                match result {
                    Lit::Number(bits) => {
                        if expected.is_nan() {
                            assert!(
                                f64::from_bits(bits).is_nan(),
                                "{} {} {}",
                                a,
                                lexeme,
                                b
                            );
                        } else {
                            assert_eq!(
                                bits,
                                expected.to_bits(),
                                "{} {} {}",
                                a,
                                lexeme,
                                b
                            );
                        }
                    }
                    other => panic!("expected a number, got {:?}", other),
                }
            }
        }
    }
}

#[test]
fn unary_minus_flips_the_sign_of_any_number() {
    let values = [0.0f64, -0.0, 1.5, f64::INFINITY, 5e-324, f64::MAX];
    for &x in &values {
        let expression = Expr::Unary {
            operator: operator(TokType::Minus, "-"),
            right: literal(num(x)),
        };
        let mut environment = Environment::new();
        let result = Evaluator::new(&expression).evaluate(None, &mut environment);
        assert_eq!(result, Ok(num(-x)), "-({})", x);
    }
}
