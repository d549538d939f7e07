use rinha_compiladores::ast::Binary;
use rinha_compiladores::ast::BinaryOp;
use rinha_compiladores::ast::Bool;
use rinha_compiladores::ast::Call;
use rinha_compiladores::ast::Error;
use rinha_compiladores::ast::First;
use rinha_compiladores::ast::Function;
use rinha_compiladores::ast::If;
use rinha_compiladores::ast::Int;
use rinha_compiladores::ast::Let;
use rinha_compiladores::ast::Location;
use rinha_compiladores::ast::Print;
use rinha_compiladores::ast::Second;
use rinha_compiladores::ast::Str;
use rinha_compiladores::ast::Term;
use rinha_compiladores::ast::Tuple;
use rinha_compiladores::ast::Var;
use rinha_compiladores::error::EvalError;
use rinha_compiladores::eval::eval;
use rinha_compiladores::eval::evaluate;
use rinha_compiladores::scope::Env;
use rinha_compiladores::text::strip_bom;
use rinha_compiladores::val::Val;
use std::rc::Rc;

const FUEL: u64 = 10_000;

fn loc() -> Location {
    Location::new(0, 0, "test")
}

fn num(n: i32) -> Term {
    Term::Int(Int { value: n, location: loc() })
}

fn strv(s: &str) -> Term {
    Term::Str(Str { value: s.to_string(), location: loc() })
}

fn boolean(b: bool) -> Term {
    Term::Bool(Bool { value: b, location: loc() })
}

fn var(name: &str) -> Term {
    Term::Var(Var { text: name.to_string(), location: loc() })
}

fn bin(op: BinaryOp, lhs: Term, rhs: Term) -> Term {
    Term::Binary(Binary { lhs: Box::new(lhs), op, rhs: Box::new(rhs), location: loc() })
}

fn let_in(name: &str, value: Term, next: Term) -> Term {
    Term::Let(Let {
        name: Var { text: name.to_string(), location: loc() },
        value: Box::new(value),
        next: Box::new(next),
        location: loc(),
    })
}

fn if_else(cond: Term, yes: Term, no: Term) -> Term {
    Term::If(If {
        condition: Box::new(cond),
        then_branch: Box::new(yes),
        otherwise: Box::new(no),
        location: loc(),
    })
}

fn print_term(value: Term) -> Term {
    Term::Print(Print { value: Box::new(value), location: loc() })
}

fn first(value: Term) -> Term {
    Term::First(First { value: Box::new(value), location: loc() })
}

fn second(value: Term) -> Term {
    Term::Second(Second { value: Box::new(value), location: loc() })
}

fn pair(a: Term, b: Term) -> Term {
    Term::Tuple(Tuple { first: Box::new(a), second: Box::new(b), location: loc() })
}

fn call(callee: Term, arguments: Vec<Term>) -> Term {
    Term::Call(Call { callee: Box::new(callee), arguments, location: loc() })
}

fn func(params: &[&str], body: Term) -> Term {
    Term::Function(Rc::new(Function {
        parameters: params
            .iter()
            .map(|p| Var { text: p.to_string(), location: loc() })
            .collect(),
        value: Box::new(body),
        location: loc(),
    }))
}

fn user_error(message: &str) -> Term {
    Term::Error(Error {
        message: message.to_string(),
        full_text: message.to_string(),
        location: loc(),
    })
}

fn run(term: &Term) -> Result<Val, EvalError> {
    evaluate(term, FUEL).0
}

#[test]
fn eval_test() {
    let mut scope = vec![Env { bindings: Vec::new() }];
    let mut sink: Vec<String> = Vec::new();
    let result = eval(&num(1), 0, &mut scope, &mut sink, FUEL).expect("error on evaluation");
    assert_eq!(format!("{:?}", result), format!("{:?}", Val::Int(1)));

    let mut scope = vec![Env { bindings: Vec::new() }];
    let mut sink: Vec<String> = Vec::new();
    let result = eval(&strv("hello"), 0, &mut scope, &mut sink, FUEL).expect(
        "error on evaluation",
    );
    assert_eq!(format!("{:?}", result), format!("{:?}", Val::Str("hello".to_string())));
}

#[test]
fn int_literals_evaluate_to_themselves() {
    assert!(matches!(run(&num(0)), Ok(Val::Int(0))));
    assert!(matches!(run(&num(42)), Ok(Val::Int(42))));
    assert!(matches!(run(&num(-7)), Ok(Val::Int(-7))));
    assert!(matches!(run(&num(i32::MAX)), Ok(Val::Int(i32::MAX))));
    assert!(matches!(run(&num(i32::MIN)), Ok(Val::Int(i32::MIN))));
}

#[test]
fn add_wraps_at_32_bits() {
    assert!(matches!(run(&bin(BinaryOp::Add, num(2), num(3))), Ok(Val::Int(5))));
    assert!(matches!(run(&bin(BinaryOp::Add, num(i32::MAX), num(1))), Ok(Val::Int(i32::MIN))));
    assert!(matches!(run(&bin(BinaryOp::Add, num(i32::MIN), num(-1))), Ok(Val::Int(i32::MAX))));
}

#[test]
fn add_falls_back_to_concatenation() {
    match run(&bin(BinaryOp::Add, strv("a"), num(1))) {
        Ok(Val::Str(s)) => assert_eq!(s, "a1"),
        other => panic!("unexpected: {:?}", other),
    }
    match run(&bin(BinaryOp::Add, num(1), strv("a"))) {
        Ok(Val::Str(s)) => assert_eq!(s, "1a"),
        other => panic!("unexpected: {:?}", other),
    }
    match run(&bin(BinaryOp::Add, boolean(true), boolean(false))) {
        Ok(Val::Str(s)) => assert_eq!(s, "truefalse"),
        other => panic!("unexpected: {:?}", other),
    }
    match run(&bin(BinaryOp::Add, pair(num(1), num(2)), strv("!"))) {
        Ok(Val::Str(s)) => assert_eq!(s, "(1, 2)!"),
        other => panic!("unexpected: {:?}", other),
    }
    match run(&bin(BinaryOp::Add, strv("a"), num(-5))) {
        Ok(Val::Str(s)) => assert_eq!(s, "a-5"),
        other => panic!("unexpected: {:?}", other),
    }
}

#[test]
fn let_binds_value() {
    assert!(matches!(run(&let_in("x", num(5), var("x"))), Ok(Val::Int(5))));
}

#[test]
fn recursive_factorial() {
    // let fact = fn (n) => if n == 0 then 1 else n * fact(n - 1); fact(5)
    let body = if_else(
        bin(BinaryOp::Eq, var("n"), num(0)),
        num(1),
        bin(
            BinaryOp::Mul,
            var("n"),
            call(var("fact"), vec![bin(BinaryOp::Sub, var("n"), num(1))]),
        ),
    );
    let program = let_in("fact", func(&["n"], body), call(var("fact"), vec![num(5)]));
    assert!(matches!(run(&program), Ok(Val::Int(120))));
}

#[test]
fn tuple_projections() {
    assert!(matches!(run(&first(pair(num(1), num(2)))), Ok(Val::Int(1))));
    assert!(matches!(run(&second(pair(num(1), num(2)))), Ok(Val::Int(2))));
}

#[test]
fn string_projections() {
    match run(&first(strv("hi"))) {
        Ok(Val::Str(s)) => assert_eq!(s, "h"),
        other => panic!("unexpected: {:?}", other),
    }
    match run(&second(strv("hi"))) {
        Ok(Val::Str(s)) => assert_eq!(s, "i"),
        other => panic!("unexpected: {:?}", other),
    }
    assert!(matches!(run(&second(strv("h"))), Err(EvalError::IndexError)));
    assert!(matches!(run(&first(strv(""))), Err(EvalError::IndexError)));
    assert!(matches!(run(&first(num(1))), Err(EvalError::TypeError)));
    assert!(matches!(run(&second(boolean(true))), Err(EvalError::TypeError)));
}

#[test]
fn division_and_remainder_by_zero() {
    assert!(matches!(
        run(&bin(BinaryOp::Div, num(10), num(0))),
        Err(EvalError::DivisionByZero)
    ));
    assert!(matches!(
        run(&bin(BinaryOp::Rem, num(10), num(0))),
        Err(EvalError::DivisionByZero)
    ));
}

#[test]
fn undefined_variable() {
    assert!(matches!(run(&var("undefined")), Err(EvalError::UndefinedVariable)));
}

#[test]
fn calling_non_closure() {
    assert!(matches!(run(&call(num(1), vec![])), Err(EvalError::NotCallable)));
    assert!(matches!(
        run(&call(strv("f"), vec![num(1)])),
        Err(EvalError::NotCallable)
    ));
}

#[test]
fn evaluation_is_repeatable() {
    let program = let_in("x", print_term(num(1)), print_term(bin(BinaryOp::Add, var("x"), num(1))));
    let (r1, out1) = evaluate(&program, FUEL);
    let (r2, out2) = evaluate(&program, FUEL);
    assert_eq!(format!("{:?}", r1), format!("{:?}", r2));
    assert_eq!(out1, out2);
    assert_eq!(out1, vec!["1".to_string(), "2".to_string()]);
    assert!(matches!(r1, Ok(Val::Int(2))));
}

#[test]
fn division_truncates_toward_zero() {
    assert!(matches!(run(&bin(BinaryOp::Div, num(-7), num(2))), Ok(Val::Int(-3))));
    assert!(matches!(run(&bin(BinaryOp::Div, num(7), num(-2))), Ok(Val::Int(-3))));
    assert!(matches!(run(&bin(BinaryOp::Div, num(7), num(2))), Ok(Val::Int(3))));
    assert!(matches!(run(&bin(BinaryOp::Rem, num(-7), num(2))), Ok(Val::Int(-1))));
    assert!(matches!(run(&bin(BinaryOp::Rem, num(7), num(-2))), Ok(Val::Int(1))));
    assert!(matches!(
        run(&bin(BinaryOp::Div, num(i32::MIN), num(-1))),
        Ok(Val::Int(i32::MIN))
    ));
    assert!(matches!(run(&bin(BinaryOp::Rem, num(i32::MIN), num(-1))), Ok(Val::Int(0))));
}

#[test]
fn subtraction_and_multiplication_wrap() {
    assert!(matches!(run(&bin(BinaryOp::Sub, num(3), num(5))), Ok(Val::Int(-2))));
    assert!(matches!(run(&bin(BinaryOp::Sub, num(i32::MIN), num(1))), Ok(Val::Int(i32::MAX))));
    assert!(matches!(run(&bin(BinaryOp::Mul, num(6), num(7))), Ok(Val::Int(42))));
    assert!(matches!(
        run(&bin(BinaryOp::Mul, num(1 << 30), num(4))),
        Ok(Val::Int(0))
    ));
}

#[test]
fn comparisons_on_integers() {
    assert!(matches!(run(&bin(BinaryOp::Lt, num(1), num(2))), Ok(Val::Bool(true))));
    assert!(matches!(run(&bin(BinaryOp::Gt, num(1), num(2))), Ok(Val::Bool(false))));
    assert!(matches!(run(&bin(BinaryOp::Lte, num(2), num(2))), Ok(Val::Bool(true))));
    assert!(matches!(run(&bin(BinaryOp::Gte, num(1), num(2))), Ok(Val::Bool(false))));
}

#[test]
fn comparisons_on_strings() {
    assert!(matches!(run(&bin(BinaryOp::Lt, strv("a"), strv("b"))), Ok(Val::Bool(true))));
    assert!(matches!(run(&bin(BinaryOp::Lt, strv("b"), strv("a"))), Ok(Val::Bool(false))));
    assert!(matches!(run(&bin(BinaryOp::Lt, strv("ab"), strv("b"))), Ok(Val::Bool(true))));
    assert!(matches!(run(&bin(BinaryOp::Lt, strv("ab"), strv("abc"))), Ok(Val::Bool(true))));
    assert!(matches!(run(&bin(BinaryOp::Lte, strv("a"), strv("a"))), Ok(Val::Bool(true))));
    assert!(matches!(run(&bin(BinaryOp::Gt, strv("b"), strv("a"))), Ok(Val::Bool(true))));
    assert!(matches!(run(&bin(BinaryOp::Gte, strv("a"), strv("b"))), Ok(Val::Bool(false))));
    assert!(matches!(
        run(&bin(BinaryOp::Lt, strv("a"), num(1))),
        Err(EvalError::TypeError)
    ));
}

#[test]
fn equality_and_inequality() {
    assert!(matches!(run(&bin(BinaryOp::Eq, num(1), num(1))), Ok(Val::Bool(true))));
    assert!(matches!(run(&bin(BinaryOp::Eq, boolean(true), boolean(false))), Ok(Val::Bool(false))));
    assert!(matches!(run(&bin(BinaryOp::Eq, strv("a"), strv("a"))), Ok(Val::Bool(true))));
    assert!(matches!(
        run(&bin(BinaryOp::Eq, strv("1"), num(1))),
        Err(EvalError::TypeError)
    ));
    assert!(matches!(run(&bin(BinaryOp::Neq, num(1), num(2))), Ok(Val::Bool(true))));
    assert!(matches!(run(&bin(BinaryOp::Neq, boolean(true), boolean(true))), Ok(Val::Bool(false))));
    assert!(matches!(run(&bin(BinaryOp::Neq, strv("a"), strv("b"))), Ok(Val::Bool(true))));
}

#[test]
fn inequality_coerces_string_and_integer() {
    assert!(matches!(run(&bin(BinaryOp::Neq, strv("1"), num(1))), Ok(Val::Bool(false))));
    assert!(matches!(run(&bin(BinaryOp::Neq, strv("2"), num(1))), Ok(Val::Bool(true))));
    assert!(matches!(run(&bin(BinaryOp::Neq, num(1), strv("1"))), Ok(Val::Bool(false))));
    assert!(matches!(run(&bin(BinaryOp::Neq, num(-3), strv("-3"))), Ok(Val::Bool(false))));
}

#[test]
fn logical_operators_are_strict() {
    assert!(matches!(
        run(&bin(BinaryOp::And, boolean(true), boolean(false))),
        Ok(Val::Bool(false))
    ));
    assert!(matches!(
        run(&bin(BinaryOp::Or, boolean(false), boolean(true))),
        Ok(Val::Bool(true))
    ));
    assert!(matches!(
        run(&bin(BinaryOp::And, boolean(true), num(1))),
        Err(EvalError::TypeError)
    ));
    // both sides always run: the right side's print happens even though
    // the left side already decides the answer
    let program = bin(BinaryOp::Or, print_term(boolean(true)), print_term(boolean(false)));
    let (r, out) = evaluate(&program, FUEL);
    assert!(matches!(r, Ok(Val::Bool(true))));
    assert_eq!(out, vec!["true".to_string(), "false".to_string()]);
}

#[test]
fn binary_runs_both_sides_and_reports_the_left_failure() {
    let program = bin(BinaryOp::Add, var("missing"), print_term(num(2)));
    let (r, out) = evaluate(&program, FUEL);
    assert!(matches!(r, Err(EvalError::UndefinedVariable)));
    assert_eq!(out, vec!["2".to_string()]);
}

#[test]
fn print_passes_value_through() {
    let (r, out) = evaluate(&print_term(num(42)), FUEL);
    assert!(matches!(r, Ok(Val::Int(42))));
    assert_eq!(out, vec!["42".to_string()]);
}

#[test]
fn print_renders_each_shape() {
    let program = let_in(
        "a",
        print_term(boolean(true)),
        let_in(
            "b",
            print_term(strv("hi")),
            let_in(
                "c",
                print_term(pair(num(1), num(2))),
                let_in(
                    "d",
                    print_term(func(&["x"], var("x"))),
                    print_term(num(-123)),
                ),
            ),
        ),
    );
    let (r, out) = evaluate(&program, FUEL);
    assert!(matches!(r, Ok(Val::Int(-123))));
    assert_eq!(
        out,
        vec![
            "true".to_string(),
            "hi".to_string(),
            "(1, 2)".to_string(),
            "<#closure>".to_string(),
            "-123".to_string(),
        ]
    );
    let (r0, out0) = evaluate(&print_term(num(0)), FUEL);
    assert!(matches!(r0, Ok(Val::Int(0))));
    assert_eq!(out0, vec!["0".to_string()]);
}

#[test]
fn print_of_failing_term_is_type_error() {
    assert!(matches!(run(&print_term(var("missing"))), Err(EvalError::TypeError)));
}

#[test]
fn if_takes_one_branch_only() {
    let program = if_else(boolean(true), num(1), print_term(var("missing")));
    let (r, out) = evaluate(&program, FUEL);
    assert!(matches!(r, Ok(Val::Int(1))));
    assert!(out.is_empty());
    assert!(matches!(
        run(&if_else(boolean(false), num(1), num(2))),
        Ok(Val::Int(2))
    ));
    assert!(matches!(run(&if_else(num(1), num(1), num(2))), Err(EvalError::TypeError)));
}

#[test]
fn let_shadows_earlier_binding() {
    let program = let_in("x", num(1), let_in("x", num(2), var("x")));
    assert!(matches!(run(&program), Ok(Val::Int(2))));
}

#[test]
fn closures_capture_a_snapshot_of_their_scope() {
    // a name bound after the closure was made (other than the closure's
    // own) is invisible inside the body
    let program = let_in(
        "f",
        func(&[], call(var("g"), vec![])),
        let_in("g", func(&[], num(1)), call(var("f"), vec![])),
    );
    assert!(matches!(run(&program), Err(EvalError::UndefinedVariable)));
    // but an earlier binding is captured
    let program = let_in(
        "x",
        num(7),
        let_in("f", func(&[], var("x")), call(var("f"), vec![])),
    );
    assert!(matches!(run(&program), Ok(Val::Int(7))));
}

#[test]
fn lenient_call_arity() {
    // missing arguments leave parameters unbound; touching one fails
    let first_of_two = func(&["a", "b"], var("a"));
    let program = call(first_of_two, vec![num(1)]);
    assert!(matches!(run(&program), Ok(Val::Int(1))));
    let second_of_two = func(&["a", "b"], var("b"));
    let program = call(second_of_two, vec![num(1)]);
    assert!(matches!(run(&program), Err(EvalError::UndefinedVariable)));
    // extra arguments are evaluated for their effects, then dropped
    let ident = func(&["a"], var("a"));
    let program = call(ident, vec![num(1), print_term(num(9))]);
    let (r, out) = evaluate(&program, FUEL);
    assert!(matches!(r, Ok(Val::Int(1))));
    assert_eq!(out, vec!["9".to_string()]);
}

#[test]
fn user_error_forwards_message() {
    match run(&user_error("boom")) {
        Err(EvalError::UserError(m)) => assert_eq!(m, "boom"),
        other => panic!("unexpected: {:?}", other),
    }
}

#[test]
fn depth_quota_exhausts_cleanly() {
    // a function that calls itself forever runs out of quota, not stack
    let looping = let_in(
        "f",
        func(&["n"], call(var("f"), vec![var("n")])),
        call(var("f"), vec![num(0)]),
    );
    assert!(matches!(evaluate(&looping, 200).0, Err(EvalError::StackExhausted)));
    // a zero quota stops before the first node
    assert!(matches!(evaluate(&num(1), 0).0, Err(EvalError::StackExhausted)));
}

#[test]
fn strip_bom_removes_leading_mark() {
    assert_eq!(strip_bom("\u{feff}let x = 1"), "let x = 1");
    assert_eq!(strip_bom("let x = 1"), "let x = 1");
    assert_eq!(strip_bom(""), "");
    assert_eq!(strip_bom("\u{feff}"), "");
}

#[test]
fn error_descriptions() {
    assert_eq!(EvalError::DivisionByZero.describe(), "division by zero");
    assert_eq!(EvalError::TypeError.describe(), "invalid type");
    assert_eq!(EvalError::UndefinedVariable.describe(), "undefined variable");
    assert_eq!(EvalError::NotCallable.describe(), "not callable");
    assert_eq!(EvalError::IndexError.describe(), "string too short");
    assert_eq!(EvalError::StackExhausted.describe(), "stack exhausted");
    assert_eq!(EvalError::UserError("boom".to_string()).describe(), "boom");
}

#[test]
fn location_new_keeps_its_fields() {
    let l = Location::new(3, 9, "main.rinha");
    assert_eq!(l.start, 3);
    assert_eq!(l.end, 9);
    assert_eq!(l.filename, "main.rinha");
}

#[test]
fn closure_result_can_be_called_later() {
    // currying through a returned closure: fn (a) => fn (b) => a + b
    let inner = func(&["b"], bin(BinaryOp::Add, var("a"), var("b")));
    let outer = func(&["a"], inner);
    let program = call(call(outer, vec![num(2)]), vec![num(3)]);
    assert!(matches!(run(&program), Ok(Val::Int(5))));
}
