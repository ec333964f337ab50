use expr_lang::program::{BinaryOp, EvalError, Expr, Program, UnaryOp, Value};

#[test]
fn test_add() {
    let left = Box::new(Expr::Leaf(Value::Int(42)));
    let right = Box::new(Expr::Leaf(Value::Int(42)));
    let add = Expr::new_bin_op(left, right, BinaryOp::Add);

    assert_eq!(
        match Program::new(add).exec() {
            Ok(Value::Int(val)) => val,
            _ => panic!("Didn't find a number!"),
        },
        84
    )
}

#[test]
fn test_eq() {
    let left = Box::new(Expr::Leaf(Value::Int(42)));
    let right = Box::new(Expr::Leaf(Value::Int(42)));
    let eq = Expr::new_bin_op(left, right, BinaryOp::Eq);

    assert_eq!(
        match Program::new(eq).exec() {
            Ok(Value::Bool(val)) => val,
            _ => panic!("Didn't find a boolean!"),
        },
        true
    )
}

#[test]
fn test_and() {
    let t = Box::new(Expr::Leaf(Value::Bool(true)));
    let f = Box::new(Expr::Leaf(Value::Bool(false)));

    let a1 = Expr::new_bin_op(t.clone(), f.clone(), BinaryOp::And);
    let a2 = Expr::new_bin_op(t.clone(), t, BinaryOp::And);
    let a3 = Expr::new_bin_op(f.clone(), f, BinaryOp::And);

    let tests = vec![
        (Program::new(a1).exec(), false),
        (Program::new(a2).exec(), true),
        (Program::new(a3).exec(), false),
    ];
    for (value, expected) in tests {
        assert_eq!(
            match value {
                Ok(Value::Bool(val)) => val,
                _ => panic!("Didn't find a boolean!"),
            },
            expected
        );
    }
}

#[test]
fn test_not() {
    let val = Box::new(Expr::Leaf(Value::Bool(false)));
    let not = Expr::new_unary_op(val, UnaryOp::Not);

    assert_eq!(
        match Program::new(not).exec() {
            Ok(Value::Bool(val)) => val,
            _ => panic!("Didn't find a boolean!"),
        },
        true
    )
}

#[test]
fn arithmetic_operators_on_ints() {
    let cases = vec![
        (BinaryOp::Add, 10, 3, 13),
        (BinaryOp::Sub, 10, 3, 7),
        (BinaryOp::Mul, 10, 3, 30),
        (BinaryOp::Div, 10, 3, 3),
        (BinaryOp::BitAnd, 12, 10, 8),
        (BinaryOp::BitOr, 12, 10, 14),
    ];
    for (op, a, b, expected) in cases {
        let e = Expr::new_bin_op(
            Box::new(Expr::Leaf(Value::Int(a))),
            Box::new(Expr::Leaf(Value::Int(b))),
            op,
        );
        assert_eq!(e.execute(), Ok(Value::Int(expected)));
    }
}

#[test]
fn comparison_operators_on_ints() {
    let cases = vec![
        (BinaryOp::Lt, 2, 3, true),
        (BinaryOp::Le, 3, 3, true),
        (BinaryOp::Gt, 2, 3, false),
        (BinaryOp::Ge, 2, 3, false),
        (BinaryOp::Eq, 3, 3, true),
        (BinaryOp::Eq, 2, 3, false),
    ];
    for (op, a, b, expected) in cases {
        let e = Expr::new_bin_op(
            Box::new(Expr::Leaf(Value::Int(a))),
            Box::new(Expr::Leaf(Value::Int(b))),
            op,
        );
        assert_eq!(e.execute(), Ok(Value::Bool(expected)));
    }
}

#[test]
fn addition_wraps_on_overflow() {
    let e = Expr::new_bin_op(
        Box::new(Expr::Leaf(Value::Int(i64::MAX))),
        Box::new(Expr::Leaf(Value::Int(1))),
        BinaryOp::Add,
    );
    assert_eq!(e.execute(), Ok(Value::Int(i64::MIN)));
}

#[test]
fn division_by_zero_fails() {
    for a in [0i64, 1, -7, i64::MAX, i64::MIN] {
        let e = Expr::new_bin_op(
            Box::new(Expr::Leaf(Value::Int(a))),
            Box::new(Expr::Leaf(Value::Int(0))),
            BinaryOp::Div,
        );
        assert_eq!(e.execute(), Err(EvalError::DivisionByZero));
    }
}

#[test]
fn division_truncates_toward_zero() {
    let e = Expr::new_bin_op(
        Box::new(Expr::Leaf(Value::Int(-7))),
        Box::new(Expr::Leaf(Value::Int(2))),
        BinaryOp::Div,
    );
    assert_eq!(e.execute(), Ok(Value::Int(-3)));
}

#[test]
fn mixed_operands_fail_with_type_mismatch() {
    let ops = vec![
        BinaryOp::Add,
        BinaryOp::Sub,
        BinaryOp::Mul,
        BinaryOp::Div,
        BinaryOp::BitAnd,
        BinaryOp::BitOr,
        BinaryOp::Lt,
        BinaryOp::Le,
        BinaryOp::Gt,
        BinaryOp::Ge,
        BinaryOp::Eq,
        BinaryOp::And,
        BinaryOp::Or,
    ];
    for op in ops {
        let e = Expr::new_bin_op(
            Box::new(Expr::Leaf(Value::Int(1))),
            Box::new(Expr::Leaf(Value::Bool(true))),
            op,
        );
        match e.execute() {
            Err(EvalError::TypeMismatch { .. }) => (),
            other => panic!("expected a type mismatch, got {:?}", other),
        }
    }
}

#[test]
fn if_true_skips_failing_else_branch() {
    let div_by_zero = Expr::new_bin_op(
        Box::new(Expr::Leaf(Value::Int(1))),
        Box::new(Expr::Leaf(Value::Int(0))),
        BinaryOp::Div,
    );
    let e = Expr::If {
        cond: Box::new(Expr::Leaf(Value::Bool(true))),
        then_branch: Box::new(Expr::Leaf(Value::Int(5))),
        else_branch: Box::new(div_by_zero),
    };
    assert_eq!(e.execute(), Ok(Value::Int(5)));
}

#[test]
fn if_false_takes_else_branch() {
    let e = Expr::If {
        cond: Box::new(Expr::Leaf(Value::Bool(false))),
        then_branch: Box::new(Expr::Leaf(Value::Int(5))),
        else_branch: Box::new(Expr::Leaf(Value::Int(6))),
    };
    assert_eq!(e.execute(), Ok(Value::Int(6)));
}

#[test]
fn if_condition_must_be_boolean() {
    let e = Expr::If {
        cond: Box::new(Expr::Leaf(Value::Int(1))),
        then_branch: Box::new(Expr::Leaf(Value::Int(5))),
        else_branch: Box::new(Expr::Leaf(Value::Int(6))),
    };
    match e.execute() {
        Err(EvalError::TypeMismatch { .. }) => (),
        other => panic!("expected a type mismatch, got {:?}", other),
    }
}

#[test]
fn undefined_variable_fails() {
    let prog = Program::new(Expr::Leaf(Value::Var("x".to_string())));
    assert_eq!(
        prog.exec(),
        Err(EvalError::UndefinedVariable("x".to_string()))
    );
}

#[test]
fn unbound_variable_fails() {
    let mut prog = Program::new(Expr::Leaf(Value::Var("x".to_string())));
    prog.add_var("x".to_string(), None);
    assert_eq!(prog.exec(), Err(EvalError::UnboundVariable("x".to_string())));
}

#[test]
fn bound_variable_resolves() {
    let root = Expr::new_bin_op(
        Box::new(Expr::Leaf(Value::Var("x".to_string()))),
        Box::new(Expr::Leaf(Value::Int(1))),
        BinaryOp::Add,
    );
    let mut prog = Program::new(root);
    prog.add_var("x".to_string(), Some(Expr::Leaf(Value::Int(7))));
    assert_eq!(prog.exec(), Ok(Value::Int(8)));
}

#[test]
fn later_binding_replaces_earlier_one() {
    let mut prog = Program::new(Expr::Leaf(Value::Var("x".to_string())));
    prog.add_var("x".to_string(), Some(Expr::Leaf(Value::Int(1))));
    prog.add_var("x".to_string(), Some(Expr::Leaf(Value::Int(2))));
    assert_eq!(prog.exec(), Ok(Value::Int(2)));
}

#[test]
fn self_referential_binding_exceeds_depth() {
    let mut prog = Program::new(Expr::Leaf(Value::Var("x".to_string())));
    prog.add_var("x".to_string(), Some(Expr::Leaf(Value::Var("x".to_string()))));
    assert_eq!(prog.exec(), Err(EvalError::DepthExceeded));
}

#[test]
fn apply_calls_a_function() {
    let body = Expr::new_bin_op(
        Box::new(Expr::Leaf(Value::Var("x".to_string()))),
        Box::new(Expr::Leaf(Value::Int(1))),
        BinaryOp::Add,
    );
    let func = Expr::Func {
        param: "x".to_string(),
        body: Box::new(body),
    };
    let e = Expr::Apply {
        func: Box::new(func),
        arg: Box::new(Expr::Leaf(Value::Int(41))),
    };
    assert_eq!(e.execute(), Ok(Value::Int(42)));
}

#[test]
fn apply_to_non_function_fails() {
    let e = Expr::Apply {
        func: Box::new(Expr::Leaf(Value::Int(1))),
        arg: Box::new(Expr::Leaf(Value::Int(2))),
    };
    assert_eq!(e.execute(), Err(EvalError::NotCallable));
}

#[test]
fn operator_functions_compute() {
    let two = || Value::Int(2);
    let three = || Value::Int(3);
    assert_eq!(expr_lang::program::add(two(), three()), Ok(Value::Int(5)));
    assert_eq!(expr_lang::program::sub(two(), three()), Ok(Value::Int(-1)));
    assert_eq!(expr_lang::program::mul(two(), three()), Ok(Value::Int(6)));
    assert_eq!(expr_lang::program::div(three(), two()), Ok(Value::Int(1)));
    assert_eq!(
        expr_lang::program::div(two(), Value::Int(0)),
        Err(EvalError::DivisionByZero)
    );
    assert_eq!(
        expr_lang::program::bitwise_and(Value::Int(12), Value::Int(10)),
        Ok(Value::Int(8))
    );
    assert_eq!(
        expr_lang::program::bitwise_or(Value::Int(12), Value::Int(10)),
        Ok(Value::Int(14))
    );
    assert_eq!(expr_lang::program::lt(two(), three()), Ok(Value::Bool(true)));
    assert_eq!(expr_lang::program::le(two(), two()), Ok(Value::Bool(true)));
    assert_eq!(expr_lang::program::gt(two(), three()), Ok(Value::Bool(false)));
    assert_eq!(expr_lang::program::ge(two(), three()), Ok(Value::Bool(false)));
    assert_eq!(expr_lang::program::eq(two(), two()), Ok(Value::Bool(true)));
    assert_eq!(
        expr_lang::program::not(Value::Bool(true)),
        Ok(Value::Bool(false))
    );
    assert_eq!(
        expr_lang::program::logic_and(Value::Bool(true), Value::Bool(false)),
        Ok(Value::Bool(false))
    );
    assert_eq!(
        expr_lang::program::logic_or(Value::Bool(true), Value::Bool(false)),
        Ok(Value::Bool(true))
    );
}

#[test]
fn bin_eval_dispatches_logic_ops() {
    assert_eq!(
        expr_lang::program::bin_eval(Value::Bool(true), Value::Bool(true), BinaryOp::And),
        Ok(Value::Bool(true))
    );
    assert_eq!(
        expr_lang::program::bin_eval(Value::Int(2), Value::Int(3), BinaryOp::Add),
        Ok(Value::Int(5))
    );
}

#[test]
fn unary_logic_eval_rejects_ints() {
    match expr_lang::program::unary_logic_eval(Value::Int(3), UnaryOp::Not) {
        Err(EvalError::TypeMismatch { .. }) => (),
        other => panic!("expected a type mismatch, got {:?}", other),
    }
}
