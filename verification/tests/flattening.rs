use leo_passes::expression::{
    AccessExpression, AssociatedFunction, BinaryExpression, BinaryOperation, CallExpression,
    ErrExpression, Expression, Identifier, LiteralExpression, MemberAccess, StructExpression,
    StructMember, TernaryExpression, TupleExpression, UnaryExpression, UnaryOperation,
};
use leo_passes::flattening::evaluate;
use leo_passes::program::{Finalize, Function, Import, Imports, Program, ProgramScope};
use leo_passes::reconstructor::{
    reconstruct_block, reconstruct_expression, reconstruct_expressions, reconstruct_program,
    reconstruct_statement,
};
use leo_passes::statement::{
    AssignOperation, AssignStatement, Block, ConditionalStatement, ConsoleArgs, ConsoleFunction,
    ConsoleStatement, DeclarationType, DecrementStatement, DefinitionStatement, FinalizeStatement,
    IncrementStatement, IterationStatement, ReturnStatement, Statement,
};
use leo_passes::{
    Declaration, Diagnostic, DiagnosticKind, EvalError, EvalErrorKind, Flattener, Handler,
    IntegerType, List, Numeral, Span, Symbol, SymbolTable, Type, Value, VariableSymbol,
};

fn span(n: u32) -> Span {
    Span::new(n, n + 1)
}

fn u8_literal(value: u128, at: u32) -> Expression {
    Expression::Literal(LiteralExpression::Integer(
        IntegerType::U8,
        Numeral::natural(value),
        span(at),
    ))
}

fn i8_literal(value: i128, at: u32) -> Expression {
    Expression::Literal(LiteralExpression::Integer(
        IntegerType::I8,
        Numeral::integer(value),
        span(at),
    ))
}

fn field_literal(text: u32, at: u32) -> Expression {
    Expression::Literal(LiteralExpression::Field(Symbol::new(text), span(at)))
}

fn boolean(value: bool, at: u32) -> Expression {
    Expression::Literal(LiteralExpression::Boolean(value, span(at)))
}

fn name(id: u32, at: u32) -> Expression {
    Expression::Identifier(Identifier { name: Symbol::new(id), span: span(at) })
}

fn binary(left: Expression, op: BinaryOperation, right: Expression, at: u32) -> Expression {
    Expression::Binary(BinaryExpression {
        left: Box::new(left),
        right: Box::new(right),
        op,
        span: span(at),
    })
}

fn unary(op: UnaryOperation, receiver: Expression, at: u32) -> Expression {
    Expression::Unary(UnaryExpression { receiver: Box::new(receiver), op, span: span(at) })
}

fn pass() -> Flattener {
    Flattener::new(SymbolTable::new(), Handler::new())
}

fn flatten(input: &Expression) -> (Expression, Option<Value>, Vec<Diagnostic>) {
    let mut flattener = pass();
    let (output, value) = reconstruct_expression(&mut flattener, input);
    let (_, handler) = flattener.finish();
    (output, value, handler.diagnostics())
}

fn evaluation(kind: EvalErrorKind, at: u32) -> Diagnostic {
    Diagnostic { kind: DiagnosticKind::Evaluation(kind), span: span(at) }
}

#[test]
fn constant_binary_expression_is_replaced_by_its_literal() {
    let input = binary(u8_literal(2, 1), BinaryOperation::Add, u8_literal(3, 2), 9);
    let (output, value, diagnostics) = flatten(&input);
    assert_eq!(output, u8_literal(5, 9));
    assert_eq!(value, Some(Value::U8(5, span(9))));
    assert!(diagnostics.is_empty());
    assert!(!matches!(output, Expression::Binary(_)));
}

#[test]
fn checked_overflow_is_reported_and_the_node_stays() {
    let input = binary(u8_literal(255, 1), BinaryOperation::Add, u8_literal(1, 2), 9);
    let (output, value, diagnostics) = flatten(&input);
    assert_eq!(output, input);
    assert_eq!(value, None);
    assert_eq!(diagnostics, vec![evaluation(EvalErrorKind::Overflow, 9)]);
}

#[test]
fn wrapped_overflow_folds_to_the_wrapped_value() {
    let input = binary(u8_literal(255, 1), BinaryOperation::AddWrapped, u8_literal(1, 2), 9);
    let (output, value, diagnostics) = flatten(&input);
    assert_eq!(output, u8_literal(0, 9));
    assert_eq!(value, Some(Value::U8(0, span(9))));
    assert!(diagnostics.is_empty());
}

#[test]
fn operands_of_unfoldable_kinds_stay_whatever_the_operator() {
    let operators = [
        BinaryOperation::Add,
        BinaryOperation::Mul,
        BinaryOperation::Eq,
        BinaryOperation::Neq,
        BinaryOperation::Nand,
        BinaryOperation::Nor,
        BinaryOperation::Pow,
        BinaryOperation::Shl,
        BinaryOperation::Xor,
        BinaryOperation::SubWrapped,
    ];
    for op in operators {
        let input = binary(field_literal(1, 1), op, field_literal(2, 2), 9);
        let (output, value, diagnostics) = flatten(&input);
        assert_eq!(output, input);
        assert_eq!(value, None);
        assert!(diagnostics.is_empty());
    }
}

#[test]
fn one_foldable_operand_makes_the_operation_run() {
    let input = binary(u8_literal(1, 1), BinaryOperation::Add, field_literal(2, 2), 9);
    let (output, value, diagnostics) = flatten(&input);
    assert_eq!(output, input);
    assert_eq!(value, None);
    assert_eq!(diagnostics, vec![evaluation(EvalErrorKind::TypeMismatch, 9)]);
}

#[test]
fn unary_folding_keeps_the_node() {
    let input = unary(UnaryOperation::Not, boolean(true, 1), 9);
    let (output, value, diagnostics) = flatten(&input);
    assert_eq!(output, unary(UnaryOperation::Not, boolean(true, 1), 9));
    assert!(matches!(output, Expression::Unary(_)));
    assert_eq!(value, Some(Value::Boolean(false, span(9))));
    assert!(diagnostics.is_empty());
}

#[test]
fn unary_receiver_is_replaced_by_its_reconstruction() {
    let sum = binary(i8_literal(2, 1), BinaryOperation::Add, i8_literal(3, 2), 5);
    let input = unary(UnaryOperation::Negate, sum, 9);
    let (output, value, diagnostics) = flatten(&input);
    assert_eq!(output, unary(UnaryOperation::Negate, i8_literal(5, 5), 9));
    assert_eq!(value, Some(Value::I8(-5, span(9))));
    assert!(diagnostics.is_empty());
}

#[test]
fn failed_unary_operation_is_reported_and_the_node_stays() {
    let least = binary(i8_literal(-127, 1), BinaryOperation::Sub, i8_literal(1, 2), 5);
    let input = unary(UnaryOperation::Negate, least, 9);
    let (output, value, diagnostics) = flatten(&input);
    assert_eq!(output, input);
    assert_eq!(value, None);
    assert_eq!(diagnostics, vec![evaluation(EvalErrorKind::Overflow, 9)]);
}

#[test]
fn unary_on_unfoldable_or_unknown_operand_folds_nothing() {
    let input = unary(UnaryOperation::Not, field_literal(1, 1), 9);
    let (output, value, diagnostics) = flatten(&input);
    assert_eq!(output, input);
    assert_eq!(value, None);
    assert!(diagnostics.is_empty());

    let input = unary(UnaryOperation::Negate, name(7, 1), 9);
    let (output, value, diagnostics) = flatten(&input);
    assert_eq!(output, input);
    assert_eq!(value, None);
    assert!(diagnostics.is_empty());
}

#[test]
fn nested_constants_fold_to_one_literal() {
    let sum = binary(u8_literal(2, 1), BinaryOperation::Add, u8_literal(3, 2), 5);
    let input = binary(sum, BinaryOperation::Mul, u8_literal(4, 3), 9);
    let (output, value, diagnostics) = flatten(&input);
    assert_eq!(output, u8_literal(20, 9));
    assert_eq!(value, Some(Value::U8(20, span(9))));
    assert!(diagnostics.is_empty());
}

#[test]
fn binary_with_an_unknown_operand_stays_as_it_was() {
    let sum = binary(u8_literal(2, 1), BinaryOperation::Add, u8_literal(3, 2), 5);
    let input = binary(sum, BinaryOperation::Mul, name(7, 3), 9);
    let (output, value, diagnostics) = flatten(&input);
    assert_eq!(output, input);
    assert_eq!(value, None);
    assert!(diagnostics.is_empty());
}

#[test]
fn errors_inside_are_reported_before_errors_outside() {
    let left = binary(u8_literal(255, 1), BinaryOperation::Add, u8_literal(1, 2), 5);
    let right = binary(u8_literal(1, 3), BinaryOperation::Div, u8_literal(0, 4), 6);
    let input = binary(left, BinaryOperation::Add, right, 9);
    let (output, value, diagnostics) = flatten(&input);
    assert_eq!(output, input);
    assert_eq!(value, None);
    assert_eq!(
        diagnostics,
        vec![
            evaluation(EvalErrorKind::Overflow, 5),
            evaluation(EvalErrorKind::DivisionByZero, 6)
        ]
    );
}

#[test]
fn identifier_hands_up_the_value_of_its_constant() {
    let mut table = SymbolTable::new();
    let constant = VariableSymbol {
        type_: Type::Integer(IntegerType::U8),
        span: span(0),
        declaration: Declaration::Const(Some(Value::U8(40, span(0)))),
    };
    let variable = VariableSymbol {
        type_: Type::Integer(IntegerType::U8),
        span: span(0),
        declaration: Declaration::Mut(Some(Value::U8(2, span(0)))),
    };
    let unknown = VariableSymbol {
        type_: Type::Integer(IntegerType::U8),
        span: span(0),
        declaration: Declaration::Mut(None),
    };
    assert!(table.insert_variable(Symbol::new(1), constant).is_ok());
    assert!(table.insert_variable(Symbol::new(2), variable).is_ok());
    assert!(table.insert_variable(Symbol::new(3), unknown).is_ok());
    let mut flattener = Flattener::new(table, Handler::new());

    let (output, value) = reconstruct_expression(&mut flattener, &name(1, 4));
    assert_eq!(output, name(1, 4));
    assert_eq!(value, Some(Value::U8(40, span(0))));

    let (_, value) = reconstruct_expression(&mut flattener, &name(3, 4));
    assert_eq!(value, None);
    let (_, value) = reconstruct_expression(&mut flattener, &name(99, 4));
    assert_eq!(value, None);

    let input = binary(name(1, 4), BinaryOperation::Add, name(2, 5), 9);
    let (output, value) = reconstruct_expression(&mut flattener, &input);
    assert_eq!(output, u8_literal(42, 9));
    assert_eq!(value, Some(Value::U8(42, span(9))));
    let (table, handler) = flattener.finish();
    assert!(!handler.had_errors());
    assert_eq!(table.lookup_variable(Symbol::new(1)), Some(constant));
}

#[test]
fn literals_hand_up_their_values() {
    let cases = [
        (
            LiteralExpression::Address(Symbol::new(1), span(1)),
            Value::Address(Symbol::new(1), span(1)),
        ),
        (LiteralExpression::Boolean(true, span(2)), Value::Boolean(true, span(2))),
        (LiteralExpression::Field(Symbol::new(3), span(3)), Value::Field(Symbol::new(3), span(3))),
        (LiteralExpression::Group(Symbol::new(4), span(4)), Value::Group(Symbol::new(4), span(4))),
        (
            LiteralExpression::Scalar(Symbol::new(5), span(5)),
            Value::Scalar(Symbol::new(5), span(5)),
        ),
        (
            LiteralExpression::String(Symbol::new(6), span(6)),
            Value::String(Symbol::new(6), span(6)),
        ),
        (
            LiteralExpression::Integer(IntegerType::I64, Numeral::integer(-9), span(7)),
            Value::I64(-9, span(7)),
        ),
        (
            LiteralExpression::Integer(IntegerType::U128, Numeral::natural(u128::MAX), span(8)),
            Value::U128(u128::MAX, span(8)),
        ),
    ];
    for (literal, expected) in cases {
        let (output, value, diagnostics) = flatten(&Expression::Literal(literal));
        assert_eq!(output, Expression::Literal(literal));
        assert_eq!(value, Some(expected));
        assert!(diagnostics.is_empty());
        assert_eq!(Value::from_literal(literal), Ok(expected));
        assert_eq!(expected.to_literal(), literal);
    }
}

#[test]
fn literal_that_does_not_fit_its_type_is_reported() {
    let input = u8_literal(256, 3);
    let (output, value, diagnostics) = flatten(&input);
    assert_eq!(output, input);
    assert_eq!(value, None);
    assert_eq!(diagnostics, vec![evaluation(EvalErrorKind::Overflow, 3)]);
    assert_eq!(
        Value::from_literal(LiteralExpression::Integer(
            IntegerType::I8,
            Numeral::natural(128),
            span(3)
        )),
        Err(EvalError { kind: EvalErrorKind::Overflow, span: span(3) })
    );
}

#[test]
fn negative_results_are_spelled_with_a_sign() {
    let input = binary(i8_literal(3, 1), BinaryOperation::Sub, i8_literal(5, 2), 9);
    let (output, value, _) = flatten(&input);
    assert_eq!(
        output,
        Expression::Literal(LiteralExpression::Integer(
            IntegerType::I8,
            Numeral { negative: true, magnitude: 2 },
            span(9)
        ))
    );
    assert_eq!(value, Some(Value::I8(-2, span(9))));
}

#[test]
fn every_operator_is_dispatched() {
    let at = span(9);
    let a = Value::U8(12, span(1));
    let b = Value::U8(10, span(2));
    let yes = Value::Boolean(true, span(1));
    let no = Value::Boolean(false, span(2));
    let ok = |value: u8| Ok(Value::U8(value, at));
    let truth = |value: bool| Ok(Value::Boolean(value, at));
    assert_eq!(evaluate(BinaryOperation::Add, a, b, at), ok(22));
    assert_eq!(evaluate(BinaryOperation::AddWrapped, Value::U8(250, at), b, at), ok(4));
    assert_eq!(evaluate(BinaryOperation::And, yes, no, at), truth(false));
    assert_eq!(evaluate(BinaryOperation::BitwiseAnd, a, b, at), ok(8));
    assert_eq!(evaluate(BinaryOperation::Div, a, b, at), ok(1));
    assert_eq!(evaluate(BinaryOperation::DivWrapped, a, b, at), ok(1));
    assert_eq!(evaluate(BinaryOperation::Eq, a, b, at), truth(false));
    assert_eq!(evaluate(BinaryOperation::Ge, a, b, at), truth(true));
    assert_eq!(evaluate(BinaryOperation::Gt, a, b, at), truth(true));
    assert_eq!(evaluate(BinaryOperation::Le, a, b, at), truth(false));
    assert_eq!(evaluate(BinaryOperation::Lt, a, b, at), truth(false));
    assert_eq!(evaluate(BinaryOperation::Mul, a, b, at), ok(120));
    assert_eq!(evaluate(BinaryOperation::MulWrapped, Value::U8(100, at), b, at), ok(232));
    assert_eq!(evaluate(BinaryOperation::Nand, yes, no, at), truth(true));
    assert_eq!(evaluate(BinaryOperation::Nand, yes, yes, at), truth(false));
    assert_eq!(evaluate(BinaryOperation::Nand, a, b, at), ok(!8));
    assert_eq!(evaluate(BinaryOperation::Neq, a, b, at), truth(true));
    assert_eq!(evaluate(BinaryOperation::Neq, a, a, at), truth(false));
    assert_eq!(evaluate(BinaryOperation::Or, yes, no, at), truth(true));
    assert_eq!(evaluate(BinaryOperation::BitwiseOr, a, b, at), ok(14));
    assert_eq!(evaluate(BinaryOperation::Pow, Value::U8(2, at), Value::U8(5, at), at), ok(32));
    assert_eq!(evaluate(BinaryOperation::PowWrapped, a, b, at), ok(0));
    assert_eq!(evaluate(BinaryOperation::Shl, a, Value::U8(2, at), at), ok(48));
    assert_eq!(evaluate(BinaryOperation::ShlWrapped, a, b, at), ok(48));
    assert_eq!(evaluate(BinaryOperation::Shr, a, Value::U8(2, at), at), ok(3));
    assert_eq!(evaluate(BinaryOperation::ShrWrapped, a, b, at), ok(3));
    assert_eq!(evaluate(BinaryOperation::Sub, a, b, at), ok(2));
    assert_eq!(evaluate(BinaryOperation::SubWrapped, b, a, at), ok(254));
    assert_eq!(evaluate(BinaryOperation::Xor, a, b, at), ok(6));
}

#[test]
fn nor_is_the_complement_of_the_conjunction() {
    let at = span(9);
    let yes = Value::Boolean(true, at);
    let no = Value::Boolean(false, at);
    assert_eq!(evaluate(BinaryOperation::Nor, no, no, at), Ok(Value::Boolean(true, at)));
    assert_eq!(evaluate(BinaryOperation::Nor, yes, no, at), Ok(Value::Boolean(true, at)));
    assert_eq!(evaluate(BinaryOperation::Nor, yes, yes, at), Ok(Value::Boolean(false, at)));
    assert_eq!(
        evaluate(BinaryOperation::Nor, yes, Value::U8(1, at), at),
        Err(EvalError { kind: EvalErrorKind::TypeMismatch, span: at })
    );
    assert_eq!(
        evaluate(BinaryOperation::Neq, yes, Value::U8(1, at), at),
        Err(EvalError { kind: EvalErrorKind::TypeMismatch, span: at })
    );
}

#[test]
fn comparison_folds_to_a_boolean_literal() {
    let input = binary(u8_literal(2, 1), BinaryOperation::Lt, u8_literal(3, 2), 9);
    let (output, value, diagnostics) = flatten(&input);
    assert_eq!(output, boolean(true, 9));
    assert_eq!(value, Some(Value::Boolean(true, span(9))));
    assert!(diagnostics.is_empty());
}

#[test]
fn call_keeps_its_callee_and_folds_its_arguments() {
    let callee = binary(u8_literal(255, 1), BinaryOperation::Add, u8_literal(1, 2), 3);
    let argument = binary(u8_literal(2, 4), BinaryOperation::Add, u8_literal(3, 5), 6);
    let failing = binary(u8_literal(1, 7), BinaryOperation::Div, u8_literal(0, 8), 10);
    let input = Expression::Call(CallExpression {
        function: Box::new(callee),
        arguments: List::from_vec(vec![argument, name(7, 11), failing]),
        span: span(12),
    });
    let (output, value, diagnostics) = flatten(&input);
    let callee = binary(u8_literal(255, 1), BinaryOperation::Add, u8_literal(1, 2), 3);
    let failing = binary(u8_literal(1, 7), BinaryOperation::Div, u8_literal(0, 8), 10);
    assert_eq!(
        output,
        Expression::Call(CallExpression {
            function: Box::new(callee),
            arguments: List::from_vec(vec![u8_literal(5, 6), name(7, 11), failing]),
            span: span(12),
        })
    );
    assert_eq!(value, None);
    assert_eq!(diagnostics, vec![evaluation(EvalErrorKind::DivisionByZero, 10)]);
}

#[test]
fn other_expressions_are_rebuilt_from_their_parts() {
    let sum = |at: u32| binary(u8_literal(2, 1), BinaryOperation::Add, u8_literal(3, 2), at);
    let ternary = Expression::Ternary(TernaryExpression {
        condition: Box::new(binary(u8_literal(1, 1), BinaryOperation::Eq, u8_literal(1, 2), 3)),
        if_true: Box::new(sum(4)),
        if_false: Box::new(name(7, 5)),
        span: span(9),
    });
    let (output, value, diagnostics) = flatten(&ternary);
    assert_eq!(
        output,
        Expression::Ternary(TernaryExpression {
            condition: Box::new(boolean(true, 3)),
            if_true: Box::new(u8_literal(5, 4)),
            if_false: Box::new(name(7, 5)),
            span: span(9),
        })
    );
    assert_eq!(value, None);
    assert!(diagnostics.is_empty());

    let tuple = Expression::Tuple(TupleExpression {
        elements: List::from_vec(vec![sum(4), sum(5)]),
        span: span(9),
    });
    let (output, value, _) = flatten(&tuple);
    assert_eq!(
        output,
        Expression::Tuple(TupleExpression {
            elements: List::from_vec(vec![u8_literal(5, 4), u8_literal(5, 5)]),
            span: span(9),
        })
    );
    assert_eq!(value, None);

    let member = Expression::Access(AccessExpression::Member(MemberAccess {
        inner: Box::new(sum(4)),
        name: Identifier { name: Symbol::new(3), span: span(5) },
        span: span(9),
    }));
    let (output, _, _) = flatten(&member);
    assert_eq!(
        output,
        Expression::Access(AccessExpression::Member(MemberAccess {
            inner: Box::new(u8_literal(5, 4)),
            name: Identifier { name: Symbol::new(3), span: span(5) },
            span: span(9),
        }))
    );

    let function = Expression::Access(AccessExpression::AssociatedFunction(AssociatedFunction {
        ty: Type::Field,
        name: Identifier { name: Symbol::new(3), span: span(5) },
        args: List::from_vec(vec![sum(4)]),
        span: span(9),
    }));
    let (output, _, _) = flatten(&function);
    assert_eq!(
        output,
        Expression::Access(AccessExpression::AssociatedFunction(AssociatedFunction {
            ty: Type::Field,
            name: Identifier { name: Symbol::new(3), span: span(5) },
            args: List::from_vec(vec![u8_literal(5, 4)]),
            span: span(9),
        }))
    );
}

#[test]
fn struct_literals_and_error_nodes_pass_through() {
    let literal = || {
        Expression::Struct(StructExpression {
            name: Identifier { name: Symbol::new(1), span: span(1) },
            members: List::from_vec(vec![
                StructMember {
                    identifier: Identifier { name: Symbol::new(2), span: span(2) },
                    expression: Some(Box::new(binary(
                        u8_literal(2, 3),
                        BinaryOperation::Add,
                        u8_literal(3, 4),
                        5,
                    ))),
                },
                StructMember {
                    identifier: Identifier { name: Symbol::new(3), span: span(6) },
                    expression: None,
                },
            ]),
            span: span(9),
        })
    };
    let (output, value, diagnostics) = flatten(&literal());
    assert_eq!(output, literal());
    assert_eq!(value, None);
    assert!(diagnostics.is_empty());

    let err = Expression::Error(ErrExpression { span: span(4) });
    let (output, value, diagnostics) = flatten(&err);
    assert_eq!(output, Expression::Error(ErrExpression { span: span(4) }));
    assert_eq!(value, None);
    assert!(diagnostics.is_empty());
}

#[test]
fn duplicate_gives_an_equal_expression() {
    let input = Expression::Call(CallExpression {
        function: Box::new(name(1, 1)),
        arguments: List::from_vec(vec![
            binary(u8_literal(2, 4), BinaryOperation::Add, name(3, 5), 6),
            unary(UnaryOperation::Not, boolean(true, 7), 8),
        ]),
        span: span(12),
    });
    assert_eq!(input.duplicate(), input);
}

#[test]
fn lists_of_expressions_are_folded_in_order() {
    let mut flattener = pass();
    let inputs = List::from_vec(vec![
        binary(u8_literal(1, 1), BinaryOperation::Div, u8_literal(0, 2), 3),
        binary(u8_literal(2, 4), BinaryOperation::Add, u8_literal(3, 5), 6),
        binary(u8_literal(200, 7), BinaryOperation::Mul, u8_literal(2, 8), 9),
    ]);
    let outputs = reconstruct_expressions(&mut flattener, &inputs);
    assert_eq!(
        outputs,
        List::from_vec(vec![
            binary(u8_literal(1, 1), BinaryOperation::Div, u8_literal(0, 2), 3),
            u8_literal(5, 6),
            binary(u8_literal(200, 7), BinaryOperation::Mul, u8_literal(2, 8), 9),
        ])
    );
    let (_, handler) = flattener.finish();
    assert_eq!(
        handler.diagnostics(),
        vec![evaluation(EvalErrorKind::DivisionByZero, 3), evaluation(EvalErrorKind::Overflow, 9)]
    );
}

fn sum(at: u32) -> Expression {
    binary(u8_literal(2, 1), BinaryOperation::Add, u8_literal(3, 2), at)
}

fn block(statements: Vec<Statement>, at: u32) -> Block {
    Block { statements: List::from_vec(statements), span: span(at) }
}

fn every_statement(value: fn(u32) -> Expression) -> Vec<Statement> {
    vec![
        Statement::Definition(DefinitionStatement {
            declaration_type: DeclarationType::Const,
            variable_name: Identifier { name: Symbol::new(1), span: span(1) },
            type_: Type::Integer(IntegerType::U8),
            value: value(10),
            span: span(11),
        }),
        Statement::Assign(Box::new(AssignStatement {
            operation: AssignOperation::Add,
            place: Identifier { name: Symbol::new(1), span: span(1) },
            value: value(12),
            span: span(13),
        })),
        Statement::Conditional(ConditionalStatement {
            condition: value(14),
            block: block(
                vec![Statement::Return(ReturnStatement { expression: value(15), span: span(16) })],
                17,
            ),
            next: Some(Box::new(Statement::Block(block(
                vec![Statement::Return(ReturnStatement { expression: value(18), span: span(19) })],
                20,
            )))),
            span: span(21),
        }),
        Statement::Iteration(Box::new(IterationStatement {
            variable: Identifier { name: Symbol::new(2), span: span(2) },
            type_: Type::Integer(IntegerType::U8),
            start: value(22),
            stop: value(23),
            inclusive: false,
            block: block(
                vec![Statement::Console(ConsoleStatement {
                    function: ConsoleFunction::Assert(value(24)),
                    span: span(25),
                })],
                26,
            ),
            span: span(27),
        })),
        Statement::Console(ConsoleStatement {
            function: ConsoleFunction::AssertEq(value(28), value(29)),
            span: span(30),
        }),
        Statement::Console(ConsoleStatement {
            function: ConsoleFunction::AssertNeq(value(31), value(32)),
            span: span(33),
        }),
        Statement::Console(ConsoleStatement {
            function: ConsoleFunction::Error(ConsoleArgs {
                string: Symbol::new(5),
                parameters: List::from_vec(vec![value(34), value(35)]),
                span: span(36),
            }),
            span: span(37),
        }),
        Statement::Console(ConsoleStatement {
            function: ConsoleFunction::Log(ConsoleArgs {
                string: Symbol::new(5),
                parameters: List::from_vec(vec![value(38)]),
                span: span(39),
            }),
            span: span(40),
        }),
        Statement::Decrement(DecrementStatement {
            mapping: Identifier { name: Symbol::new(3), span: span(3) },
            index: value(41),
            amount: value(42),
            span: span(43),
        }),
        Statement::Increment(IncrementStatement {
            mapping: Identifier { name: Symbol::new(3), span: span(3) },
            index: value(44),
            amount: value(45),
            span: span(46),
        }),
        Statement::Finalize(FinalizeStatement {
            arguments: List::from_vec(vec![value(47), value(48)]),
            span: span(49),
        }),
        Statement::Return(ReturnStatement { expression: value(50), span: span(51) }),
    ]
}

fn folded(at: u32) -> Expression {
    u8_literal(5, at)
}

#[test]
fn statements_keep_their_shape_and_fold_their_expressions() {
    let mut flattener = pass();
    let output = reconstruct_block(&mut flattener, block(every_statement(sum), 60));
    assert_eq!(output, block(every_statement(folded), 60));
    let (_, handler) = flattener.finish();
    assert!(!handler.had_errors());
}

#[test]
fn statement_of_a_block_is_the_reconstructed_block() {
    let mut flattener = pass();
    let input = Statement::Block(block(
        vec![Statement::Return(ReturnStatement { expression: sum(1), span: span(2) })],
        3,
    ));
    let output = reconstruct_statement(&mut flattener, input);
    assert_eq!(
        output,
        Statement::Block(block(
            vec![Statement::Return(ReturnStatement { expression: folded(1), span: span(2) })],
            3,
        ))
    );
}

fn function(name: u32, value: fn(u32) -> Expression, finalize: bool) -> Function {
    Function {
        identifier: Identifier { name: Symbol::new(name), span: span(1) },
        input: List::new(),
        output: Type::Integer(IntegerType::U8),
        core_mapping: None,
        block: block(
            vec![Statement::Return(ReturnStatement { expression: value(2), span: span(3) })],
            4,
        ),
        finalize: if finalize {
            Some(Finalize {
                input: List::new(),
                output: Type::Boolean,
                block: block(
                    vec![Statement::Return(ReturnStatement {
                        expression: value(5),
                        span: span(6),
                    })],
                    7,
                ),
                span: span(8),
            })
        } else {
            None
        },
        span: span(9),
    }
}

fn program(value: fn(u32) -> Expression) -> Program {
    Program {
        name: Symbol::new(100),
        imports: Imports::Cons(
            Box::new(Import {
                name: Symbol::new(101),
                program: Program {
                    name: Symbol::new(101),
                    imports: Imports::Nil,
                    program_scopes: List::from_vec(vec![ProgramScope {
                        name: Symbol::new(101),
                        structs: List::new(),
                        mappings: List::new(),
                        functions: List::from_vec(vec![function(1, sum, false)]),
                        span: span(10),
                    }]),
                },
            }),
            Box::new(Imports::Nil),
        ),
        program_scopes: List::from_vec(vec![ProgramScope {
            name: Symbol::new(100),
            structs: List::new(),
            mappings: List::new(),
            functions: List::from_vec(vec![function(1, value, true), function(2, value, false)]),
            span: span(11),
        }]),
    }
}

#[test]
fn programs_fold_their_functions_and_keep_their_imports() {
    let mut flattener = pass();
    let output = reconstruct_program(&mut flattener, program(sum));
    assert_eq!(output, program(folded));
    let (_, handler) = flattener.finish();
    assert!(!handler.had_errors());
}
