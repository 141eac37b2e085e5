use leo_passes::expression::{
    AccessExpression, BinaryExpression, BinaryOperation, CallExpression, Expression, Identifier,
    LiteralExpression, TupleAccess,
};
use leo_passes::program::{Function, Imports, Program, ProgramScope};
use leo_passes::reconstructor::{
    reconstruct_block, reconstruct_expression, reconstruct_function, reconstruct_program,
};
use leo_passes::statement::{
    Block, ConditionalStatement, ConsoleArgs, ConsoleFunction, ConsoleStatement, DeclarationType,
    DefinitionStatement, ReturnStatement, Statement,
};
use leo_passes::{Identity, IntegerType, List, Numeral, Span, Symbol, Type};

fn span(n: u32) -> Span {
    Span::new(n, n + 1)
}

fn sum() -> Expression {
    Expression::Binary(BinaryExpression {
        left: Box::new(Expression::Literal(LiteralExpression::Integer(
            IntegerType::U8,
            Numeral::natural(255),
            span(1),
        ))),
        right: Box::new(Expression::Call(CallExpression {
            function: Box::new(Expression::Identifier(Identifier {
                name: Symbol::new(1),
                span: span(2),
            })),
            arguments: List::from_vec(vec![Expression::Access(AccessExpression::Tuple(
                TupleAccess {
                    tuple: Box::new(Expression::Identifier(Identifier {
                        name: Symbol::new(2),
                        span: span(3),
                    })),
                    index: 1,
                    span: span(4),
                },
            ))]),
            span: span(5),
        })),
        op: BinaryOperation::Add,
        span: span(6),
    })
}

fn body() -> Block {
    Block {
        statements: List::from_vec(vec![
            Statement::Definition(DefinitionStatement {
                declaration_type: DeclarationType::Let,
                variable_name: Identifier { name: Symbol::new(3), span: span(7) },
                type_: Type::Integer(IntegerType::U8),
                value: sum(),
                span: span(8),
            }),
            Statement::Conditional(ConditionalStatement {
                condition: sum(),
                block: Block {
                    statements: List::from_vec(vec![Statement::Console(ConsoleStatement {
                        function: ConsoleFunction::Log(ConsoleArgs {
                            string: Symbol::new(4),
                            parameters: List::from_vec(vec![sum(), sum()]),
                            span: span(9),
                        }),
                        span: span(10),
                    })]),
                    span: span(11),
                },
                next: None,
                span: span(12),
            }),
            Statement::Return(ReturnStatement { expression: sum(), span: span(13) }),
        ]),
        span: span(14),
    }
}

fn function() -> Function {
    Function {
        identifier: Identifier { name: Symbol::new(5), span: span(15) },
        input: List::new(),
        output: Type::Integer(IntegerType::U8),
        core_mapping: Some(Symbol::new(6)),
        block: body(),
        finalize: None,
        span: span(16),
    }
}

#[test]
fn identity_reconstructs_every_tree_to_itself() {
    let mut pass = Identity;
    assert_eq!(reconstruct_expression(&mut pass, &sum()), (sum(), ()));
    assert_eq!(reconstruct_block(&mut pass, body()), body());
    assert_eq!(reconstruct_function(&mut pass, function()), function());
    let program = || Program {
        name: Symbol::new(7),
        imports: Imports::Nil,
        program_scopes: List::from_vec(vec![ProgramScope {
            name: Symbol::new(7),
            structs: List::new(),
            mappings: List::new(),
            functions: List::from_vec(vec![function(), function()]),
            span: span(17),
        }]),
    };
    assert_eq!(reconstruct_program(&mut pass, program()), program());
}
