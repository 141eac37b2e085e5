use leo_passes::diagnostics::{EVALUATION_BASE, TYPE_CHECKER_BASE};
use leo_passes::{
    Declaration, Diagnostic, DiagnosticKind, EvalError, EvalErrorKind, FunctionSymbol, Handler,
    IntegerType, List, ParamMode, Span, Symbol, SymbolKind, SymbolTable, Type, VariableSymbol,
};

fn span(n: u32) -> Span {
    Span::new(n, n + 1)
}

fn variable(at: u32) -> VariableSymbol {
    VariableSymbol {
        type_: Type::Integer(IntegerType::U8),
        span: span(at),
        declaration: Declaration::Mut(None),
    }
}

#[test]
fn lookup_finds_the_nearest_binding() {
    let mut table = SymbolTable::new();
    let x = Symbol::new(1);
    let y = Symbol::new(2);
    assert_eq!(table.lookup_variable(x), None);
    assert_eq!(table.insert_variable(x, variable(1)), Ok(()));
    assert_eq!(table.insert_variable(y, variable(2)), Ok(()));
    table.push_variable_scope();
    assert_eq!(table.lookup_variable(x), Some(variable(1)));
    assert_eq!(table.insert_variable(x, variable(3)), Ok(()));
    table.push_variable_scope();
    assert_eq!(table.lookup_variable(x), Some(variable(3)));
    assert_eq!(table.lookup_variable(y), Some(variable(2)));
    table.pop_variable_scope();
    table.pop_variable_scope();
    assert_eq!(table.lookup_variable(x), Some(variable(1)));
}

#[test]
fn shadowing_across_scopes_is_legal() {
    let mut table = SymbolTable::new();
    let x = Symbol::new(1);
    assert_eq!(table.insert_variable(x, variable(1)), Ok(()));
    table.push_variable_scope();
    assert_eq!(table.insert_variable(x, variable(2)), Ok(()));
    assert_eq!(table.lookup_variable(x), Some(variable(2)));
}

#[test]
fn redeclaration_in_one_scope_is_refused() {
    let mut table = SymbolTable::new();
    let x = Symbol::new(1);
    assert_eq!(table.insert_variable(x, variable(1)), Ok(()));
    assert_eq!(
        table.insert_variable(x, variable(2)),
        Err(Diagnostic { kind: DiagnosticKind::Redeclaration { name: x }, span: span(2) })
    );
    assert_eq!(table.lookup_variable(x), Some(variable(1)));
}

#[test]
fn pop_forgets_what_the_scope_declared() {
    let mut table = SymbolTable::new();
    let x = Symbol::new(1);
    let y = Symbol::new(2);
    assert_eq!(table.insert_variable(y, variable(1)), Ok(()));
    assert_eq!(table.scope_depth(), 1);
    table.push_variable_scope();
    assert_eq!(table.scope_depth(), 2);
    assert_eq!(table.insert_variable(x, variable(2)), Ok(()));
    table.pop_variable_scope();
    assert_eq!(table.scope_depth(), 1);
    assert_eq!(table.lookup_variable(x), None);
    assert_eq!(table.lookup_variable(y), Some(variable(1)));
}

#[test]
fn outermost_scope_is_never_closed() {
    let mut table = SymbolTable::new();
    let x = Symbol::new(1);
    assert_eq!(table.insert_variable(x, variable(1)), Ok(()));
    table.pop_variable_scope();
    assert_eq!(table.scope_depth(), 1);
    assert_eq!(table.lookup_variable(x), Some(variable(1)));
}

#[test]
fn functions_and_structs_are_found_in_every_scope() {
    let mut table = SymbolTable::new();
    let f = FunctionSymbol { name: Symbol::new(7), output: Type::Boolean, span: span(1) };
    table.insert_fn(f);
    table.insert_struct(Symbol::new(8));
    table.push_variable_scope();
    assert_eq!(table.lookup_fn(Symbol::new(7)), Some(f));
    assert_eq!(table.lookup_fn(Symbol::new(8)), None);
    assert!(table.lookup_struct(Symbol::new(8)));
    assert!(!table.lookup_struct(Symbol::new(7)));
    let later = FunctionSymbol { name: Symbol::new(7), output: Type::Field, span: span(2) };
    table.insert_fn(later);
    assert_eq!(table.lookup_fn(Symbol::new(7)), Some(later));
    assert_eq!(table.lookup_variable(Symbol::new(7)), None);
}

#[test]
fn handler_keeps_diagnostics_in_the_order_of_emission() {
    let mut handler = Handler::new();
    assert!(!handler.had_errors());
    assert_eq!(handler.diagnostics(), vec![]);
    let first = Diagnostic {
        kind: DiagnosticKind::UnknownSymbol { kind: SymbolKind::Variable, name: Symbol::new(1) },
        span: span(1),
    };
    let second =
        Diagnostic { kind: DiagnosticKind::Redeclaration { name: Symbol::new(2) }, span: span(2) };
    handler.emit(first);
    handler.emit(second);
    handler.emit(first);
    handler.emit_err(EvalError { kind: EvalErrorKind::DivisionByZero, span: span(3) });
    assert!(handler.had_errors());
    assert_eq!(
        handler.diagnostics(),
        vec![
            first,
            second,
            first,
            Diagnostic {
                kind: DiagnosticKind::Evaluation(EvalErrorKind::DivisionByZero),
                span: span(3)
            }
        ]
    );
}

#[test]
fn diagnostics_have_stable_codes() {
    let at = span(1);
    let name = Symbol::new(1);
    let code = |kind: DiagnosticKind| Diagnostic { kind, span: at }.code();
    assert_eq!(code(DiagnosticKind::Redeclaration { name }), 2000);
    assert_eq!(code(DiagnosticKind::UnknownSymbol { kind: SymbolKind::Function, name }), 2001);
    assert_eq!(code(DiagnosticKind::CannotAssignToConstVariable { name }), 2002);
    assert_eq!(code(DiagnosticKind::CannotAssignToConstInput { name }), 2003);
    assert_eq!(
        code(DiagnosticKind::TypeMismatch { expected: Type::Boolean, found: Type::Field }),
        2004
    );
    assert_eq!(code(DiagnosticKind::UndefinedType { name }), 2005);
    assert_eq!(code(DiagnosticKind::Evaluation(EvalErrorKind::Overflow)), 3000);
    assert_eq!(code(DiagnosticKind::Evaluation(EvalErrorKind::DivisionByZero)), 3001);
    assert_eq!(code(DiagnosticKind::Evaluation(EvalErrorKind::TypeMismatch)), 3002);
    assert_eq!(TYPE_CHECKER_BASE, 2000);
    assert_eq!(EVALUATION_BASE, 3000);
}

#[test]
fn diagnostics_carry_a_message() {
    let at = span(1);
    let name = Symbol::new(1);
    assert_eq!(
        Diagnostic { kind: DiagnosticKind::CannotAssignToConstVariable { name }, span: at }
            .message(),
        "cannot assign to a constant variable"
    );
    assert_eq!(
        Diagnostic { kind: DiagnosticKind::CannotAssignToConstInput { name }, span: at }.message(),
        "cannot assign to a constant input parameter"
    );
    assert_eq!(
        Diagnostic { kind: DiagnosticKind::Evaluation(EvalErrorKind::DivisionByZero), span: at }
            .message(),
        "the constant divisor is zero"
    );
    assert_eq!(
        Diagnostic::from_eval_error(EvalError { kind: EvalErrorKind::Overflow, span: at }),
        Diagnostic { kind: DiagnosticKind::Evaluation(EvalErrorKind::Overflow), span: at }
    );
}

#[test]
fn lists_keep_the_order_of_their_elements() {
    let list = List::from_vec(vec![1u8, 2, 3]);
    assert_eq!(list.get(0), Some(&1));
    assert_eq!(list.get(1), Some(&2));
    assert_eq!(list.get(2), Some(&3));
    assert_eq!(list.get(3), None);
    assert!(!list.is_empty());
    assert!(List::<u8>::new().is_empty());
    assert_eq!(List::from_vec(Vec::<u8>::new()), List::Nil);
    assert_eq!(List::new().prepend(2u8).prepend(1u8), List::from_vec(vec![1u8, 2]));
    assert_eq!(
        list,
        List::Cons(
            Box::new(1),
            Box::new(List::Cons(Box::new(2), Box::new(List::Cons(Box::new(3), Box::new(List::Nil)))))
        )
    );
}

#[test]
fn spans_and_symbols_are_plain_values() {
    assert_eq!(Span::new(3, 9), Span { lo: 3, hi: 9 });
    assert_eq!(Span::dummy(), Span { lo: 0, hi: 0 });
    assert_eq!(Symbol::new(4), Symbol { id: 4 });
    assert_ne!(ParamMode::Const, ParamMode::Constant);
}
