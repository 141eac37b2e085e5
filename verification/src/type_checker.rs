//! The statement type checker.
//!
//! The checker visits statements. It validates declared types, checks
//! expressions against the type that their place expects, keeps the scopes
//! of the symbol table in step with the blocks, and refuses assignments to
//! constants. Every violation is reported to the handler; none stops the
//! visit.
//!
//! Of an expression the checker looks at the leaves: a literal has the type
//! of its kind, an identifier the type of its variable. The operands of an
//! operator are checked against the type expected of the whole expression.

use vstd::prelude::*;
use crate::diagnostics::{Diagnostic, DiagnosticKind, Handler, SymbolKind};
use crate::expression::{
    AccessExpression,
    BinaryExpression,
    CallExpression,
    Identifier,
    LiteralExpression,
    StructExpression,
    TernaryExpression,
    TupleExpression,
    UnaryExpression,
};
use crate::list::List;
use crate::program::{Function, Mapping, Program, Struct};
use crate::span::{Span, Symbol};
use crate::statement::{
    AssignStatement,
    Block,
    ConditionalStatement,
    ConsoleFunction,
    ConsoleStatement,
    DeclarationType,
    DecrementStatement,
    DefinitionStatement,
    FinalizeStatement,
    IncrementStatement,
    IterationStatement,
    ReturnStatement,
};
use crate::symbol_table::{Declaration, SymbolTable, VariableSymbol};
use crate::types::{ParamMode, Type};
use crate::visitor::{
    visit_block,
    visit_program,
    visited_block,
    visited_program,
    ExpressionVisitor,
    ProgramVisitor,
    StatementVisitor,
};

verus! {

/// What the checker works on: the symbol table, which it reads and
/// writes, and the handler, to which it reports.
#[derive(Debug, PartialEq, Eq)]
pub struct TypeChecker {
    pub symbol_table: SymbolTable,
    pub handler: Handler,
}

/// The report of an expression of type `found` where `expected` is
/// required, if the two differ.
pub open spec fn mismatch(expected: Option<Type>, found: Type, span: Span) -> Option<Diagnostic> {
    match expected {
        Some(expected) => if expected != found {
            Some(Diagnostic { kind: DiagnosticKind::TypeMismatch { expected, found }, span })
        } else {
            None
        },
        None => None,
    }
}

/// The symbol that a definition declares.
pub open spec fn symbol_of_definition(input: DefinitionStatement) -> VariableSymbol {
    VariableSymbol {
        type_: input.type_,
        span: input.span,
        declaration: if input.declaration_type is Const {
            Declaration::Const(None)
        } else {
            Declaration::Mut(None)
        },
    }
}

/// The symbol of the variable of a loop: a constant of the type of the
/// loop.
pub open spec fn symbol_of_iteration(input: IterationStatement) -> VariableSymbol {
    VariableSymbol { type_: input.type_, span: input.span, declaration: Declaration::Const(None) }
}

impl TypeChecker {
    /// The checker after it reported `diagnostic`.
    pub open spec fn emitting(self, diagnostic: Diagnostic) -> TypeChecker {
        TypeChecker { symbol_table: self.symbol_table, handler: self.handler.with(diagnostic) }
    }

    /// The checker after it reported `diagnostic`, if there is one.
    pub open spec fn emitting_optional(self, diagnostic: Option<Diagnostic>) -> TypeChecker {
        TypeChecker {
            symbol_table: self.symbol_table,
            handler: self.handler.with_optional(diagnostic),
        }
    }

    /// The report of a type that is not well formed: one that names a
    /// struct which is not declared.
    pub open spec fn undefined(self, type_: Option<Type>, span: Span) -> Option<Diagnostic> {
        match type_ {
            Some(Type::Identifier(name)) => if !self.symbol_table.has_struct(name) {
                Some(Diagnostic { kind: DiagnosticKind::UndefinedType { name }, span })
            } else {
                None
            },
            _ => None,
        }
    }

    /// The checker after it validated `type_`.
    pub open spec fn validated(self, type_: Option<Type>, span: Span) -> TypeChecker {
        self.emitting_optional(self.undefined(type_, span))
    }

    /// The checker after it checked an expression of type `found` against
    /// `expected`.
    pub open spec fn expecting(self, expected: Option<Type>, found: Type, span: Span) -> TypeChecker {
        self.emitting_optional(mismatch(expected, found, span))
    }

    /// The checker after it tried to bind `name` in the innermost scope: a
    /// redeclaration is reported and binds nothing.
    pub open spec fn declaring(self, name: Symbol, symbol: VariableSymbol) -> TypeChecker {
        TypeChecker {
            symbol_table: self.symbol_table.inserted(name, symbol),
            handler: self.handler.with_optional(self.symbol_table.redeclaration(name, symbol)),
        }
    }

    /// The report of an assignment to the variable `variable` under the
    /// name `name`, if it may not be assigned to. The report stands at the
    /// place of the declaration.
    pub open spec fn constant_assigned(name: Symbol, variable: VariableSymbol) -> Option<
        Diagnostic,
    > {
        match variable.declaration {
            Declaration::Const(_) => Some(
                Diagnostic {
                    kind: DiagnosticKind::CannotAssignToConstVariable { name },
                    span: variable.span,
                },
            ),
            Declaration::Input(ParamMode::Const) => Some(
                Diagnostic {
                    kind: DiagnosticKind::CannotAssignToConstInput { name },
                    span: variable.span,
                },
            ),
            _ => None,
        }
    }

    /// A checker on the given table that reports to the given handler.
    pub fn new(symbol_table: SymbolTable, handler: Handler) -> (checker: TypeChecker)
        ensures
            checker == (TypeChecker { symbol_table, handler }),
    {
        TypeChecker { symbol_table, handler }
    }

    /// Reports `diagnostic`, if there is one.
    pub fn emit_optional(&mut self, diagnostic: Option<Diagnostic>)
        ensures
            *final(self) == old(self).emitting_optional(diagnostic),
    {
        match diagnostic {
            Some(diagnostic) => self.handler.emit(diagnostic),
            None => {},
        }
    }

    /// Reports `type_` unless it is well formed: a type that names a
    /// struct is well formed if the struct is declared, and every other
    /// type is.
    pub fn validate_ident_type(&mut self, type_: &Option<Type>, span: Span)
        ensures
            *final(self) == old(self).validated(*type_, span),
    {
        match type_ {
            Some(Type::Identifier(name)) => {
                if !self.symbol_table.lookup_struct(*name) {
                    self.handler.emit(
                        Diagnostic { kind: DiagnosticKind::UndefinedType { name: *name }, span },
                    );
                }
            },
            _ => {},
        }
    }

    /// Reports a mismatch unless `found` is the expected type or none is
    /// expected.
    pub fn check_type(&mut self, expected: &Option<Type>, found: Type, span: Span)
        ensures
            *final(self) == old(self).expecting(*expected, found, span),
    {
        match expected {
            Some(expected) => {
                if *expected != found {
                    self.handler.emit(
                        Diagnostic {
                            kind: DiagnosticKind::TypeMismatch { expected: *expected, found },
                            span,
                        },
                    );
                }
            },
            None => {},
        }
    }

    /// Binds `name` in the innermost scope, or reports the redeclaration.
    pub fn declare(&mut self, name: Symbol, symbol: VariableSymbol)
        ensures
            *final(self) == old(self).declaring(name, symbol),
    {
        match self.symbol_table.insert_variable(name, symbol) {
            Ok(()) => {},
            Err(diagnostic) => self.handler.emit(diagnostic),
        }
    }
}

/// The checker together with what it has to remember on its way through a
/// function: which function it is in, and whether it met a return
/// statement there.
#[derive(Debug, PartialEq, Eq)]
pub struct Director {
    pub visitor: TypeChecker,
    /// The name of the function that is being checked.
    pub parent: Option<Symbol>,
    /// Whether a return statement was met since the function was entered.
    pub has_return: bool,
}

impl Director {
    /// The director with `visitor` in the place of its checker.
    pub open spec fn with_visitor(self, visitor: TypeChecker) -> Director {
        Director { visitor, parent: self.parent, has_return: self.has_return }
    }

    /// The declared result type of the function that is being checked, if
    /// the checker is in a function and that function is declared.
    pub open spec fn return_type(self) -> Option<Type> {
        match self.parent {
            Some(parent) => match self.visitor.symbol_table.function(parent) {
                Some(function) => Some(function.output),
                None => None,
            },
            None => None,
        }
    }

    /// A director that is in no function yet.
    pub fn new(visitor: TypeChecker) -> (director: Director)
        ensures
            director == (Director { visitor, parent: None, has_return: false }),
    {
        Director { visitor, parent: None, has_return: false }
    }

    /// Ends the check and gives back the table and the handler.
    pub fn finish(self) -> (parts: (SymbolTable, Handler))
        ensures
            parts == (self.visitor.symbol_table, self.visitor.handler),
    {
        (self.visitor.symbol_table, self.visitor.handler)
    }

    /// What is returned for a tree that still holds an `Error` node where
    /// the check would go. Such a tree is not checked at all.
    pub open spec fn refused() -> Diagnostic {
        Diagnostic { kind: DiagnosticKind::UnexpectedErrorNode, span: Span { lo: 0, hi: 0 } }
    }

    /// Checks a program, imports first. A program that is not `error_free`
    /// is refused: nothing is visited, nothing is reported to the handler,
    /// and the violation is returned.
    pub fn check_program(&mut self, input: &Program) -> (result: Result<(), Diagnostic>)
        ensures
            input.error_free() ==> result is Ok && *final(self) == visited_program(
                *old(self),
                *input,
            ),
            !input.error_free() ==> result == Err::<(), Diagnostic>(Director::refused())
                && *final(self) == *old(self),
    {
        if input.is_error_free() {
            visit_program(self, input);
            Ok(())
        } else {
            Err(Diagnostic { kind: DiagnosticKind::UnexpectedErrorNode, span: Span::dummy() })
        }
    }

    /// Checks a block in a scope of its own. A block that is not
    /// `error_free` is refused: nothing is visited, nothing is reported to
    /// the handler, and the violation is returned.
    pub fn check_block(&mut self, input: &Block) -> (result: Result<(), Diagnostic>)
        ensures
            input.error_free() ==> result is Ok && *final(self) == visited_block(
                *old(self),
                *input,
            ),
            !input.error_free() ==> result == Err::<(), Diagnostic>(Director::refused())
                && *final(self) == *old(self),
    {
        if input.is_error_free() {
            visit_block(self, input);
            Ok(())
        } else {
            Err(Diagnostic { kind: DiagnosticKind::UnexpectedErrorNode, span: Span::dummy() })
        }
    }
}

impl ExpressionVisitor for Director {
    /// The type that is expected of an expression, if one is.
    type AdditionalInput = Option<Type>;

    /// The type that was found for an expression, if one was.
    type Output = Option<Type>;

    open spec fn wf(&self) -> bool {
        true
    }

    open spec fn no_input() -> Option<Type> {
        None
    }

    open spec fn no_output() -> Option<Type> {
        None
    }

    /// An identifier has the type of the variable it refers to, which is
    /// checked against the expected type. A name that refers to no
    /// variable is reported and has no type.
    open spec fn identifier_model(&self, input: Identifier, additional: Option<Type>) -> (
        Self,
        Option<Type>,
    ) {
        match self.visitor.symbol_table.resolve(input.name) {
            Some(variable) => (
                self.with_visitor(self.visitor.expecting(additional, variable.type_, input.span)),
                Some(variable.type_),
            ),
            None => (
                self.with_visitor(
                    self.visitor.emitting(
                        Diagnostic {
                            kind: DiagnosticKind::UnknownSymbol {
                                kind: SymbolKind::Variable,
                                name: input.name,
                            },
                            span: input.span,
                        },
                    ),
                ),
                None,
            ),
        }
    }

    /// A literal has the type of its kind, which is checked against the
    /// expected type.
    open spec fn literal_model(&self, input: LiteralExpression, additional: Option<Type>) -> (
        Self,
        Option<Type>,
    ) {
        (
            self.with_visitor(
                self.visitor.expecting(additional, input.type_of(), input.span_of()),
            ),
            Some(input.type_of()),
        )
    }

    fn default_input(&self) -> (additional: Option<Type>) {
        None
    }

    fn visit_identifier(&mut self, input: &Identifier, additional: &Option<Type>) -> (output:
        Option<Type>) {
        match self.visitor.symbol_table.lookup_variable(input.name) {
            Some(variable) => {
                self.visitor.check_type(additional, variable.type_, input.span);
                Some(variable.type_)
            },
            None => {
                self.visitor.handler.emit(
                    Diagnostic {
                        kind: DiagnosticKind::UnknownSymbol {
                            kind: SymbolKind::Variable,
                            name: input.name,
                        },
                        span: input.span,
                    },
                );
                None
            },
        }
    }

    fn visit_literal(&mut self, input: &LiteralExpression, additional: &Option<Type>) -> (output:
        Option<Type>) {
        let found = input.kind();
        self.visitor.check_type(additional, found, input.span());
        Some(found)
    }

    fn visit_struct_init(&mut self, input: &StructExpression, additional: &Option<Type>) -> (output:
        Option<Type>) {
        None
    }

    fn visit_binary(
        &mut self,
        input: &BinaryExpression,
        additional: &Option<Type>,
        left: Option<Type>,
        right: Option<Type>,
    ) -> (output: Option<Type>) {
        None
    }

    fn visit_unary(
        &mut self,
        input: &UnaryExpression,
        additional: &Option<Type>,
        receiver: Option<Type>,
    ) -> (output: Option<Type>) {
        None
    }

    fn visit_ternary(
        &mut self,
        input: &TernaryExpression,
        additional: &Option<Type>,
        condition: Option<Type>,
        if_true: Option<Type>,
        if_false: Option<Type>,
    ) -> (output: Option<Type>) {
        None
    }

    fn visit_call(
        &mut self,
        input: &CallExpression,
        additional: &Option<Type>,
        arguments: List<Option<Type>>,
    ) -> (output: Option<Type>) {
        None
    }

    fn visit_tuple(
        &mut self,
        input: &TupleExpression,
        additional: &Option<Type>,
        elements: List<Option<Type>>,
    ) -> (output: Option<Type>) {
        None
    }

    fn visit_access(
        &mut self,
        input: &AccessExpression,
        additional: &Option<Type>,
        inner: List<Option<Type>>,
    ) -> (output: Option<Type>) {
        None
    }
}

impl StatementVisitor for Director {
    /// The declared result type of the enclosing function is validated,
    /// the return is noted, and the returned expression is expected to be
    /// of that type.
    open spec fn return_model(&self, input: ReturnStatement) -> (Self, Option<Option<Type>>) {
        (
            Director {
                visitor: self.visitor.validated(self.return_type(), input.span),
                parent: self.parent,
                has_return: true,
            },
            Some(self.return_type()),
        )
    }

    /// The declared type is validated, and the initial value is expected
    /// to be of that type.
    open spec fn definition_model(&self, input: DefinitionStatement) -> (
        Self,
        Option<Option<Type>>,
    ) {
        (
            self.with_visitor(self.visitor.validated(Some(input.type_), input.span)),
            Some(Some(input.type_)),
        )
    }

    /// After the initial value was checked, the name is bound in the
    /// innermost scope, or its redeclaration is reported.
    open spec fn definition_finished(&self, input: DefinitionStatement) -> Self {
        self.with_visitor(
            self.visitor.declaring(input.variable_name.name, symbol_of_definition(input)),
        )
    }

    /// An assignment to a name that refers to no variable is reported, and
    /// the assigned expression is then left unchecked. Otherwise an
    /// assignment to a constant is reported, the type of the variable is
    /// validated, and the assigned expression is expected to be of that
    /// type, whether or not the variable may be assigned to.
    open spec fn assign_model(&self, input: AssignStatement) -> (Self, Option<Option<Type>>) {
        match self.visitor.symbol_table.resolve(input.place.name) {
            Some(variable) => (
                self.with_visitor(
                    self.visitor.emitting_optional(
                        TypeChecker::constant_assigned(input.place.name, variable),
                    ).validated(Some(variable.type_), input.span),
                ),
                Some(Some(variable.type_)),
            ),
            None => (
                self.with_visitor(
                    self.visitor.emitting(
                        Diagnostic {
                            kind: DiagnosticKind::UnknownSymbol {
                                kind: SymbolKind::Variable,
                                name: input.place.name,
                            },
                            span: input.place.span,
                        },
                    ),
                ),
                None,
            ),
        }
    }

    /// The condition is expected to be a boolean.
    open spec fn conditional_model(&self, input: ConditionalStatement) -> (
        Self,
        Option<Option<Type>>,
    ) {
        (*self, Some(Some(Type::Boolean)))
    }

    /// The variable of the loop is bound in the innermost scope as a
    /// constant of the type of the loop, that type is validated, and both
    /// bounds are expected to be of it.
    open spec fn iteration_model(&self, input: IterationStatement) -> (Self, Option<Option<Type>>) {
        (
            self.with_visitor(
                self.visitor.declaring(input.variable.name, symbol_of_iteration(input)).validated(
                    Some(input.type_),
                    input.span,
                ),
            ),
            Some(Some(input.type_)),
        )
    }

    /// An asserted expression is expected to be a boolean. The two sides
    /// of an asserted equality or inequality are checked with no type
    /// expected. The parameters of an error or a log statement are not
    /// checked at all.
    open spec fn console_model(&self, input: ConsoleStatement) -> (Self, Option<Option<Type>>) {
        match input.function {
            ConsoleFunction::Assert(_) => (*self, Some(Some(Type::Boolean))),
            ConsoleFunction::AssertEq(_, _) => (*self, Some(None)),
            ConsoleFunction::AssertNeq(_, _) => (*self, Some(None)),
            ConsoleFunction::Error(_) => (*self, None),
            ConsoleFunction::Log(_) => (*self, None),
        }
    }

    /// A scope is opened for the block.
    open spec fn block_model(&self, input: Block) -> Self {
        self.with_visitor(
            TypeChecker {
                symbol_table: self.visitor.symbol_table.pushed(),
                handler: self.visitor.handler,
            },
        )
    }

    /// The scope of the block is closed, whatever was reported inside.
    open spec fn block_finished(&self, input: Block) -> Self {
        self.with_visitor(
            TypeChecker {
                symbol_table: self.visitor.symbol_table.popped(),
                handler: self.visitor.handler,
            },
        )
    }

    fn visit_return(&mut self, input: &ReturnStatement) -> (additional: Option<Option<Type>>) {
        let return_type = match self.parent {
            Some(parent) => match self.visitor.symbol_table.lookup_fn(parent) {
                Some(function) => Some(function.output),
                None => None,
            },
            None => None,
        };
        self.visitor.validate_ident_type(&return_type, input.span);
        self.has_return = true;
        Some(return_type)
    }

    fn visit_definition(&mut self, input: &DefinitionStatement) -> (additional: Option<
        Option<Type>,
    >) {
        self.visitor.validate_ident_type(&Some(input.type_), input.span);
        Some(Some(input.type_))
    }

    fn finish_definition(&mut self, input: &DefinitionStatement) {
        let declaration = match input.declaration_type {
            DeclarationType::Const => Declaration::Const(None),
            DeclarationType::Let => Declaration::Mut(None),
        };
        self.visitor.declare(
            input.variable_name.name,
            VariableSymbol { type_: input.type_, span: input.span, declaration },
        );
    }

    fn visit_assign(&mut self, input: &AssignStatement) -> (additional: Option<Option<Type>>) {
        let name = input.place.name;
        match self.visitor.symbol_table.lookup_variable(name) {
            Some(variable) => {
                match variable.declaration {
                    Declaration::Const(_) => self.visitor.handler.emit(
                        Diagnostic {
                            kind: DiagnosticKind::CannotAssignToConstVariable { name },
                            span: variable.span,
                        },
                    ),
                    Declaration::Input(ParamMode::Const) => self.visitor.handler.emit(
                        Diagnostic {
                            kind: DiagnosticKind::CannotAssignToConstInput { name },
                            span: variable.span,
                        },
                    ),
                    _ => {},
                }
                self.visitor.validate_ident_type(&Some(variable.type_), input.span);
                Some(Some(variable.type_))
            },
            None => {
                self.visitor.handler.emit(
                    Diagnostic {
                        kind: DiagnosticKind::UnknownSymbol { kind: SymbolKind::Variable, name },
                        span: input.place.span,
                    },
                );
                None
            },
        }
    }

    fn visit_conditional(&mut self, input: &ConditionalStatement) -> (additional: Option<
        Option<Type>,
    >) {
        Some(Some(Type::Boolean))
    }

    fn visit_iteration(&mut self, input: &IterationStatement) -> (additional: Option<
        Option<Type>,
    >) {
        self.visitor.declare(
            input.variable.name,
            VariableSymbol {
                type_: input.type_,
                span: input.span,
                declaration: Declaration::Const(None),
            },
        );
        self.visitor.validate_ident_type(&Some(input.type_), input.span);
        Some(Some(input.type_))
    }

    fn visit_console(&mut self, input: &ConsoleStatement) -> (additional: Option<Option<Type>>) {
        match &input.function {
            ConsoleFunction::Assert(_) => Some(Some(Type::Boolean)),
            ConsoleFunction::AssertEq(_, _) => Some(None),
            ConsoleFunction::AssertNeq(_, _) => Some(None),
            ConsoleFunction::Error(_) => None,
            ConsoleFunction::Log(_) => None,
        }
    }

    fn visit_decrement(&mut self, input: &DecrementStatement) -> (additional: Option<
        Option<Type>,
    >) {
        Some(None)
    }

    fn visit_increment(&mut self, input: &IncrementStatement) -> (additional: Option<
        Option<Type>,
    >) {
        Some(None)
    }

    fn visit_finalize(&mut self, input: &FinalizeStatement) -> (additional: Option<Option<Type>>) {
        Some(None)
    }

    fn visit_block(&mut self, input: &Block) {
        self.visitor.symbol_table.push_variable_scope();
    }

    fn finish_block(&mut self, input: &Block) {
        self.visitor.symbol_table.pop_variable_scope();
    }
}

impl ProgramVisitor for Director {
    /// On entering a function the director notes its name and forgets the
    /// returns of the function before.
    open spec fn function_model(&self, input: Function) -> Self {
        Director {
            visitor: self.visitor,
            parent: Some(input.identifier.name),
            has_return: false,
        }
    }

    fn visit_struct(&mut self, input: &Struct) {
    }

    fn visit_mapping(&mut self, input: &Mapping) {
    }

    fn visit_function(&mut self, input: &Function) {
        self.parent = Some(input.identifier.name);
        self.has_return = false;
    }
}

} // verus!
