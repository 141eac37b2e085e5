//! The symbol table: variables in nested scopes, and the functions and
//! structs of the program.
//!
//! There is always an innermost scope. A lookup goes from the innermost
//! scope outward; an insertion binds in the innermost scope only, so a name
//! of an outer scope can be shadowed but a name of the same scope cannot be
//! declared twice.

use vstd::prelude::*;
use crate::diagnostics::{Diagnostic, DiagnosticKind};
use crate::list::List;
use crate::span::{Span, Symbol};
use crate::types::{ParamMode, Type};
use crate::value::Value;

verus! {

/// How a variable came to be.
#[derive(Clone, Copy, PartialEq, Eq, Structural, Debug, Hash)]
pub enum Declaration {
    /// Declared `const`, with its value if that was folded.
    Const(Option<Value>),
    /// Declared mutable, with its value if that was folded.
    Mut(Option<Value>),
    /// A parameter of the enclosing function.
    Input(ParamMode),
}

/// What the table knows of a variable.
#[derive(Clone, Copy, PartialEq, Eq, Structural, Debug, Hash)]
pub struct VariableSymbol {
    pub type_: Type,
    pub span: Span,
    pub declaration: Declaration,
}

/// A name bound to a variable in some scope.
#[derive(Clone, Copy, PartialEq, Eq, Structural, Debug, Hash)]
pub struct Binding {
    pub name: Symbol,
    pub symbol: VariableSymbol,
}

/// What the table knows of a function: its name and its declared result
/// type.
#[derive(Clone, Copy, PartialEq, Eq, Structural, Debug, Hash)]
pub struct FunctionSymbol {
    pub name: Symbol,
    pub output: Type,
    pub span: Span,
}

/// The variable bound to `name` in one scope, whose bindings are listed
/// latest first.
pub open spec fn find(scope: List<Binding>, name: Symbol) -> Option<VariableSymbol>
    decreases scope,
{
    match scope {
        List::Nil => None,
        List::Cons(head, tail) => if head.name == name {
            Some(head.symbol)
        } else {
            find(*tail, name)
        },
    }
}

/// The variable bound to `name` in the first of the scopes that binds it.
pub open spec fn find_outward(scopes: List<List<Binding>>, name: Symbol) -> Option<VariableSymbol>
    decreases scopes,
{
    match scopes {
        List::Nil => None,
        List::Cons(head, tail) => match find(*head, name) {
            Some(symbol) => Some(symbol),
            None => find_outward(*tail, name),
        },
    }
}

/// The first function of the list with the name `name`.
pub open spec fn find_function(functions: List<FunctionSymbol>, name: Symbol) -> Option<
    FunctionSymbol,
>
    decreases functions,
{
    match functions {
        List::Nil => None,
        List::Cons(head, tail) => if head.name == name {
            Some(*head)
        } else {
            find_function(*tail, name)
        },
    }
}

/// Whether `name` is in the list.
pub open spec fn has_name(names: List<Symbol>, name: Symbol) -> bool
    decreases names,
{
    match names {
        List::Nil => false,
        List::Cons(head, tail) => *head == name || has_name(*tail, name),
    }
}

fn search(scope: &List<Binding>, name: Symbol) -> (found: Option<VariableSymbol>)
    ensures
        found == find(*scope, name),
    decreases scope,
{
    match scope {
        List::Nil => None,
        List::Cons(head, tail) => if head.name == name {
            Some(head.symbol)
        } else {
            search(tail, name)
        },
    }
}

fn search_outward(scopes: &List<List<Binding>>, name: Symbol) -> (found: Option<VariableSymbol>)
    ensures
        found == find_outward(*scopes, name),
    decreases scopes,
{
    match scopes {
        List::Nil => None,
        List::Cons(head, tail) => match search(head, name) {
            Some(symbol) => Some(symbol),
            None => search_outward(tail, name),
        },
    }
}

fn search_function(functions: &List<FunctionSymbol>, name: Symbol) -> (found: Option<
    FunctionSymbol,
>)
    ensures
        found == find_function(*functions, name),
    decreases functions,
{
    match functions {
        List::Nil => None,
        List::Cons(head, tail) => if head.name == name {
            Some(**head)
        } else {
            search_function(tail, name)
        },
    }
}

fn search_name(names: &List<Symbol>, name: Symbol) -> (found: bool)
    ensures
        found == has_name(*names, name),
    decreases names,
{
    match names {
        List::Nil => false,
        List::Cons(head, tail) => **head == name || search_name(tail, name),
    }
}

/// The variables in reach, scope by scope, and what is declared for the
/// whole program.
#[derive(Debug, PartialEq, Eq)]
pub struct SymbolTable {
    /// The bindings of the innermost scope, latest first.
    pub innermost: List<Binding>,
    /// The scopes around the innermost one, from the inside out.
    pub enclosing: List<List<Binding>>,
    /// The functions of the program, latest first.
    pub functions: List<FunctionSymbol>,
    /// The names of the structs of the program, latest first.
    pub structs: List<Symbol>,
}

impl SymbolTable {
    /// The number of open scopes.
    pub open spec fn depth(self) -> nat {
        1 + self.enclosing@.len()
    }

    /// The variable that `name` refers to: the binding in the nearest scope
    /// that has one.
    pub open spec fn resolve(self, name: Symbol) -> Option<VariableSymbol> {
        match find(self.innermost, name) {
            Some(symbol) => Some(symbol),
            None => find_outward(self.enclosing, name),
        }
    }

    /// The function declared under `name`.
    pub open spec fn function(self, name: Symbol) -> Option<FunctionSymbol> {
        find_function(self.functions, name)
    }

    /// Whether a struct is declared under `name`.
    pub open spec fn has_struct(self, name: Symbol) -> bool {
        has_name(self.structs, name)
    }

    /// The table with one more scope, empty, inside all others.
    pub open spec fn pushed(self) -> SymbolTable {
        SymbolTable {
            innermost: List::Nil,
            enclosing: List::Cons(Box::new(self.innermost), Box::new(self.enclosing)),
            functions: self.functions,
            structs: self.structs,
        }
    }

    /// The table without its innermost scope. The outermost scope is never
    /// closed: a table with one scope stays as it is.
    pub open spec fn popped(self) -> SymbolTable {
        match self.enclosing {
            List::Nil => self,
            List::Cons(head, tail) => SymbolTable {
                innermost: *head,
                enclosing: *tail,
                functions: self.functions,
                structs: self.structs,
            },
        }
    }

    /// The table with `name` bound to `symbol` in the innermost scope.
    pub open spec fn bound(self, name: Symbol, symbol: VariableSymbol) -> SymbolTable {
        SymbolTable {
            innermost: List::Cons(Box::new(Binding { name, symbol }), Box::new(self.innermost)),
            enclosing: self.enclosing,
            functions: self.functions,
            structs: self.structs,
        }
    }

    /// What inserting `name` reports: a redeclaration, at the place of the
    /// new declaration, if the innermost scope binds the name already.
    pub open spec fn redeclaration(self, name: Symbol, symbol: VariableSymbol) -> Option<
        Diagnostic,
    > {
        if find(self.innermost, name) is Some {
            Some(Diagnostic { kind: DiagnosticKind::Redeclaration { name }, span: symbol.span })
        } else {
            None
        }
    }

    /// The table after an attempt to insert `name`: unchanged if that is a
    /// redeclaration, and with the new binding otherwise.
    pub open spec fn inserted(self, name: Symbol, symbol: VariableSymbol) -> SymbolTable {
        if find(self.innermost, name) is Some {
            self
        } else {
            self.bound(name, symbol)
        }
    }

    /// A table with one scope and nothing declared.
    pub fn new() -> (table: SymbolTable)
        ensures
            table == (SymbolTable {
                innermost: List::Nil,
                enclosing: List::Nil,
                functions: List::Nil,
                structs: List::Nil,
            }),
            table.depth() == 1,
    {
        SymbolTable {
            innermost: List::Nil,
            enclosing: List::Nil,
            functions: List::Nil,
            structs: List::Nil,
        }
    }

    /// Opens a scope inside all others.
    pub fn push_variable_scope(&mut self)
        ensures
            *final(self) == old(self).pushed(),
    {
        let mut innermost = List::Nil;
        std::mem::swap(&mut innermost, &mut self.innermost);
        let mut enclosing = List::Nil;
        std::mem::swap(&mut enclosing, &mut self.enclosing);
        self.enclosing = List::Cons(Box::new(innermost), Box::new(enclosing));
    }

    /// Closes the innermost scope and forgets its bindings. The outermost
    /// scope stays open.
    pub fn pop_variable_scope(&mut self)
        ensures
            *final(self) == old(self).popped(),
    {
        let mut enclosing = List::Nil;
        std::mem::swap(&mut enclosing, &mut self.enclosing);
        match enclosing {
            List::Nil => {},
            List::Cons(head, tail) => {
                self.innermost = *head;
                self.enclosing = *tail;
            },
        }
    }

    /// Binds `name` in the innermost scope, unless that scope binds it
    /// already; then the table stays as it is and the redeclaration is
    /// returned. A binding of an outer scope is no obstacle.
    pub fn insert_variable(&mut self, name: Symbol, symbol: VariableSymbol) -> (result: Result<
        (),
        Diagnostic,
    >)
        ensures
            *final(self) == old(self).inserted(name, symbol),
            match old(self).redeclaration(name, symbol) {
                Some(diagnostic) => result == Err::<(), Diagnostic>(diagnostic),
                None => result is Ok,
            },
    {
        match search(&self.innermost, name) {
            Some(_) => Err(
                Diagnostic { kind: DiagnosticKind::Redeclaration { name }, span: symbol.span },
            ),
            None => {
                let mut innermost = List::Nil;
                std::mem::swap(&mut innermost, &mut self.innermost);
                self.innermost = List::Cons(
                    Box::new(Binding { name, symbol }),
                    Box::new(innermost),
                );
                Ok(())
            },
        }
    }

    /// The variable that `name` refers to, if any scope binds it.
    pub fn lookup_variable(&self, name: Symbol) -> (found: Option<VariableSymbol>)
        ensures
            found == self.resolve(name),
    {
        match search(&self.innermost, name) {
            Some(symbol) => Some(symbol),
            None => search_outward(&self.enclosing, name),
        }
    }

    /// Declares a function for the whole program. A later declaration of
    /// the same name takes the place of an earlier one.
    pub fn insert_fn(&mut self, function: FunctionSymbol)
        ensures
            *final(self) == (SymbolTable {
                functions: List::Cons(Box::new(function), Box::new(old(self).functions)),
                ..*old(self)
            }),
            final(self).function(function.name) == Some(function),
    {
        let mut functions = List::Nil;
        std::mem::swap(&mut functions, &mut self.functions);
        self.functions = List::Cons(Box::new(function), Box::new(functions));
    }

    /// The function declared under `name`, whatever scopes are open.
    pub fn lookup_fn(&self, name: Symbol) -> (found: Option<FunctionSymbol>)
        ensures
            found == self.function(name),
    {
        search_function(&self.functions, name)
    }

    /// Declares a struct for the whole program.
    pub fn insert_struct(&mut self, name: Symbol)
        ensures
            *final(self) == (SymbolTable {
                structs: List::Cons(Box::new(name), Box::new(old(self).structs)),
                ..*old(self)
            }),
            final(self).has_struct(name),
    {
        let mut structs = List::Nil;
        std::mem::swap(&mut structs, &mut self.structs);
        self.structs = List::Cons(Box::new(name), Box::new(structs));
    }

    /// Whether a struct is declared under `name`.
    pub fn lookup_struct(&self, name: Symbol) -> (found: bool)
        ensures
            found == self.has_struct(name),
    {
        search_name(&self.structs, name)
    }

    /// The number of open scopes, or `usize::MAX` if there are more.
    pub fn scope_depth(&self) -> (depth: usize)
        ensures
            depth == if self.depth() <= usize::MAX {
                self.depth() as usize
            } else {
                usize::MAX
            },
    {
        count_scopes(&self.enclosing, 1)
    }
}

fn count_scopes(scopes: &List<List<Binding>>, so_far: usize) -> (count: usize)
    ensures
        count == if so_far + scopes@.len() <= usize::MAX {
            (so_far + scopes@.len()) as usize
        } else {
            usize::MAX
        },
    decreases scopes,
{
    match scopes {
        List::Nil => so_far,
        List::Cons(_, tail) => {
            if so_far == usize::MAX {
                usize::MAX
            } else {
                count_scopes(tail, so_far + 1)
            }
        },
    }
}

} // verus!
