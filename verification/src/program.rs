//! Functions, structs, mappings and programs.

use vstd::prelude::*;
use crate::expression::Identifier;
use crate::list::List;
use crate::span::{Span, Symbol};
use crate::statement::Block;
use crate::types::{ParamMode, Type};

verus! {

/// A parameter of a function or of a finalize block.
#[derive(Clone, Copy, PartialEq, Eq, Structural, Debug, Hash)]
pub struct FunctionInput {
    pub identifier: Identifier,
    pub mode: ParamMode,
    pub type_: Type,
    pub span: Span,
}

/// The second body of a function. It runs on chain once the proof of the
/// first is verified, and may update mappings.
#[derive(Debug, PartialEq, Eq)]
pub struct Finalize {
    pub input: List<FunctionInput>,
    pub output: Type,
    pub block: Block,
    pub span: Span,
}

/// A function of a program.
#[derive(Debug, PartialEq, Eq)]
pub struct Function {
    pub identifier: Identifier,
    pub input: List<FunctionInput>,
    pub output: Type,
    /// The built-in operation that the function stands for, if it does.
    pub core_mapping: Option<Symbol>,
    pub block: Block,
    pub finalize: Option<Finalize>,
    pub span: Span,
}

/// A member of a struct declaration.
#[derive(Clone, Copy, PartialEq, Eq, Structural, Debug, Hash)]
pub struct Member {
    pub identifier: Identifier,
    pub type_: Type,
}

/// The declaration of a struct.
#[derive(Debug, PartialEq, Eq)]
pub struct Struct {
    pub identifier: Identifier,
    pub members: List<Member>,
    pub span: Span,
}

/// The declaration of a mapping: a store on chain from keys to values.
#[derive(Clone, Copy, PartialEq, Eq, Structural, Debug, Hash)]
pub struct Mapping {
    pub identifier: Identifier,
    pub key_type: Type,
    pub value_type: Type,
    pub span: Span,
}

/// One named part of a program, with its own declarations.
#[derive(Debug, PartialEq, Eq)]
pub struct ProgramScope {
    pub name: Symbol,
    pub structs: List<Struct>,
    pub mappings: List<Mapping>,
    pub functions: List<Function>,
    pub span: Span,
}

/// A program that another one imports, under the name it is imported by.
#[derive(Debug, PartialEq, Eq)]
pub struct Import {
    pub name: Symbol,
    pub program: Program,
}

/// The programs that a program imports, in the order of their import.
#[derive(Debug, PartialEq, Eq)]
pub enum Imports {
    Nil,
    Cons(Box<Import>, Box<Imports>),
}

/// A compilation unit: its imports and its scopes.
#[derive(Debug, PartialEq, Eq)]
pub struct Program {
    pub name: Symbol,
    pub imports: Imports,
    pub program_scopes: List<ProgramScope>,
}

impl Function {
    /// Whether the body and the finalize block are `error_free`.
    pub open spec fn error_free(self) -> bool {
        self.block.error_free() && match self.finalize {
            Some(finalize) => finalize.block.error_free(),
            None => true,
        }
    }

    /// Tells whether the function is `error_free`.
    pub fn is_error_free(&self) -> (free: bool)
        ensures
            free == self.error_free(),
    {
        self.block.is_error_free() && match &self.finalize {
            Some(finalize) => finalize.block.is_error_free(),
            None => true,
        }
    }
}

/// Whether every function of the list is `error_free`.
pub open spec fn all_functions_error_free(functions: List<Function>) -> bool
    decreases functions,
{
    match functions {
        List::Nil => true,
        List::Cons(head, tail) => head.error_free() && all_functions_error_free(*tail),
    }
}

/// Tells whether every function of the list is `error_free`.
pub fn are_functions_error_free(functions: &List<Function>) -> (free: bool)
    ensures
        free == all_functions_error_free(*functions),
    decreases functions,
{
    match functions {
        List::Nil => true,
        List::Cons(head, tail) => head.is_error_free() && are_functions_error_free(tail),
    }
}

/// Whether the functions of every scope of the list are `error_free`.
pub open spec fn all_scopes_error_free(scopes: List<ProgramScope>) -> bool
    decreases scopes,
{
    match scopes {
        List::Nil => true,
        List::Cons(head, tail) => all_functions_error_free(head.functions)
            && all_scopes_error_free(*tail),
    }
}

/// Tells whether the functions of every scope of the list are `error_free`.
pub fn are_scopes_error_free(scopes: &List<ProgramScope>) -> (free: bool)
    ensures
        free == all_scopes_error_free(*scopes),
    decreases scopes,
{
    match scopes {
        List::Nil => true,
        List::Cons(head, tail) => are_functions_error_free(&head.functions)
            && are_scopes_error_free(tail),
    }
}

impl Program {
    /// Whether every function of the program and of the programs it
    /// imports is `error_free`.
    pub open spec fn error_free(self) -> bool
        decreases self,
    {
        all_imports_error_free(self.imports) && all_scopes_error_free(self.program_scopes)
    }

    /// Tells whether the program is `error_free`.
    pub fn is_error_free(&self) -> (free: bool)
        ensures
            free == self.error_free(),
        decreases self,
    {
        are_imports_error_free(&self.imports) && are_scopes_error_free(&self.program_scopes)
    }
}

/// Whether every program of the list of imports is `error_free`.
pub open spec fn all_imports_error_free(imports: Imports) -> bool
    decreases imports,
{
    match imports {
        Imports::Nil => true,
        Imports::Cons(head, tail) => head.program.error_free() && all_imports_error_free(*tail),
    }
}

/// Tells whether every program of the list of imports is `error_free`.
pub fn are_imports_error_free(imports: &Imports) -> (free: bool)
    ensures
        free == all_imports_error_free(*imports),
    decreases imports,
{
    match imports {
        Imports::Nil => true,
        Imports::Cons(head, tail) => head.program.is_error_free() && are_imports_error_free(tail),
    }
}

} // verus!
