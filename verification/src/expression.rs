//! Expressions: the side-effect-free part of the syntax tree.

use vstd::prelude::*;
use crate::list::List;
use crate::span::{Span, Symbol};
use crate::types::{IntegerType, Numeral, Type};

verus! {

/// A reference to a variable, a function, a struct or a mapping by name.
#[derive(Clone, Copy, PartialEq, Eq, Structural, Debug, Hash)]
pub struct Identifier {
    pub name: Symbol,
    pub span: Span,
}

/// A constant spelled in the source text.
///
/// An integer literal holds the numeral it spells, which need not fit its
/// type. The other kinds hold their spelling as it stands.
#[derive(Clone, Copy, PartialEq, Eq, Structural, Debug, Hash)]
pub enum LiteralExpression {
    Address(Symbol, Span),
    Boolean(bool, Span),
    Field(Symbol, Span),
    Group(Symbol, Span),
    Integer(IntegerType, Numeral, Span),
    Scalar(Symbol, Span),
    String(Symbol, Span),
}

impl LiteralExpression {
    /// The type that the literal's kind gives it.
    pub open spec fn type_of(self) -> Type {
        match self {
            LiteralExpression::Address(_, _) => Type::Address,
            LiteralExpression::Boolean(_, _) => Type::Boolean,
            LiteralExpression::Field(_, _) => Type::Field,
            LiteralExpression::Group(_, _) => Type::Group,
            LiteralExpression::Integer(integer_type, _, _) => Type::Integer(integer_type),
            LiteralExpression::Scalar(_, _) => Type::Scalar,
            LiteralExpression::String(_, _) => Type::String,
        }
    }

    /// Where the literal stands in the source text.
    pub open spec fn span_of(self) -> Span {
        match self {
            LiteralExpression::Address(_, span) => span,
            LiteralExpression::Boolean(_, span) => span,
            LiteralExpression::Field(_, span) => span,
            LiteralExpression::Group(_, span) => span,
            LiteralExpression::Integer(_, _, span) => span,
            LiteralExpression::Scalar(_, span) => span,
            LiteralExpression::String(_, span) => span,
        }
    }

    /// The type that the literal's kind gives it.
    pub fn kind(&self) -> (kind: Type)
        ensures
            kind == self.type_of(),
    {
        match self {
            LiteralExpression::Address(_, _) => Type::Address,
            LiteralExpression::Boolean(_, _) => Type::Boolean,
            LiteralExpression::Field(_, _) => Type::Field,
            LiteralExpression::Group(_, _) => Type::Group,
            LiteralExpression::Integer(integer_type, _, _) => Type::Integer(*integer_type),
            LiteralExpression::Scalar(_, _) => Type::Scalar,
            LiteralExpression::String(_, _) => Type::String,
        }
    }

    /// Where the literal stands in the source text.
    pub fn span(&self) -> (span: Span)
        ensures
            span == self.span_of(),
    {
        match self {
            LiteralExpression::Address(_, span) => *span,
            LiteralExpression::Boolean(_, span) => *span,
            LiteralExpression::Field(_, span) => *span,
            LiteralExpression::Group(_, span) => *span,
            LiteralExpression::Integer(_, _, span) => *span,
            LiteralExpression::Scalar(_, span) => *span,
            LiteralExpression::String(_, span) => *span,
        }
    }
}

/// The operators that take two operands.
#[derive(Clone, Copy, PartialEq, Eq, Structural, Debug, Hash)]
pub enum BinaryOperation {
    Add,
    AddWrapped,
    And,
    BitwiseAnd,
    Div,
    DivWrapped,
    Eq,
    Ge,
    Gt,
    Le,
    Lt,
    Mul,
    MulWrapped,
    Nand,
    Neq,
    Nor,
    Or,
    BitwiseOr,
    Pow,
    PowWrapped,
    Shl,
    ShlWrapped,
    Shr,
    ShrWrapped,
    Sub,
    SubWrapped,
    Xor,
}

/// The operators that take one operand.
#[derive(Clone, Copy, PartialEq, Eq, Structural, Debug, Hash)]
pub enum UnaryOperation {
    Negate,
    Not,
}

/// An operator applied to two operands.
#[derive(Debug, PartialEq, Eq)]
pub struct BinaryExpression {
    pub left: Box<Expression>,
    pub right: Box<Expression>,
    pub op: BinaryOperation,
    pub span: Span,
}

/// An operator applied to one operand.
#[derive(Debug, PartialEq, Eq)]
pub struct UnaryExpression {
    pub receiver: Box<Expression>,
    pub op: UnaryOperation,
    pub span: Span,
}

/// A choice between two expressions by a condition.
#[derive(Debug, PartialEq, Eq)]
pub struct TernaryExpression {
    pub condition: Box<Expression>,
    pub if_true: Box<Expression>,
    pub if_false: Box<Expression>,
    pub span: Span,
}

/// A call of a function with arguments.
#[derive(Debug, PartialEq, Eq)]
pub struct CallExpression {
    pub function: Box<Expression>,
    pub arguments: List<Expression>,
    pub span: Span,
}

/// A call of a function that belongs to a type, such as a hash.
#[derive(Debug, PartialEq, Eq)]
pub struct AssociatedFunction {
    pub ty: Type,
    pub name: Identifier,
    pub args: List<Expression>,
    pub span: Span,
}

/// A constant that belongs to a type.
#[derive(Clone, Copy, PartialEq, Eq, Structural, Debug, Hash)]
pub struct AssociatedConstant {
    pub ty: Type,
    pub name: Identifier,
    pub span: Span,
}

/// The member `name` of the struct that `inner` yields.
#[derive(Debug, PartialEq, Eq)]
pub struct MemberAccess {
    pub inner: Box<Expression>,
    pub name: Identifier,
    pub span: Span,
}

/// The element at `index` of the tuple that `tuple` yields.
#[derive(Debug, PartialEq, Eq)]
pub struct TupleAccess {
    pub tuple: Box<Expression>,
    pub index: u32,
    pub span: Span,
}

/// The ways to reach into a value or a type.
#[derive(Debug, PartialEq, Eq)]
pub enum AccessExpression {
    AssociatedFunction(AssociatedFunction),
    Member(MemberAccess),
    Tuple(TupleAccess),
    /// A leaf: the traversals do not look inside.
    AssociatedConstant(AssociatedConstant),
}

/// One member of a struct literal. Without an expression the member takes
/// the value of the variable of the same name.
#[derive(Debug, PartialEq, Eq)]
pub struct StructMember {
    pub identifier: Identifier,
    pub expression: Option<Box<Expression>>,
}

/// A struct literal.
#[derive(Debug, PartialEq, Eq)]
pub struct StructExpression {
    pub name: Identifier,
    pub members: List<StructMember>,
    pub span: Span,
}

/// A tuple of expressions.
#[derive(Debug, PartialEq, Eq)]
pub struct TupleExpression {
    pub elements: List<Expression>,
    pub span: Span,
}

/// What the parser leaves where it could not read an expression.
#[derive(Clone, Copy, PartialEq, Eq, Structural, Debug, Hash)]
pub struct ErrExpression {
    pub span: Span,
}

/// A computation without side effects.
#[derive(Debug, PartialEq, Eq)]
pub enum Expression {
    Access(AccessExpression),
    Binary(BinaryExpression),
    Call(CallExpression),
    Struct(StructExpression),
    /// Left by error recovery in the parser. No pass may visit one.
    Error(ErrExpression),
    Identifier(Identifier),
    Literal(LiteralExpression),
    Ternary(TernaryExpression),
    Tuple(TupleExpression),
    Unary(UnaryExpression),
}

impl Expression {
    /// Whether no `Error` node stands where a visitor goes: in the expression
    /// itself, in an operand, an argument, an element or the inner
    /// expression of an access. The members of a struct literal and the
    /// callee of a call are not visited and do not count.
    pub open spec fn error_free(self) -> bool
        decreases self,
    {
        match self {
            Expression::Access(AccessExpression::AssociatedFunction(function)) => all_error_free(
                function.args,
            ),
            Expression::Access(AccessExpression::Member(member)) => member.inner.error_free(),
            Expression::Access(AccessExpression::Tuple(access)) => access.tuple.error_free(),
            Expression::Access(AccessExpression::AssociatedConstant(_)) => true,
            Expression::Binary(binary) => binary.left.error_free() && binary.right.error_free(),
            Expression::Call(call) => all_error_free(call.arguments),
            Expression::Struct(_) => true,
            Expression::Error(_) => false,
            Expression::Identifier(_) => true,
            Expression::Literal(_) => true,
            Expression::Ternary(ternary) => ternary.condition.error_free()
                && ternary.if_true.error_free() && ternary.if_false.error_free(),
            Expression::Tuple(tuple) => all_error_free(tuple.elements),
            Expression::Unary(unary) => unary.receiver.error_free(),
        }
    }

    /// Tells whether the expression is `error_free`.
    pub fn is_error_free(&self) -> (free: bool)
        ensures
            free == self.error_free(),
        decreases self,
    {
        match self {
            Expression::Access(AccessExpression::AssociatedFunction(function)) => {
                are_error_free(&function.args)
            },
            Expression::Access(AccessExpression::Member(member)) => member.inner.is_error_free(),
            Expression::Access(AccessExpression::Tuple(access)) => access.tuple.is_error_free(),
            Expression::Access(AccessExpression::AssociatedConstant(_)) => true,
            Expression::Binary(binary) => binary.left.is_error_free()
                && binary.right.is_error_free(),
            Expression::Call(call) => are_error_free(&call.arguments),
            Expression::Struct(_) => true,
            Expression::Error(_) => false,
            Expression::Identifier(_) => true,
            Expression::Literal(_) => true,
            Expression::Ternary(ternary) => ternary.condition.is_error_free()
                && ternary.if_true.is_error_free() && ternary.if_false.is_error_free(),
            Expression::Tuple(tuple) => are_error_free(&tuple.elements),
            Expression::Unary(unary) => unary.receiver.is_error_free(),
        }
    }

    /// A copy of the expression, equal to it in every part.
    pub fn duplicate(&self) -> (copy: Expression)
        ensures
            copy == *self,
        decreases self,
    {
        match self {
            Expression::Access(AccessExpression::AssociatedFunction(function)) => {
                Expression::Access(
                    AccessExpression::AssociatedFunction(
                        AssociatedFunction {
                            ty: function.ty,
                            name: function.name,
                            args: duplicate_all(&function.args),
                            span: function.span,
                        },
                    ),
                )
            },
            Expression::Access(AccessExpression::Member(member)) => Expression::Access(
                AccessExpression::Member(
                    MemberAccess {
                        inner: Box::new(member.inner.duplicate()),
                        name: member.name,
                        span: member.span,
                    },
                ),
            ),
            Expression::Access(AccessExpression::Tuple(access)) => Expression::Access(
                AccessExpression::Tuple(
                    TupleAccess {
                        tuple: Box::new(access.tuple.duplicate()),
                        index: access.index,
                        span: access.span,
                    },
                ),
            ),
            Expression::Access(AccessExpression::AssociatedConstant(constant)) => {
                Expression::Access(AccessExpression::AssociatedConstant(*constant))
            },
            Expression::Binary(binary) => Expression::Binary(binary.duplicate()),
            Expression::Call(call) => Expression::Call(
                CallExpression {
                    function: Box::new(call.function.duplicate()),
                    arguments: duplicate_all(&call.arguments),
                    span: call.span,
                },
            ),
            Expression::Struct(literal) => Expression::Struct(literal.duplicate()),
            Expression::Error(err) => Expression::Error(*err),
            Expression::Identifier(identifier) => Expression::Identifier(*identifier),
            Expression::Literal(literal) => Expression::Literal(*literal),
            Expression::Ternary(ternary) => Expression::Ternary(
                TernaryExpression {
                    condition: Box::new(ternary.condition.duplicate()),
                    if_true: Box::new(ternary.if_true.duplicate()),
                    if_false: Box::new(ternary.if_false.duplicate()),
                    span: ternary.span,
                },
            ),
            Expression::Tuple(tuple) => Expression::Tuple(
                TupleExpression { elements: duplicate_all(&tuple.elements), span: tuple.span },
            ),
            Expression::Unary(unary) => Expression::Unary(unary.duplicate()),
        }
    }
}

impl BinaryExpression {
    /// A copy of the node, equal to it in every part.
    pub fn duplicate(&self) -> (copy: BinaryExpression)
        ensures
            copy == *self,
        decreases self,
    {
        BinaryExpression {
            left: Box::new(self.left.duplicate()),
            right: Box::new(self.right.duplicate()),
            op: self.op,
            span: self.span,
        }
    }
}

impl UnaryExpression {
    /// A copy of the node, equal to it in every part.
    pub fn duplicate(&self) -> (copy: UnaryExpression)
        ensures
            copy == *self,
        decreases self,
    {
        UnaryExpression {
            receiver: Box::new(self.receiver.duplicate()),
            op: self.op,
            span: self.span,
        }
    }
}

impl StructExpression {
    /// A copy of the literal, equal to it in every part.
    pub fn duplicate(&self) -> (copy: StructExpression)
        ensures
            copy == *self,
        decreases self,
    {
        StructExpression {
            name: self.name,
            members: duplicate_members(&self.members),
            span: self.span,
        }
    }
}

/// Whether every expression of the list is `error_free`.
pub open spec fn all_error_free(expressions: List<Expression>) -> bool
    decreases expressions,
{
    match expressions {
        List::Nil => true,
        List::Cons(head, tail) => head.error_free() && all_error_free(*tail),
    }
}

/// Tells whether every expression of the list is `error_free`.
pub fn are_error_free(expressions: &List<Expression>) -> (free: bool)
    ensures
        free == all_error_free(*expressions),
    decreases expressions,
{
    match expressions {
        List::Nil => true,
        List::Cons(head, tail) => head.is_error_free() && are_error_free(tail),
    }
}

/// A copy of a list of expressions, equal to it in every part.
pub fn duplicate_all(expressions: &List<Expression>) -> (copy: List<Expression>)
    ensures
        copy == *expressions,
    decreases expressions,
{
    match expressions {
        List::Nil => List::Nil,
        List::Cons(head, tail) => List::Cons(
            Box::new(head.duplicate()),
            Box::new(duplicate_all(tail)),
        ),
    }
}

/// A copy of the members of a struct literal, equal to them in every part.
pub fn duplicate_members(members: &List<StructMember>) -> (copy: List<StructMember>)
    ensures
        copy == *members,
    decreases members,
{
    match members {
        List::Nil => List::Nil,
        List::Cons(head, tail) => {
            let expression = match &head.expression {
                Some(expression) => Some(Box::new(expression.duplicate())),
                None => None,
            };
            List::Cons(
                Box::new(StructMember { identifier: head.identifier, expression }),
                Box::new(duplicate_members(tail)),
            )
        },
    }
}

} // verus!
