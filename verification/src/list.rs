//! An owned singly linked list.
//!
//! The syntax tree keeps its sequences in this type rather than in `Vec`, so
//! that two trees are equal exactly when they are built from equal parts.

use vstd::prelude::*;

verus! {

/// A finite sequence of `T`, first element outermost.
#[derive(Debug, PartialEq, Eq)]
pub enum List<T> {
    /// The empty list.
    Nil,
    /// An element followed by the rest of the list.
    Cons(Box<T>, Box<List<T>>),
}

impl<T> View for List<T> {
    type V = Seq<T>;

    /// The elements in order.
    open spec fn view(&self) -> Seq<T> {
        self.elements()
    }
}

impl<T> List<T> {
    /// The elements in order.
    pub open spec fn elements(self) -> Seq<T>
        decreases self,
    {
        match self {
            List::Nil => Seq::empty(),
            List::Cons(head, tail) => seq![*head] + tail.elements(),
        }
    }

    /// The empty list.
    pub fn new() -> (list: Self)
        ensures
            list == List::<T>::Nil,
    {
        List::Nil
    }

    /// The list that starts with `head` and goes on with `self`.
    pub fn prepend(self, head: T) -> (list: Self)
        ensures
            list == List::Cons(Box::new(head), Box::new(self)),
            list@ == seq![head] + self@,
    {
        List::Cons(Box::new(head), Box::new(self))
    }

    /// The list of the elements of `items`, in the same order.
    pub fn from_vec(items: Vec<T>) -> (list: Self)
        ensures
            list@ == items@,
    {
        let mut items = items;
        let mut list: List<T> = List::Nil;
        let ghost all = items@;
        while items.len() > 0
            invariant
                items@ + list@ == all,
            decreases items.len(),
        {
            let ghost before = items@;
            let ghost rest = list@;
            let last = items.pop().unwrap();
            list = List::Cons(Box::new(last), Box::new(list));
            assert(items@ + list@ =~= before + rest);
        }
        assert(items@ + list@ =~= list@);
        list
    }

    /// Whether the list has no element.
    pub fn is_empty(&self) -> (empty: bool)
        ensures
            empty == (self@.len() == 0),
            empty == (*self is Nil),
    {
        match self {
            List::Nil => true,
            List::Cons(_, _) => false,
        }
    }

    /// The element at position `index`, if there is one.
    pub fn get(&self, index: usize) -> (item: Option<&T>)
        ensures
            index < self@.len() ==> item == Some(&self@[index as int]),
            index >= self@.len() ==> item is None,
        decreases self,
    {
        match self {
            List::Nil => None,
            List::Cons(head, tail) => {
                if index == 0 {
                    Some(&**head)
                } else {
                    tail.get(index - 1)
                }
            },
        }
    }
}

} // verus!
