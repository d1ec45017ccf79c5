//! A list that holds at least one item.
use vstd::prelude::*;

verus! {

/// The error of making a [`OneOrMany`] out of nothing.
#[derive(Clone, Copy, Debug, PartialEq, Eq)]
pub struct EmptyListError;

/// One item, and any number of further items behind it.
#[derive(Clone, Debug, PartialEq, Eq)]
pub struct OneOrMany<T> {
    /// The item that is always there.
    pub first: T,
    /// The items after it, in order.
    pub rest: Vec<T>,
}

impl<T> View for OneOrMany<T> {
    type V = Seq<T>;

    open spec fn view(&self) -> Seq<T> {
        seq![self.first] + self.rest@
    }
}

impl<T> OneOrMany<T> {
    /// A list of a single item.
    pub fn one(item: T) -> (list: OneOrMany<T>)
        ensures
            list@ == seq![item],
    {
        let list = OneOrMany { first: item, rest: Vec::new() };
        assert(list@ =~= seq![item]);
        list
    }

    /// A list of the given items, in their order; an error if there are none.
    pub fn many(items: Vec<T>) -> (list: Result<OneOrMany<T>, EmptyListError>)
        ensures
            match list {
                Ok(list) => items@.len() > 0 && list@ == items@,
                Err(_) => items@.len() == 0,
            },
    {
        let mut rest = items;
        if rest.len() == 0 {
            return Err(EmptyListError);
        }
        let first = rest.remove(0);
        let list = OneOrMany { first, rest };
        assert(list@ =~= items@);
        Ok(list)
    }
}

} // verus!
