//! Native arrays: a decoded array column as a sequence of optional
//! elements.

use vstd::prelude::*;
use vstd::string::StringExecFns;
use crate::databases::ArrayKind;
use crate::error::DecodeError;
use crate::error::DecodeErrorView;
use crate::scalar::visit_view;
use crate::scalar::Decoded;
use crate::scalar::DecodedView;
use crate::scalar::Visit;
use crate::scalar::VisitView;

verus! {

impl ArrayKind {
    /// The name of the representation that the backend is asked for: a list
    /// of elements that may be null, each in the representation of the
    /// element's kind.
    pub open spec fn target(self) -> Seq<char> {
        "alloc::vec::Vec<core::option::Option<"@ + self.element.target() + ">>"@
    }

    /// The failure of a decode for an array of this kind, with its cause.
    pub open spec fn failure(self, cause: Seq<char>) -> DecodeErrorView {
        DecodeErrorView::Decode { target: self.target(), cause }
    }

    /// What is handed on for one element under a target that takes no null:
    /// the element as its kind says, and an error for a null.
    pub open spec fn visit_element(self, element: Option<DecodedView>) -> Result<
        VisitView,
        DecodeErrorView,
    > {
        match element {
            Some(decoded) => self.element.visit_of(decoded),
            None => Err(DecodeErrorView::NullElement),
        }
    }

    /// The name of the representation that the backend is asked for.
    pub fn target_name(&self) -> (name: String)
        ensures
            name@ == self.target(),
    {
        let mut name = String::from_str("alloc::vec::Vec<core::option::Option<");
        name.append(self.element.target_name());
        name.append(">>");
        name
    }

    /// What is handed on for one element under a target that takes no null.
    pub fn visit(&self, element: PgArrayElementDeserializer<Decoded>) -> (result: Result<
        Visit,
        DecodeError,
    >)
        ensures
            visit_view(result) == self.visit_element(nullable_view(element.value)),
    {
        match element.deserialize_any() {
            Ok(decoded) => self.element.visit_decoded(decoded),
            Err(error) => Err(error),
        }
    }
}

/// The view of one element that may be null.
pub open spec fn nullable_view(element: Option<Decoded>) -> Option<DecodedView> {
    match element {
        Some(decoded) => Some(decoded@),
        None => None,
    }
}

/// The elements of a decoded array column, handed out one by one. The
/// cursor is the access's own: the row's cursor does not move.
pub struct PgArraySeqAccess<T> {
    /// The elements that are still to come, the next one last.
    pub iter: Vec<Option<T>>,
}

/// One element of an array column, which may be null.
pub struct PgArrayElementDeserializer<T> {
    pub value: Option<T>,
}

impl<T> PgArraySeqAccess<T> {
    /// The elements that are still to come, in the order in which they come.
    pub open spec fn remaining(self) -> Seq<Option<T>> {
        self.iter@.reverse()
    }

    /// The access over the elements of a decoded array column, from the
    /// outcome of the decode: over `items` in their order, or the error that
    /// names the representation and carries the backend's cause.
    pub fn new(kind: ArrayKind, outcome: Result<Vec<Option<T>>, String>) -> (result: Result<
        Self,
        DecodeError,
    >)
        ensures
            outcome is Ok ==> result is Ok,
            outcome is Ok ==> result->Ok_0.remaining() == outcome->Ok_0@,
            outcome is Err ==> result is Err,
            outcome is Err ==> result->Err_0@ == kind.failure(outcome->Err_0@),
    {
        let mut items = match outcome {
            Err(cause) => {
                return Err(DecodeError::Decode { target: kind.target_name(), cause });
            },
            Ok(items) => items,
        };
        let ghost all = items@;
        let mut iter: Vec<Option<T>> = Vec::new();
        while items.len() > 0
            invariant
                items@.len() + iter@.len() == all.len(),
                items@ == all.subrange(0, items@.len() as int),
                iter@.reverse() == all.subrange(items@.len() as int, all.len() as int),
            decreases items@.len(),
        {
            let ghost before = iter@;
            let element = items.pop().unwrap();
            iter.push(element);
            assert(iter@.reverse() =~= seq![element] + before.reverse());
            assert(iter@.reverse() =~= all.subrange(items@.len() as int, all.len() as int));
        }
        assert(iter@.reverse() =~= all);
        Ok(PgArraySeqAccess { iter })
    }

    /// The next element, and the rest stays to come; `None` once every
    /// element was handed out.
    pub fn next_element(&mut self) -> (element: Option<PgArrayElementDeserializer<T>>)
        ensures
            old(self).remaining().len() == 0 ==> element is None && final(self).remaining()
                == old(self).remaining(),
            old(self).remaining().len() > 0 ==> element is Some,
            old(self).remaining().len() > 0 ==> element->Some_0.value == old(self).remaining()[0],
            old(self).remaining().len() > 0 ==> final(self).remaining() == old(
                self,
            ).remaining().skip(1),
    {
        match self.iter.pop() {
            None => None,
            Some(value) => {
                assert(final(self).remaining() =~= old(self).remaining().skip(1));
                Some(PgArrayElementDeserializer { value })
            },
        }
    }
}

impl<T> PgArrayElementDeserializer<T> {
    /// For an optional target: the element as it is, null or not.
    pub fn deserialize_option(self) -> (element: Option<T>)
        ensures
            element == self.value,
    {
        self.value
    }

    /// For any other target: the element, and an error for a null.
    pub fn deserialize_any(self) -> (result: Result<T, DecodeError>)
        ensures
            self.value is Some ==> result == Ok::<T, DecodeError>(self.value->Some_0),
            self.value is None ==> result is Err,
            self.value is None ==> result->Err_0@ == DecodeErrorView::NullElement,
    {
        match self.value {
            Some(value) => Ok(value),
            None => Err(DecodeError::NullElement),
        }
    }
}

} // verus!
