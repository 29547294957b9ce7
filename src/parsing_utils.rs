//! Small shapes shared by the catalog readers.

use vstd::prelude::*;

verus! {

/// A catalog value that may come in either of two shapes.
#[derive(Debug)]
pub enum Either<A, B> {
    A(A),
    B(B),
}

/// A catalog value that this library does not model.
#[derive(Debug)]
pub struct NotImplemented(pub &'static str);

impl NotImplemented {
    pub fn message(&self) -> (r: &'static str)
        ensures
            r@ == self.0@,
    {
        self.0
    }
}

} // verus!
