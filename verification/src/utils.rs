//! Use the value of something optional, creating it first when it is absent.

use vstd::prelude::*;

verus! {

/// Relies on `str`'s `PartialEq`: equality of the character sequences.
#[verifier::external_body]
pub(crate) fn str_eq(a: &str, b: &str) -> (r: bool)
    ensures
        r == (a@ == b@),
{
    a == b
}

/// Apply a function to the contents of an optional container, creating the
/// contents first when the container is empty.
pub trait UseOrCreate<T: Default>: Sized {
    /// What the container holds, if anything.
    spec fn contents(self) -> Option<T>;

    /// Run `f` on the held value, creating one first if none is held.
    ///
    /// Afterwards a value is always held: the result of `f` applied either to
    /// the previously held value or to a freshly created one.
    fn use_or_create<F: FnOnce(T) -> T>(&mut self, f: F)
        requires
            forall|t: T| #[trigger] call_requires(f, (t,)),
        ensures
            match old(self).contents() {
                Some(t) => final(self).contents() matches Some(r) && call_ensures(f, (t,), r),
                None => final(self).contents() matches Some(r) && (exists|t: T|
                    call_ensures(T::default, (), t) && call_ensures(f, (t,), r)),
            },
    ;
}

impl<T: Default> UseOrCreate<T> for Option<T> {
    open spec fn contents(self) -> Option<T> {
        self
    }

    fn use_or_create<F: FnOnce(T) -> T>(&mut self, f: F) {
        let prev = self.take();
        match prev {
            Some(value) => {
                *self = Some(f(value));
            },
            None => {
                let value = T::default();
                *self = Some(f(value));
            },
        }
    }
}

} // verus!
