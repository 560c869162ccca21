//! The string-coercion layer: one policy for turning optional or fallible
//! string-like values into plain strings. A present value passes through
//! unchanged and an absent one becomes the empty string. A value that is not
//! cleanly a string — an error result — has no honest substitute: coercing
//! one is excluded by contract, never papered over with a placeholder.

use vstd::pervasive::unreached;
use vstd::prelude::*;

verus! {

/// Coercion of a borrowed optional string-like value into a plain string.
pub trait UnwrapToString {
    /// Whether a plain string may be demanded of the value. Everything but
    /// an error result is coercible.
    spec fn coercible(&self) -> bool;

    /// The string the value stands for: its text when present, empty when
    /// absent.
    spec fn coerced(&self) -> Seq<char>;

    /// The plain string the value stands for.
    fn unwrap_to_string(&self) -> (r: String)
        requires
            self.coercible(),
        ensures
            r@ == self.coerced(),
    ;
}

/// Coercion of an owned optional or fallible string-like value into a plain
/// string, consuming it.
pub trait OwnedUnwrapToString: Sized {
    /// Whether a plain string may be demanded of the value. Everything but
    /// an error result is coercible.
    spec fn coercible(&self) -> bool;

    /// The string the value stands for: its text when present, empty when
    /// absent.
    spec fn coerced(&self) -> Seq<char>;

    /// The plain string the value stands for.
    fn unwrap_to_string(self) -> (r: String)
        requires
            self.coercible(),
        ensures
            r@ == self.coerced(),
    ;
}

/// The coercion policy, stated whole over every string-like shape below: a
/// present value coerces to its own text unchanged, an absent one to the
/// empty string, and an error result is never coercible — `unwrap_to_string`
/// demands `coercible`, so no string, empty or otherwise, is ever returned
/// for an error.
pub proof fn lemma_coercion_policy<E>(
    borrowed: Option<&str>,
    owned: Option<String>,
    fallible: Result<String, E>,
)
    ensures
        borrowed.coercible() && owned.coercible(),
        borrowed matches Some(s) ==> borrowed.coerced() == s@,
        borrowed is None ==> borrowed.coerced() == Seq::<char>::empty(),
        owned matches Some(s) ==> owned.coerced() == s@,
        owned is None ==> owned.coerced() == Seq::<char>::empty(),
        fallible.coercible() <==> fallible is Ok,
        fallible matches Ok(s) ==> fallible.coerced() == s@,
{
}

impl UnwrapToString for Option<&str> {
    open spec fn coercible(&self) -> bool {
        true
    }

    open spec fn coerced(&self) -> Seq<char> {
        match *self {
            Some(s) => s@,
            None => Seq::<char>::empty(),
        }
    }

    fn unwrap_to_string(&self) -> (r: String) {
        match *self {
            Some(s) => s.to_owned(),
            None => String::new(),
        }
    }
}

impl OwnedUnwrapToString for Option<String> {
    open spec fn coercible(&self) -> bool {
        true
    }

    open spec fn coerced(&self) -> Seq<char> {
        match *self {
            Some(ref s) => s@,
            None => Seq::<char>::empty(),
        }
    }

    fn unwrap_to_string(self) -> (r: String) {
        match self {
            Some(s) => s,
            None => String::new(),
        }
    }
}

impl<E> OwnedUnwrapToString for Result<String, E> {
    open spec fn coercible(&self) -> bool {
        self is Ok
    }

    open spec fn coerced(&self) -> Seq<char> {
        match *self {
            Ok(ref s) => s@,
            Err(_) => Seq::<char>::empty(),
        }
    }

    fn unwrap_to_string(self) -> (r: String) {
        match self {
            Ok(s) => s,
            Err(_) => unreached(),
        }
    }
}

impl<'a, E> OwnedUnwrapToString for Result<&'a str, E> {
    open spec fn coercible(&self) -> bool {
        self is Ok
    }

    open spec fn coerced(&self) -> Seq<char> {
        match *self {
            Ok(s) => s@,
            Err(_) => Seq::<char>::empty(),
        }
    }

    fn unwrap_to_string(self) -> (r: String) {
        match self {
            Ok(s) => s.to_owned(),
            Err(_) => unreached(),
        }
    }
}

} // verus!
