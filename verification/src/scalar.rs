//! JSON scalar values as they appear in a plugin's environment map: strings,
//! integers and booleans, together with their canonical textual form.

use vstd::prelude::*;

use crate::numfmt::{i64_to_string, spec_i64_str};
use crate::strmap::Dup;

verus! {

/// A scalar environment value from a configuration document.
pub enum Scalar {
    Text(String),
    Int(i64),
    /// A JSON number outside the signed-integer range, carried in its
    /// literal textual form.
    Num(String),
    Bool(bool),
}

/// The mathematical value of a [`Scalar`].
pub enum ScalarV {
    Text(Seq<char>),
    Int(int),
    Num(Seq<char>),
    Bool(bool),
}

impl View for Scalar {
    type V = ScalarV;

    open spec fn view(&self) -> ScalarV {
        match self {
            Scalar::Text(s) => ScalarV::Text(s@),
            Scalar::Int(n) => ScalarV::Int(*n as int),
            Scalar::Num(s) => ScalarV::Num(s@),
            Scalar::Bool(b) => ScalarV::Bool(*b),
        }
    }
}

/// The canonical string form of a scalar: strings verbatim, numbers and
/// booleans in their literal textual form.
pub open spec fn spec_scalar_str(v: ScalarV) -> Seq<char> {
    match v {
        ScalarV::Text(s) => s,
        ScalarV::Int(n) => spec_i64_str(n),
        ScalarV::Num(s) => s,
        ScalarV::Bool(b) => if b {
            "true"@
        } else {
            "false"@
        },
    }
}

impl Scalar {
    /// Renders the scalar in its canonical string form.
    pub fn to_text(&self) -> (r: String)
        ensures
            r@ == spec_scalar_str(self@),
    {
        match self {
            Scalar::Text(s) => s.clone(),
            Scalar::Int(n) => i64_to_string(*n),
            Scalar::Num(s) => s.clone(),
            Scalar::Bool(b) => {
                if *b {
                    String::from_str("true")
                } else {
                    String::from_str("false")
                }
            },
        }
    }

}

impl Dup for Scalar {
    /// An exact copy of the scalar.
    fn dup(&self) -> (r: Scalar)
        ensures
            r@ == self@,
    {
        match self {
            Scalar::Text(s) => Scalar::Text(s.clone()),
            Scalar::Int(n) => Scalar::Int(*n),
            Scalar::Num(s) => Scalar::Num(s.clone()),
            Scalar::Bool(b) => Scalar::Bool(*b),
        }
    }
}

} // verus!
