//! A tiny greeting library: a named person who can be greeted, and
//! addition of signed 32-bit integers with a wrapping overflow policy.

use vstd::prelude::*;

verus! {

/// Version marker identifying this library; read-only, used only for
/// identification, never for logic.
pub const VERSION: &'static str = "1.0";

/// The greeting produced for a given name: `"Hello, "` followed by the name.
pub open spec fn greeting_of(name: Seq<char>) -> Seq<char> {
    "Hello, "@ + name
}

/// A person, holding a single text name. The name may be any text: no
/// validation is applied, and the person is immutable after construction.
pub struct Person {
    /// The person's name.
    pub name: String,
}

impl Person {
    /// Returns `"Hello, "` followed by this person's name.
    pub fn greet(&self) -> (r: String)
        ensures
            r@ == greeting_of(self.name@),
    {
        let mut s = String::from_str("Hello, ");
        s.append(self.name.as_str());
        s
    }
}

/// Adds two signed 32-bit integers. The overflow policy is wrapping:
/// whenever the mathematical sum fits in the signed 32-bit range, that sum
/// is returned exactly; otherwise the sum wraps around modulo `2^32`.
pub fn add(a: i32, b: i32) -> (r: i32)
    ensures
        i32::MIN <= a + b <= i32::MAX ==> r == a + b,
        a + b > i32::MAX ==> r == a + b - 0x1_0000_0000,
        a + b < i32::MIN ==> r == a + b + 0x1_0000_0000,
{
    a.wrapping_add(b)
}

/// Calling `greet` twice on the same unmodified person returns identical
/// results: any two values that satisfy `greet`'s postcondition for one
/// person have equal contents.
pub proof fn lemma_greet_idempotent(p: &Person, r1: Seq<char>, r2: Seq<char>)
    requires
        r1 == greeting_of(p.name@),
        r2 == greeting_of(p.name@),
    ensures
        r1 == r2,
{
}

/// The capability to speak: one operation, no declared result. No type of
/// this library implements it; it is offered for downstream types.
pub trait Speak {
    fn speak(&self);
}

} // verus!
