//! The textual form `(r, i, j, k)` of a quaternion.

use crate::quaternion::Quaternion;
use core::fmt::Display;
use vstd::prelude::*;
use vstd::string::to_string_from_display_ensures;

verus! {

/// The text `(r, i, j, k)` around the four given component texts.
pub open spec fn rendered(r: Seq<char>, i: Seq<char>, j: Seq<char>, k: Seq<char>) -> Seq<char> {
    seq!['('] + r + seq![',', ' '] + i + seq![',', ' '] + j + seq![',', ' '] + k + seq![')']
}

/// Puts the texts of the four components into the form `(r, i, j, k)`.
pub fn render(r: &str, i: &str, j: &str, k: &str) -> (out: String)
    ensures
        out@ == rendered(r@, i@, j@, k@),
{
    let mut out = String::from_str("(");
    out.append(r);
    out.append(", ");
    out.append(i);
    out.append(", ");
    out.append(j);
    out.append(", ");
    out.append(k);
    out.append(")");
    proof {
        reveal_strlit("(");
        reveal_strlit(", ");
        reveal_strlit(")");
        assert("("@ =~= seq!['(']);
        assert(", "@ =~= seq![',', ' ']);
        assert(")"@ =~= seq![')']);
    }
    out
}

impl<T: Display> Quaternion<T> {
    /// `out` is a text `(r, i, j, k)` in which each component stands as the scalar
    /// type's own `Display` may write it.
    pub open spec fn is_text(self, out: Seq<char>) -> bool {
        exists|r: String, i: String, j: String, k: String|
            {
                &&& #[trigger] to_string_from_display_ensures::<T>(&self.r, r)
                &&& #[trigger] to_string_from_display_ensures::<T>(&self.i, i)
                &&& #[trigger] to_string_from_display_ensures::<T>(&self.j, j)
                &&& #[trigger] to_string_from_display_ensures::<T>(&self.k, k)
                &&& out == rendered(r@, i@, j@, k@)
            }
    }

    /// The quaternion as `(r, i, j, k)`, each component in the text that the scalar
    /// type's own `Display` gives it.
    pub fn to_string(&self) -> (out: String)
        ensures
            self.is_text(out@),
    {
        let r = self.r.to_string();
        let i = self.i.to_string();
        let j = self.j.to_string();
        let k = self.k.to_string();
        render(r.as_str(), i.as_str(), j.as_str(), k.as_str())
    }
}

} // verus!
