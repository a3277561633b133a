//! The language standards that a project can be built for.

use vstd::prelude::*;
use crate::text::same_text;

verus! {

/// The token that stands for "take the standard from the stored defaults".
pub open spec fn sentinel() -> Seq<char> {
    "cfg"@
}

/// The tokens of the real standards, oldest first.
pub open spec fn standard_names() -> Seq<Seq<char>> {
    seq!["c++98"@, "c++03"@, "c++11"@, "c++14"@, "c++17"@, "c++20"@, "c++23"@]
}

/// Whether `s` names a real standard, which excludes the sentinel.
pub open spec fn is_standard(s: Seq<char>) -> bool {
    exists|i: int| 0 <= i < standard_names().len() && #[trigger] standard_names()[i] == s
}

/// The sentinel differs from every real standard, and no standard is empty.
pub proof fn lemma_standards_are_real(s: Seq<char>)
    requires
        is_standard(s),
    ensures
        s != sentinel(),
        s.len() == 5,
{
    reveal_strlit("cfg");
    reveal_strlit("c++98");
    reveal_strlit("c++03");
    reveal_strlit("c++11");
    reveal_strlit("c++14");
    reveal_strlit("c++17");
    reveal_strlit("c++20");
    reveal_strlit("c++23");
}

/// Every token that the command line accepts for a standard: the real
/// standards in order, then the sentinel.
pub fn cpp_standards() -> (r: [&'static str; 8])
    ensures
        forall|i: int| 0 <= i < 7 ==> (#[trigger] r@[i])@ == standard_names()[i],
        r@[7]@ == sentinel(),
{
    ["c++98", "c++03", "c++11", "c++14", "c++17", "c++20", "c++23", "cfg"]
}

/// Tells whether `s` names a real standard.
pub fn is_cpp_standard(s: &str) -> (r: bool)
    ensures
        r == is_standard(s@),
{
    let all = cpp_standards();
    let mut i: usize = 0;
    while i < 7
        invariant
            i <= 7,
            forall|j: int| 0 <= j < 7 ==> (#[trigger] all@[j])@ == standard_names()[j],
            forall|j: int| 0 <= j < i ==> #[trigger] standard_names()[j] != s@,
        decreases 7 - i,
    {
        if same_text(all[i], s) {
            assert(standard_names()[i as int] == s@);
            return true;
        }
        i = i + 1;
    }
    false
}

/// Tells whether `s` is the sentinel.
pub fn is_sentinel(s: &str) -> (r: bool)
    ensures
        r == (s@ == sentinel()),
{
    same_text(s, "cfg")
}

} // verus!
