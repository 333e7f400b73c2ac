use vstd::prelude::*;

verus! {

/// The greeting the top-level `wah` endpoint returns.
pub open spec fn greeting() -> Seq<char> {
    "Ninomae Ina'nis is Cute"@
}

/// The top-level `wah` endpoint's body: always the same greeting.
pub fn wah() -> (message: &'static str)
    ensures
        message@ == greeting(),
{
    "Ninomae Ina'nis is Cute"
}

} // verus!
