use vstd::prelude::*;

verus! {

/// The body of the `/wah` endpoint for the request's `wah` flag.
pub open spec fn wah_message(asked: bool) -> Seq<char> {
    if asked {
        "Ninomae Ina'nis is Cute"@
    } else {
        "not so wah?"@
    }
}

/// The `/wah` endpoint: a compliment when asked for one, a doubt otherwise.
pub fn wah(asked: bool) -> (data: &'static str)
    ensures
        data@ == wah_message(asked),
{
    if asked {
        "Ninomae Ina'nis is Cute"
    } else {
        "not so wah?"
    }
}

} // verus!
