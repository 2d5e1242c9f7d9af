pub mod cafe;
pub mod city;
pub mod meadow;
pub mod sakura;

use vstd::prelude::*;

verus! {

/// The names of all available scenes, in listing order.
pub open spec fn scene_names() -> Seq<Seq<char>> {
    seq!["city"@, "cafe"@, "meadow"@]
}

/// Returns the names of all available scenes.
pub fn names() -> (r: Vec<&'static str>)
    ensures
        r@.len() == 3,
        forall|i: int| 0 <= i < 3 ==> (#[trigger] r@[i])@ == scene_names()[i],
{
    let mut r: Vec<&'static str> = Vec::new();
    r.push("city");
    r.push("cafe");
    r.push("meadow");
    r
}

} // verus!
