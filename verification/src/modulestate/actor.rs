use crate::protos::module::Actor;
use crate::text::str_eq;
use vstd::prelude::*;

verus! {

/// The actor kept under `property` in a list of (property, actor) pairs: that of the first
/// pair with that property.
pub open spec fn owner_of(map: Seq<(String, Actor)>, property: Seq<char>) -> Option<Actor>
    decreases map.len(),
{
    if map.len() == 0 {
        None
    } else if map[0].0@ == property {
        Some(map[0].1)
    } else {
        owner_of(map.subrange(1, map.len() as int), property)
    }
}

/// The properties of a list of (property, actor) pairs, in order.
pub open spec fn owned_properties(map: Seq<(String, Actor)>) -> Seq<Seq<char>> {
    map.map_values(|e: (String, Actor)| e.0@)
}

/// The actor recorded as the owner of `property`.
pub fn get_owner<'a>(map: &'a Vec<(String, Actor)>, property: &str) -> (r: Option<&'a Actor>)
    ensures
        match owner_of(map@, property@) {
            Some(a) => r == Some(&a),
            None => r is None,
        },
{
    let mut i: usize = 0;
    proof {
        assert(map@.subrange(0, map.len() as int) =~= map@);
    }
    while i < map.len()
        invariant
            i <= map.len(),
            owner_of(map@, property@) == owner_of(map@.subrange(i as int, map.len() as int), property@),
        decreases map.len() - i,
    {
        let ghost rest = map@.subrange(i as int, map.len() as int);
        proof {
            assert(rest[0] == map@[i as int]);
            assert(rest.subrange(1, rest.len() as int) =~= map@.subrange(i + 1, map.len() as int));
        }
        if str_eq(map[i].0.as_str(), property) {
            return Some(&map[i].1);
        }
        i = i + 1;
    }
    None
}

} // verus!
