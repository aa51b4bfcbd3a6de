use vstd::prelude::*;

verus! {

/// Whether a name holds a NUL character. The store takes its names as C strings, which end
/// at the first NUL, so such a name cannot be handed over.
pub open spec fn has_nul(name: Seq<char>) -> bool {
    exists|i: int| 0 <= i < name.len() && name[i] == '\0'
}

/// Tells whether `name` holds a NUL character.
pub fn contains_nul(name: &str) -> (found: bool)
    ensures
        found == has_nul(name@),
{
    let mut found = false;
    for c in it: name.chars()
        invariant
            it.seq() == name@,
            found == has_nul(name@.take(it.index() as int)),
    {
        proof {
            let n = it.index() as int;
            assert(name@.take(n + 1) =~= name@.take(n).push(c));
            if has_nul(name@.take(n)) {
                let i = choose|i: int| 0 <= i < n && name@.take(n)[i] == '\0';
                assert(name@.take(n + 1)[i] == '\0');
            }
            if c == '\0' {
                assert(name@.take(n + 1)[n] == '\0');
            }
        }
        if c == '\0' {
            found = true;
        }
    }
    assert(name@.take(name@.len() as int) =~= name@);
    found
}

} // verus!
