//! The checks a physics simulation's bodies and orbits must pass that
//! concern their identities: names that are present, an orbit that does
//! not circle its own body, and at most one body held still (the sun).
//! The checks on masses, radii, colours and orbital elements are on
//! floating-point values and stand beside the simulation itself.
use vstd::prelude::*;
use crate::error::{Error, Result};
use crate::text::{decimal, push_decimal, str_eq};

verus! {

/// A body must be named: an empty id is a validation error.
pub fn check_body_id(id: &str) -> (r: Result<()>)
    ensures
        r is Ok <==> id@.len() > 0,
        r matches Err(e) ==> e matches Error::Validation(m) && m@
            == "CelestialBody ID cannot be empty"@,
{
    if id.unicode_len() == 0 {
        return Err(Error::Validation(String::from_str("CelestialBody ID cannot be empty")));
    }
    Ok(())
}

/// The first failing identity check of an orbit of the body `body_id`
/// around the body `parent_id`, in the order they are made.
pub open spec fn orbit_ids_error(body_id: Seq<char>, parent_id: Seq<char>) -> Option<Seq<char>> {
    if body_id.len() == 0 {
        Some("Orbit body_id cannot be empty"@)
    } else if parent_id.len() == 0 {
        Some("Orbit parent_id cannot be empty"@)
    } else if body_id == parent_id {
        Some("Body cannot orbit itself"@)
    } else {
        None
    }
}

/// An orbit passes the identity check exactly when both ids are named and
/// differ as strings; it is refused as circling itself exactly when a named
/// body id equals the parent id.
pub proof fn lemma_orbit_ids_rule(body_id: Seq<char>, parent_id: Seq<char>)
    ensures
        orbit_ids_error(body_id, parent_id) is None <==> (body_id.len() > 0 && parent_id.len() > 0
            && body_id != parent_id),
        orbit_ids_error(body_id, parent_id) == Some("Body cannot orbit itself"@) <==> (
        body_id.len() > 0 && body_id == parent_id),
{
    reveal_strlit("Body cannot orbit itself");
    reveal_strlit("Orbit body_id cannot be empty");
    reveal_strlit("Orbit parent_id cannot be empty");
    assert("Body cannot orbit itself"@ != "Orbit body_id cannot be empty"@) by {
        assert("Body cannot orbit itself"@[0] != "Orbit body_id cannot be empty"@[0]);
    }
    assert("Body cannot orbit itself"@ != "Orbit parent_id cannot be empty"@) by {
        assert("Body cannot orbit itself"@[0] != "Orbit parent_id cannot be empty"@[0]);
    }
}

/// An orbit names the body that follows it and the body it circles; both
/// must be named, and they must differ.
pub fn check_orbit_ids(body_id: &str, parent_id: &str) -> (r: Result<()>)
    ensures
        r is Ok <==> orbit_ids_error(body_id@, parent_id@) is None,
        r matches Err(e) ==> e matches Error::Validation(m) && Some(m@) == orbit_ids_error(
            body_id@,
            parent_id@,
        ),
        r is Ok <==> (body_id@.len() > 0 && parent_id@.len() > 0 && body_id@ != parent_id@),
        (r matches Err(Error::Validation(m)) && m@ == "Body cannot orbit itself"@) <==> (
        body_id@.len() > 0 && body_id@ == parent_id@),
{
    proof {
        lemma_orbit_ids_rule(body_id@, parent_id@);
    }
    if body_id.unicode_len() == 0 {
        return Err(Error::Validation(String::from_str("Orbit body_id cannot be empty")));
    }
    if parent_id.unicode_len() == 0 {
        return Err(Error::Validation(String::from_str("Orbit parent_id cannot be empty")));
    }
    if str_eq(body_id, parent_id) {
        return Err(Error::Validation(String::from_str("Body cannot orbit itself")));
    }
    Ok(())
}

/// How many of the flags are set.
pub open spec fn count_set(flags: Seq<bool>) -> nat
    decreases flags.len(),
{
    if flags.len() == 0 {
        0
    } else {
        count_set(flags.drop_last()) + if flags.last() {
            1nat
        } else {
            0nat
        }
    }
}

/// The message for a simulation that holds `n` static bodies.
pub open spec fn static_bodies_text(n: nat) -> Seq<char> {
    "Expected exactly 1 static body, found "@ + decimal(n)
}

/// A simulation holds at most one body that does not move: `is_static`
/// lists, body by body, whether it is held still. More than one is a
/// validation error that says how many there are.
pub fn check_static_bodies(is_static: &[bool]) -> (r: Result<()>)
    ensures
        r is Ok <==> count_set(is_static@) <= 1,
        r matches Err(e) ==> e matches Error::Validation(m) && m@ == static_bodies_text(
            count_set(is_static@),
        ),
{
    let n = is_static.len();
    let mut count: usize = 0;
    let mut i: usize = 0;
    while i < n
        invariant
            n == is_static@.len(),
            i <= n,
            count == count_set(is_static@.take(i as int)),
            count <= i,
        decreases n - i,
    {
        assert(is_static@.take(i as int + 1).drop_last() =~= is_static@.take(i as int));
        if is_static[i] {
            count = count + 1;
        }
        i = i + 1;
    }
    assert(is_static@.take(n as int) =~= is_static@);
    if count > 1 {
        let mut s = String::from_str("Expected exactly 1 static body, found ");
        push_decimal(&mut s, count as u64);
        return Err(Error::Validation(s));
    }
    Ok(())
}

} // verus!
