//! Index-addressed insertion and removal on an ordered sequence of strings,
//! implemented by splitting the sequence at the edit point and splicing the
//! pieces back together.

use vstd::prelude::*;

verus! {

/// Error of the sequence editor: the supplied index lies outside the valid
/// range of the operation.  The sequence is left unchanged when it is raised.
#[derive(Clone, Copy, Debug, PartialEq, Eq, Structural)]
pub enum SaladError {
    OutOfRange,
}

/// Places `val` immediately before the element previously at `idx`
/// (appends it, when `idx` equals the length), by splitting the sequence
/// into `[0, idx)` and `[idx, len)`, pushing `val` onto the front part and
/// splicing the back part on again.  An index past the length is rejected
/// with `OutOfRange`, the sequence untouched.
pub fn insert_at(l: &mut Vec<String>, idx: usize, val: String) -> (r: Result<(), SaladError>)
    ensures
        idx <= old(l)@.len() ==> {
            &&& r == Ok::<(), SaladError>(())
            &&& final(l)@ == old(l)@.insert(idx as int, val)
        },
        idx > old(l)@.len() ==> {
            &&& r == Err::<(), SaladError>(SaladError::OutOfRange)
            &&& final(l)@ == old(l)@
        },
{
    if idx > l.len() {
        return Err(SaladError::OutOfRange);
    }
    let mut tail = l.split_off(idx);
    l.push(val);
    l.append(&mut tail);
    Ok(())
}

/// Removes and returns the element at `idx`, by splitting the sequence into
/// `[0, idx + 1)` and `[idx + 1, len)`, popping the last element of the
/// front part and splicing the back part on again.  An index at or past the
/// length is rejected with `OutOfRange`, the sequence untouched.
pub fn remove_at(l: &mut Vec<String>, idx: usize) -> (r: Result<String, SaladError>)
    ensures
        idx < old(l)@.len() ==> {
            &&& r == Ok::<String, SaladError>(old(l)@[idx as int])
            &&& final(l)@ == old(l)@.remove(idx as int)
        },
        idx >= old(l)@.len() ==> {
            &&& r == Err::<String, SaladError>(SaladError::OutOfRange)
            &&& final(l)@ == old(l)@
        },
{
    if idx >= l.len() {
        return Err(SaladError::OutOfRange);
    }
    let mut tail = l.split_off(idx + 1);
    let removed = l.pop().unwrap();
    l.append(&mut tail);
    proof {
        assert(l@ =~= old(l)@.remove(idx as int));
    }
    Ok(removed)
}

/// Law: inserting `v` at a valid index `i` yields a sequence one longer in
/// which `v` stands at `i`, the elements before `i` are unchanged, and the
/// elements from `i` on are shifted one place to the right, their relative
/// order kept.
pub proof fn lemma_insert_properties<T>(s: Seq<T>, i: int, v: T)
    requires
        0 <= i <= s.len(),
    ensures
        s.insert(i, v).len() == s.len() + 1,
        s.insert(i, v)[i] == v,
        forall|j: int| 0 <= j < i ==> s.insert(i, v)[j] == s[j],
        forall|j: int| i <= j < s.len() ==> s.insert(i, v)[j + 1] == s[j],
{
}

/// Law: removing a valid index `i` yields a sequence one shorter in which
/// the elements before `i` are unchanged and the elements after `i` are
/// shifted one place to the left, their relative order kept; the element
/// that `remove_at` returns is the one that stood at `i`.
pub proof fn lemma_remove_properties<T>(s: Seq<T>, i: int)
    requires
        0 <= i < s.len(),
    ensures
        s.remove(i).len() == s.len() - 1,
        forall|j: int| 0 <= j < i ==> s.remove(i)[j] == s[j],
        forall|j: int| i <= j < s.len() - 1 ==> s.remove(i)[j] == s[j + 1],
{
}

/// Law (round trip): inserting `v` at a valid index `i` and removing index
/// `i` again hands back `v` and restores the original sequence exactly.
pub proof fn lemma_insert_remove_round_trip<T>(s: Seq<T>, i: int, v: T)
    requires
        0 <= i <= s.len(),
    ensures
        s.insert(i, v)[i] == v,
        s.insert(i, v).remove(i) == s,
{
    assert(s.insert(i, v).remove(i) =~= s);
}

/// Law (boundaries): inserting at the length appends the value as the last
/// element, and removing index zero drops exactly the first element.
pub proof fn lemma_edit_boundaries<T>(s: Seq<T>, v: T)
    ensures
        s.insert(s.len() as int, v) == s.push(v),
        s.len() > 0 ==> s.remove(0) == s.drop_first(),
        s.len() > 0 ==> s.remove(0).len() == s.len() - 1,
{
    assert(s.insert(s.len() as int, v) =~= s.push(v));
    if s.len() > 0 {
        assert(s.remove(0) =~= s.drop_first());
    }
}

} // verus!
