//! Laws of the value semantics that relate several views or several orders.
use vstd::prelude::*;

use crate::event_lw_session_unlock::{session_unlock_debug_text, EventLwSessionUnlock};
use crate::event_setextattr::{setextattr_debug_text, EventSetExtAttr};
use crate::event_setgid::{setgid_debug_text, EventSetgid};
use crate::value::{concat, fnv1a};
use vstd::std_specs::cmp::PartialEqSpec;

verus! {

/// Two parts laid end to end.
proof fn lemma_concat_two(a: Seq<u8>, b: Seq<u8>)
    ensures
        concat(seq![a, b]) == a + b,
{
    let s2 = seq![a, b];
    let s1 = seq![a];
    assert(s2.drop_last() =~= s1);
    assert(s1.drop_last() =~= Seq::<Seq<u8>>::empty());
    assert(concat(Seq::<Seq<u8>>::empty()) == Seq::<u8>::empty());
    assert(concat(s1) == concat(s1.drop_last()) + s1.last());
    assert(concat(s1) =~= a);
    assert(concat(s2) == concat(s2.drop_last()) + s2.last());
    assert(concat(s2) =~= a + b);
}

/// Two parts whose first bytes differ give different streams in either
/// order.
proof fn lemma_swap_two(a: Seq<u8>, b: Seq<u8>)
    requires
        a.len() > 0,
        b.len() > 0,
        a[0] != b[0],
    ensures
        concat(seq![b, a]) != concat(seq![a, b]),
{
    lemma_concat_two(a, b);
    lemma_concat_two(b, a);
    assert((a + b)[0] == a[0]);
    assert((b + a)[0] == b[0]);
}

/// Two views of a `setgid()` record over identical records are equal, hash
/// equal and render alike.
pub proof fn lemma_setgid_identical_records(x: EventSetgid, y: EventSetgid)
    requires
        *x.raw == *y.raw,
    ensures
        x.eq_spec(&y),
        fnv1a(concat(x.hash_codes())) == fnv1a(concat(y.hash_codes())),
        setgid_debug_text(*x.raw) == setgid_debug_text(*y.raw),
{
}

/// Two views of an unlock record over identical records are equal, hash equal
/// and render alike.
pub proof fn lemma_session_unlock_identical_records(x: EventLwSessionUnlock, y: EventLwSessionUnlock)
    requires
        *x.raw == *y.raw,
    ensures
        x.eq_spec(&y),
        fnv1a(concat(x.hash_codes())) == fnv1a(concat(y.hash_codes())),
        session_unlock_debug_text(*x.raw) == session_unlock_debug_text(*y.raw),
{
}

/// Two views of a set-extended-attribute record over identical records are
/// equal, hash equal and render alike.
pub proof fn lemma_setextattr_identical_records(x: EventSetExtAttr, y: EventSetExtAttr)
    requires
        *x.raw == *y.raw,
    ensures
        x.eq_spec(&y),
        fnv1a(concat(x.hash_codes())) == fnv1a(concat(y.hash_codes())),
        setextattr_debug_text(*x.raw) == setextattr_debug_text(*y.raw),
{
}

/// Reserved bytes are not part of a `setgid()` event's value: records that
/// agree on `gid` give equal views that hash equal and render alike.
pub proof fn lemma_setgid_reserved_unobserved(x: EventSetgid, y: EventSetgid)
    requires
        x.raw.gid == y.raw.gid,
    ensures
        x.eq_spec(&y),
        x.hash_codes() == y.hash_codes(),
        setgid_debug_text(*x.raw) == setgid_debug_text(*y.raw),
{
}

/// Reserved bytes are not part of a set-extended-attribute event's value:
/// records that agree on the attribute and on the target file's declared
/// fields give equal views that hash equal and render alike.
pub proof fn lemma_setextattr_reserved_unobserved(x: EventSetExtAttr, y: EventSetExtAttr)
    requires
        x.raw.extattr@ == y.raw.extattr@,
        x.raw.target.path@ == y.raw.target.path@,
        x.raw.target.path_truncated == y.raw.target.path_truncated,
    ensures
        x.eq_spec(&y),
        x.hash_codes() == y.hash_codes(),
        setextattr_debug_text(*x.raw) == setextattr_debug_text(*y.raw),
{
}

/// The hash of an unlock view depends on the declared order: with its two
/// fields swapped, the stream fed to the hash is a different one, whatever
/// the content.
pub proof fn lemma_session_unlock_order_matters(x: EventLwSessionUnlock)
    ensures
        concat(seq![x.hash_codes()[1], x.hash_codes()[0]]) != concat(x.hash_codes()),
{
    let c = x.hash_codes();
    assert(c =~= seq![c[0], c[1]]);
    assert(c[0][0] == 115u8);
    assert(c[1][0] == 117u8);
    lemma_swap_two(c[0], c[1]);
}

/// The hash of a set-extended-attribute view depends on the declared order:
/// with its two fields swapped, the stream fed to the hash is a different
/// one, whatever the content.
pub proof fn lemma_setextattr_order_matters(x: EventSetExtAttr)
    ensures
        concat(seq![x.hash_codes()[1], x.hash_codes()[0]]) != concat(x.hash_codes()),
{
    let c = x.hash_codes();
    assert(c =~= seq![c[0], c[1]]);
    assert(c[0][0] == 115u8);
    assert(c[1][0] == 114u8);
    lemma_swap_two(c[0], c[1]);
}

} // verus!
