//! [`EventSetgid`]
use vstd::prelude::*;
use vstd::string::StringSliceAdditionalSpecFns;

use crate::kind::{accessor_names, declared_names, EventKind};
use crate::value::{
    concat, debug_record, debug_text, decimal, encode_unsigned, entries, fnv1a, hash_parts,
    push_decimal, unsigned_code, views,
};

verus! {

/// Raw record of a `setgid()` call.
pub struct RawSetgid {
    /// The `gid` argument of the call.
    pub gid: u32,
    /// Reserved bytes, not part of the event's value.
    pub reserved: [u8; 64],
}

/// Hash codes of a `setgid()` record's declared fields, in declared order:
/// `gid`.
pub open spec fn setgid_hash_codes(raw: RawSetgid) -> Seq<Seq<u8>> {
    seq![unsigned_code(raw.gid as nat)]
}

/// Debug representation of a `setgid()` record: `EventSetgid { gid: 501 }`.
pub open spec fn setgid_debug_text(raw: RawSetgid) -> Seq<u8> {
    debug_text("EventSetgid".spec_bytes(), entries(declared_names(EventKind::Setgid), seq![decimal(raw.gid as nat)]))
}

/// A process has called `setgid()`.
pub struct EventSetgid<'a> {
    /// Raw event
    pub raw: &'a RawSetgid,
}

impl<'a> EventSetgid<'a> {
    /// Binds a view to a raw record.
    pub fn new(raw: &'a RawSetgid) -> (r: EventSetgid<'a>)
        ensures
            r.raw == raw,
    {
        EventSetgid { raw }
    }

    /// Argument to the `setgid()` call.
    pub fn gid(&self) -> (r: u32)
        ensures
            r == self.raw.gid,
    {
        self.raw.gid
    }

    /// Hash codes of the declared fields, in declared order.
    pub open spec fn hash_codes(&self) -> Seq<Seq<u8>> {
        setgid_hash_codes(*self.raw)
    }

    /// The hash codes of the declared fields, in declared order.
    pub fn hash_parts(&self) -> (r: Vec<Vec<u8>>)
        ensures
            views(r@) == self.hash_codes(),
    {
        let r: Vec<Vec<u8>> = vec![encode_unsigned(self.gid() as u64)];
        assert(views(r@) =~= self.hash_codes());
        r
    }

    /// Hash of the declared fields, combined in declared order.
    pub fn value_hash(&self) -> (r: u64)
        ensures
            r == fnv1a(concat(self.hash_codes())),
    {
        hash_parts(&self.hash_parts())
    }

    /// Debug representation: the declared fields, by name, in declared order.
    pub fn debug_repr(&self) -> (r: Vec<u8>)
        ensures
            r@ == setgid_debug_text(*self.raw),
    {
        let mut gid: Vec<u8> = Vec::new();
        push_decimal(&mut gid, self.gid() as u64);
        let names: Vec<&str> = accessor_names(EventKind::Setgid);
        let values: Vec<Vec<u8>> = vec![gid];
        assert(views(values@) =~= seq![decimal(self.raw.gid as nat)]);
        debug_record("EventSetgid", &names, &values)
    }
}

impl<'a> PartialEq for EventSetgid<'a> {
    fn eq(&self, other: &EventSetgid<'a>) -> (r: bool) {
        self.gid() == other.gid()
    }
}

impl<'a> vstd::std_specs::cmp::PartialEqSpecImpl for EventSetgid<'a> {
    open spec fn obeys_eq_spec() -> bool {
        true
    }

    open spec fn eq_spec(&self, other: &EventSetgid<'a>) -> bool {
        self.raw.gid == other.raw.gid
    }
}

} // verus!
