//! [`EventSetExtAttr`]
use vstd::prelude::*;
use vstd::string::StringSliceAdditionalSpecFns;

use crate::file::{file_debug_text, file_hash_codes, File, RawFile};
use crate::kind::{accessor_names, declared_names, EventKind};
use crate::value::{
    bytes_equal, concat, debug_record, debug_text, encode_record, encode_text, entries, fnv1a,
    hash_parts, push_quoted, quoted, record_code, text_code, views,
};

verus! {

/// Raw record of an extended attribute being set.
pub struct RawSetExtAttr {
    /// The file for which the extended attribute will be set.
    pub target: RawFile,
    /// The extended attribute which will be set, as delivered.
    pub extattr: Vec<u8>,
    /// Reserved bytes, not part of the event's value.
    pub reserved: [u8; 64],
}

/// Hash codes of a set-extended-attribute record's declared fields, in
/// declared order: `extattr`, `target` (the codes of the file's own declared
/// fields, framed as a nested record).
pub open spec fn setextattr_hash_codes(raw: RawSetExtAttr) -> Seq<Seq<u8>> {
    seq![text_code(raw.extattr@), record_code(file_hash_codes(raw.target))]
}

/// Debug representation of a set-extended-attribute record:
/// `EventSetExtAttr { extattr: "...", target: File { ... } }`.
pub open spec fn setextattr_debug_text(raw: RawSetExtAttr) -> Seq<u8> {
    debug_text(
        "EventSetExtAttr".spec_bytes(),
        entries(declared_names(EventKind::SetExtAttr), seq![quoted(raw.extattr@), file_debug_text(raw.target)]),
    )
}

/// Set an extended attribute event.
pub struct EventSetExtAttr<'a> {
    /// Raw event
    pub raw: &'a RawSetExtAttr,
}

impl<'a> EventSetExtAttr<'a> {
    /// Binds a view to a raw record.
    pub fn new(raw: &'a RawSetExtAttr) -> (r: EventSetExtAttr<'a>)
        ensures
            r.raw == raw,
    {
        EventSetExtAttr { raw }
    }

    /// The extended attribute which will be set.
    pub fn extattr(&self) -> (r: &'a [u8])
        ensures
            r@ == self.raw.extattr@,
    {
        let raw: &'a RawSetExtAttr = self.raw;
        raw.extattr.as_slice()
    }

    /// The file for which the extended attribute will be set: a nested view
    /// with the same scope as this one.
    pub fn target(&self) -> (r: File<'a>)
        ensures
            *r.raw == self.raw.target,
    {
        let raw: &'a RawSetExtAttr = self.raw;
        File::new(&raw.target)
    }

    /// Hash codes of the declared fields, in declared order.
    pub open spec fn hash_codes(&self) -> Seq<Seq<u8>> {
        setextattr_hash_codes(*self.raw)
    }

    /// The hash codes of the declared fields, in declared order.
    pub fn hash_parts(&self) -> (r: Vec<Vec<u8>>)
        ensures
            views(r@) == self.hash_codes(),
    {
        let target_parts: Vec<Vec<u8>> = self.target().hash_parts();
        let r: Vec<Vec<u8>> = vec![encode_text(self.extattr()), encode_record(&target_parts)];
        assert(views(r@) =~= self.hash_codes());
        r
    }

    /// Hash of the declared fields, combined in declared order.
    pub fn value_hash(&self) -> (r: u64)
        ensures
            r == fnv1a(concat(self.hash_codes())),
    {
        hash_parts(&self.hash_parts())
    }

    /// Debug representation: the declared fields, by name, in declared order,
    /// the target rendered as its own record.
    pub fn debug_repr(&self) -> (r: Vec<u8>)
        ensures
            r@ == setextattr_debug_text(*self.raw),
    {
        let mut extattr: Vec<u8> = Vec::new();
        push_quoted(&mut extattr, self.extattr());
        let target: Vec<u8> = self.target().debug_repr();
        let names: Vec<&str> = accessor_names(EventKind::SetExtAttr);
        let values: Vec<Vec<u8>> = vec![extattr, target];
        assert(views(values@) =~= seq![quoted(self.raw.extattr@), file_debug_text(self.raw.target)]);
        debug_record("EventSetExtAttr", &names, &values)
    }
}

impl<'a> PartialEq for EventSetExtAttr<'a> {
    fn eq(&self, other: &EventSetExtAttr<'a>) -> (r: bool) {
        bytes_equal(self.extattr(), other.extattr()) && self.target() == other.target()
    }
}

impl<'a> vstd::std_specs::cmp::PartialEqSpecImpl for EventSetExtAttr<'a> {
    open spec fn obeys_eq_spec() -> bool {
        true
    }

    open spec fn eq_spec(&self, other: &EventSetExtAttr<'a>) -> bool {
        self.raw.extattr@ == other.raw.extattr@
            && self.raw.target.path@ == other.raw.target.path@
            && self.raw.target.path_truncated == other.raw.target.path_truncated
    }
}

} // verus!
