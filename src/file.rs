//! [`File`]: the view over a file record embedded in an event.
use vstd::prelude::*;
use vstd::string::StringSliceAdditionalSpecFns;

use crate::value::{
    bytes_equal, concat, debug_record, debug_text, encode_flag, encode_text, entries, flag_code,
    flag_text, fnv1a, hash_parts, push_flag, push_quoted, quoted, text_code, views,
};

verus! {

/// Raw file record: the path as delivered, and whether it was cut short.
pub struct RawFile {
    /// Bytes of the path.
    pub path: Vec<u8>,
    /// The path was truncated by the producer.
    pub path_truncated: bool,
}

/// Hash codes of a file record's declared fields, in declared order: `path`,
/// `path_truncated`.
pub open spec fn file_hash_codes(raw: RawFile) -> Seq<Seq<u8>> {
    seq![text_code(raw.path@), flag_code(raw.path_truncated)]
}

/// Debug representation of a file record:
/// `File { path: "...", path_truncated: false }`.
pub open spec fn file_debug_text(raw: RawFile) -> Seq<u8> {
    debug_text(
        "File".spec_bytes(),
        entries(seq!["path", "path_truncated"], seq![quoted(raw.path@), flag_text(raw.path_truncated)]),
    )
}

/// A file, as seen from inside an event, for the scope of the event's record.
pub struct File<'a> {
    /// Raw record
    pub raw: &'a RawFile,
}

impl<'a> File<'a> {
    /// Binds a view to a raw file record.
    pub fn new(raw: &'a RawFile) -> (r: File<'a>)
        ensures
            r.raw == raw,
    {
        File { raw }
    }

    /// Path of the file.
    pub fn path(&self) -> (r: &'a [u8])
        ensures
            r@ == self.raw.path@,
    {
        let raw: &'a RawFile = self.raw;
        raw.path.as_slice()
    }

    /// Whether the path was truncated.
    pub fn path_truncated(&self) -> (r: bool)
        ensures
            r == self.raw.path_truncated,
    {
        self.raw.path_truncated
    }

    /// Hash codes of the declared fields, in declared order.
    pub open spec fn hash_codes(&self) -> Seq<Seq<u8>> {
        file_hash_codes(*self.raw)
    }

    /// The hash codes of the declared fields, in declared order.
    pub fn hash_parts(&self) -> (r: Vec<Vec<u8>>)
        ensures
            views(r@) == self.hash_codes(),
    {
        let r: Vec<Vec<u8>> = vec![encode_text(self.path()), encode_flag(self.path_truncated())];
        assert(views(r@) =~= self.hash_codes());
        r
    }

    /// Hash of the declared fields, combined in declared order.
    pub fn value_hash(&self) -> (r: u64)
        ensures
            r == fnv1a(concat(self.hash_codes())),
    {
        hash_parts(&self.hash_parts())
    }

    /// Debug representation: `File { path: "...", path_truncated: false }`.
    pub fn debug_repr(&self) -> (r: Vec<u8>)
        ensures
            r@ == file_debug_text(*self.raw),
    {
        let mut path: Vec<u8> = Vec::new();
        push_quoted(&mut path, self.path());
        let mut truncated: Vec<u8> = Vec::new();
        push_flag(&mut truncated, self.path_truncated());
        let names: Vec<&str> = vec!["path", "path_truncated"];
        let values: Vec<Vec<u8>> = vec![path, truncated];
        assert(views(values@) =~= seq![quoted(self.raw.path@), flag_text(self.raw.path_truncated)]);
        assert(names@ =~= seq!["path", "path_truncated"]);
        debug_record("File", &names, &values)
    }
}

impl<'a> PartialEq for File<'a> {
    fn eq(&self, other: &File<'a>) -> (r: bool) {
        bytes_equal(self.path(), other.path()) && self.path_truncated() == other.path_truncated()
    }
}

impl<'a> vstd::std_specs::cmp::PartialEqSpecImpl for File<'a> {
    open spec fn obeys_eq_spec() -> bool {
        true
    }

    open spec fn eq_spec(&self, other: &File<'a>) -> bool {
        self.raw.path@ == other.raw.path@ && self.raw.path_truncated == other.raw.path_truncated
    }
}

} // verus!
