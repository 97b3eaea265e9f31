//! [`EventLwSessionUnlock`]
use vstd::prelude::*;
use vstd::string::StringSliceAdditionalSpecFns;

use crate::kind::{accessor_names, declared_names, EventKind};
use crate::value::{
    bytes_equal, concat, debug_record, debug_text, decimal, encode_text, encode_unsigned, entries,
    fnv1a, hash_parts, push_decimal, push_quoted, quoted, text_code, unsigned_code, views,
};

verus! {

/// Graphical session id, as the producer numbers sessions.
pub type GraphicalSessionId = u32;

/// Raw record of a screen unlock by LoginWindow.
pub struct RawLwSessionUnlock {
    /// Short username, as delivered.
    pub username: Vec<u8>,
    /// Graphical session id of the session.
    pub graphical_session_id: GraphicalSessionId,
}

/// Hash codes of an unlock record's declared fields, in declared order:
/// `username`, `graphical_session_id`.
pub open spec fn session_unlock_hash_codes(raw: RawLwSessionUnlock) -> Seq<Seq<u8>> {
    seq![text_code(raw.username@), unsigned_code(raw.graphical_session_id as nat)]
}

/// Debug representation of an unlock record:
/// `EventLwSessionUnlock { username: "alice", graphical_session_id: 7 }`.
pub open spec fn session_unlock_debug_text(raw: RawLwSessionUnlock) -> Seq<u8> {
    debug_text(
        "EventLwSessionUnlock".spec_bytes(),
        entries(
            declared_names(EventKind::LwSessionUnlock),
            seq![quoted(raw.username@), decimal(raw.graphical_session_id as nat)],
        ),
    )
}

/// LoginWindow unlocked the screen of a session.
pub struct EventLwSessionUnlock<'a> {
    /// Raw event
    pub raw: &'a RawLwSessionUnlock,
}

impl<'a> EventLwSessionUnlock<'a> {
    /// Binds a view to a raw record.
    pub fn new(raw: &'a RawLwSessionUnlock) -> (r: EventLwSessionUnlock<'a>)
        ensures
            r.raw == raw,
    {
        EventLwSessionUnlock { raw }
    }

    /// Short username of the user.
    pub fn username(&self) -> (r: &'a [u8])
        ensures
            r@ == self.raw.username@,
    {
        let raw: &'a RawLwSessionUnlock = self.raw;
        raw.username.as_slice()
    }

    /// Graphical session id of the session.
    pub fn graphical_session_id(&self) -> (r: GraphicalSessionId)
        ensures
            r == self.raw.graphical_session_id,
    {
        self.raw.graphical_session_id
    }

    /// Hash codes of the declared fields, in declared order.
    pub open spec fn hash_codes(&self) -> Seq<Seq<u8>> {
        session_unlock_hash_codes(*self.raw)
    }

    /// The hash codes of the declared fields, in declared order.
    pub fn hash_parts(&self) -> (r: Vec<Vec<u8>>)
        ensures
            views(r@) == self.hash_codes(),
    {
        let r: Vec<Vec<u8>> = vec![
            encode_text(self.username()),
            encode_unsigned(self.graphical_session_id() as u64),
        ];
        assert(views(r@) =~= self.hash_codes());
        r
    }

    /// Hash of the declared fields, combined in declared order.
    pub fn value_hash(&self) -> (r: u64)
        ensures
            r == fnv1a(concat(self.hash_codes())),
    {
        hash_parts(&self.hash_parts())
    }

    /// Debug representation: the declared fields, by name, in declared order.
    pub fn debug_repr(&self) -> (r: Vec<u8>)
        ensures
            r@ == session_unlock_debug_text(*self.raw),
    {
        let mut username: Vec<u8> = Vec::new();
        push_quoted(&mut username, self.username());
        let mut session: Vec<u8> = Vec::new();
        push_decimal(&mut session, self.graphical_session_id() as u64);
        let names: Vec<&str> = accessor_names(EventKind::LwSessionUnlock);
        let values: Vec<Vec<u8>> = vec![username, session];
        assert(views(values@) =~= seq![
            quoted(self.raw.username@),
            decimal(self.raw.graphical_session_id as nat),
        ]);
        debug_record("EventLwSessionUnlock", &names, &values)
    }
}

impl<'a> PartialEq for EventLwSessionUnlock<'a> {
    fn eq(&self, other: &EventLwSessionUnlock<'a>) -> (r: bool) {
        bytes_equal(self.username(), other.username())
            && self.graphical_session_id() == other.graphical_session_id()
    }
}

impl<'a> vstd::std_specs::cmp::PartialEqSpecImpl for EventLwSessionUnlock<'a> {
    open spec fn obeys_eq_spec() -> bool {
        true
    }

    open spec fn eq_spec(&self, other: &EventLwSessionUnlock<'a>) -> bool {
        self.raw.username@ == other.raw.username@
            && self.raw.graphical_session_id == other.raw.graphical_session_id
    }
}

} // verus!
