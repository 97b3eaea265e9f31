//! The registration table: for each event kind, its declared accessors in
//! order, and its thread-safety classification.
use vstd::prelude::*;

verus! {

/// The event kinds that have a view.
#[derive(PartialEq, Eq, Structural, Clone, Copy, Debug)]
pub enum EventKind {
    /// LoginWindow unlocked the screen of a session.
    LwSessionUnlock,
    /// An extended attribute is being set.
    SetExtAttr,
    /// A process has called `setgid()`.
    Setgid,
}

/// What a view type holds that bears on its use from other threads.
#[derive(PartialEq, Eq, Structural, Clone, Copy, Debug)]
pub struct TypeTraits {
    /// It holds a cell that can change behind a shared reference.
    pub interior_mutability: bool,
    /// It holds a handle that is only valid on the thread that made it.
    pub thread_affine: bool,
    /// Its accessors read state local to the current thread.
    pub thread_local_state: bool,
    /// Its accessors only read memory that does not change for the scope,
    /// and make fresh outputs on each call.
    pub read_only_accessors: bool,
}

/// Whether a view may move to another thread, and whether it may be read from
/// several threads at once.
#[derive(PartialEq, Eq, Structural, Clone, Copy, Debug)]
pub struct Classification {
    /// May be moved to another thread.
    pub transferable: bool,
    /// May be accessed from several threads at once without synchronisation.
    pub shareable: bool,
}

/// Transferable iff no interior mutability, no thread-affine handle and no
/// thread-local state; shareable iff transferable and every accessor only
/// reads.
pub open spec fn classification_of(t: TypeTraits) -> Classification {
    let transferable = !t.interior_mutability && !t.thread_affine && !t.thread_local_state;
    Classification { transferable, shareable: transferable && t.read_only_accessors }
}

/// Decides a type's classification from what it holds.
pub fn classify(t: TypeTraits) -> (r: Classification)
    ensures
        r == classification_of(t),
        t.thread_affine ==> !r.transferable,
        r.shareable ==> r.transferable,
{
    let transferable = !t.interior_mutability && !t.thread_affine && !t.thread_local_state;
    Classification { transferable, shareable: transferable && t.read_only_accessors }
}

/// What every registered view holds: a shared reference to a record that
/// does not change for the scope, and nothing else.
pub open spec fn view_traits() -> TypeTraits {
    TypeTraits {
        interior_mutability: false,
        thread_affine: false,
        thread_local_state: false,
        read_only_accessors: true,
    }
}

/// The traits of the view of `kind`.
pub open spec fn kind_traits(kind: EventKind) -> TypeTraits {
    match kind {
        EventKind::LwSessionUnlock => view_traits(),
        EventKind::SetExtAttr => view_traits(),
        EventKind::Setgid => view_traits(),
    }
}

/// The declared accessors of the view of `kind`, in the canonical order that
/// its debug representation and hash follow.
pub open spec fn declared_names(kind: EventKind) -> Seq<&'static str> {
    match kind {
        EventKind::LwSessionUnlock => seq!["username", "graphical_session_id"],
        EventKind::SetExtAttr => seq!["extattr", "target"],
        EventKind::Setgid => seq!["gid"],
    }
}

/// The traits registered for the view of `kind`.
pub fn traits_of(kind: EventKind) -> (r: TypeTraits)
    ensures
        r == kind_traits(kind),
{
    TypeTraits {
        interior_mutability: false,
        thread_affine: false,
        thread_local_state: false,
        read_only_accessors: true,
    }
}

/// The classification of the view of `kind`, decided from its traits.
pub fn classification(kind: EventKind) -> (r: Classification)
    ensures
        r == classification_of(kind_traits(kind)),
        r.transferable,
        r.shareable,
{
    classify(traits_of(kind))
}

/// The declared accessors of the view of `kind`, in canonical order.
pub fn accessor_names(kind: EventKind) -> (r: Vec<&'static str>)
    ensures
        r@ == declared_names(kind),
{
    let r: Vec<&'static str> = match kind {
        EventKind::LwSessionUnlock => vec!["username", "graphical_session_id"],
        EventKind::SetExtAttr => vec!["extattr", "target"],
        EventKind::Setgid => vec!["gid"],
    };
    assert(r@ =~= declared_names(kind));
    r
}

/// Every registered view is classified transferable and shareable, and a type
/// holding a thread-affine handle is never classified transferable.
pub proof fn lemma_classification_table(kind: EventKind, t: TypeTraits)
    ensures
        classification_of(kind_traits(kind)).transferable,
        classification_of(kind_traits(kind)).shareable,
        t.thread_affine ==> !classification_of(t).transferable,
        t.thread_affine ==> !classification_of(t).shareable,
{
}

} // verus!
