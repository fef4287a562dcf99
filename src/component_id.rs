use crate::text::{hash_text, text_hash};
use vstd::prelude::*;
use vstd::std_specs::cmp::PartialEqSpec;

verus! {

/// Names a component of the system (an engine, a client). Holds its text in one owned, boxed buffer.
#[derive(Hash, Debug)]
pub struct ComponentId {
    value: Box<String>,
}

impl View for ComponentId {
    type V = Seq<char>;

    closed spec fn view(&self) -> Seq<char> {
        self.value@
    }
}

impl From<&str> for ComponentId {
    /// Copies `s` into a freshly owned buffer.
    fn from(s: &str) -> (r: ComponentId)
        ensures
            r@ == s@,
    {
        ComponentId { value: Box::new(s.to_string()) }
    }
}

/// No `String` can be built in spec code, so `from` is described by its own
/// `ensures` (the identifier's text is `s`'s) and not through `from_spec`.
impl vstd::std_specs::convert::FromSpecImpl<&str> for ComponentId {
    open spec fn obeys_from_spec() -> bool {
        false
    }

    open spec fn from_spec(s: &str) -> ComponentId {
        arbitrary()
    }
}

impl PartialEq for ComponentId {
    fn eq(&self, other: &ComponentId) -> (r: bool) {
        *self.value == *other.value
    }
}

impl vstd::std_specs::cmp::PartialEqSpecImpl for ComponentId {
    open spec fn obeys_eq_spec() -> bool {
        true
    }

    open spec fn eq_spec(&self, other: &ComponentId) -> bool {
        self@ == other@
    }
}

impl Clone for ComponentId {
    /// Deep-copies the text into a new buffer.
    fn clone(&self) -> (r: ComponentId)
        ensures
            r@ == self@,
    {
        ComponentId { value: Box::new((*self.value).clone()) }
    }
}

impl ComponentId {
    /// The text, borrowed.
    pub fn as_str(&self) -> (r: &str)
        ensures
            r@ == self@,
    {
        self.value.as_str()
    }

    /// The text, verbatim, in a new `String`.
    pub fn to_string(&self) -> (r: String)
        ensures
            r@ == self@,
    {
        (*self.value).clone()
    }

    /// A hash of the identifier, a function of its text alone.
    pub fn hash_value(&self) -> (r: u64)
        ensures
            r == text_hash(self@),
    {
        hash_text(self.value.as_str())
    }
}

/// Identifiers made from two texts are equal exactly when the texts are equal:
/// one made from `s` equals another made from `s`, and texts that differ give
/// identifiers that differ.
pub proof fn lemma_equal_iff_same_text(s1: &str, s2: &str, a: ComponentId, b: ComponentId, eq: bool)
    requires
        call_ensures(ComponentId::from, (s1,), a),
        call_ensures(ComponentId::from, (s2,), b),
        call_ensures(ComponentId::eq, (&a, &b), eq),
    ensures
        eq <==> s1@ == s2@,
        a.eq_spec(&a),
{
}

/// Identifiers made from equal texts have equal hashes.
pub proof fn lemma_hash_consistent(s1: &str, s2: &str, a: ComponentId, b: ComponentId, h1: u64, h2: u64)
    requires
        s1@ == s2@,
        call_ensures(ComponentId::from, (s1,), a),
        call_ensures(ComponentId::from, (s2,), b),
        call_ensures(ComponentId::hash_value, (&a,), h1),
        call_ensures(ComponentId::hash_value, (&b,), h2),
    ensures
        h1 == h2,
{
}

/// A clone and its original both render the original's text; each owns its own
/// buffer, so releasing one leaves the other as it was.
pub proof fn lemma_clone_independent(a: ComponentId, c: ComponentId, ra: String, rc: String)
    requires
        call_ensures(ComponentId::clone, (&a,), c),
        call_ensures(ComponentId::to_string, (&a,), ra),
        call_ensures(ComponentId::to_string, (&c,), rc),
    ensures
        ra@ == a@,
        rc@ == a@,
{
}

/// Rendering an identifier, as a new `String` or as a borrowed `str` (what a
/// host is handed), gives back, unchanged, the text it was made from.
pub proof fn lemma_render_round_trip(s: &str, a: ComponentId, r: String, v: &str)
    requires
        call_ensures(ComponentId::from, (s,), a),
        call_ensures(ComponentId::to_string, (&a,), r),
        call_ensures(ComponentId::as_str, (&a,), v),
    ensures
        r@ == s@,
        v@ == s@,
{
}

/// Releases an identifier that a host has finished with: the identifier is
/// moved in, and its buffer is freed when it goes out of scope here.
pub fn component_id_free(component_id: ComponentId) {
}

} // verus!
