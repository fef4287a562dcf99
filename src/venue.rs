use crate::text::{hash_text, text_hash};
use vstd::prelude::*;
use vstd::std_specs::cmp::PartialEqSpec;

verus! {

/// Names a trading venue (an exchange, a broker). Holds its text in one owned, boxed buffer.
#[derive(Hash, Debug)]
pub struct Venue {
    value: Box<String>,
}

impl View for Venue {
    type V = Seq<char>;

    closed spec fn view(&self) -> Seq<char> {
        self.value@
    }
}

impl From<&str> for Venue {
    /// Copies `s` into a freshly owned buffer.
    fn from(s: &str) -> (r: Venue)
        ensures
            r@ == s@,
    {
        Venue { value: Box::new(s.to_string()) }
    }
}

/// No `String` can be built in spec code, so `from` is described by its own
/// `ensures` (the identifier's text is `s`'s) and not through `from_spec`.
impl vstd::std_specs::convert::FromSpecImpl<&str> for Venue {
    open spec fn obeys_from_spec() -> bool {
        false
    }

    open spec fn from_spec(s: &str) -> Venue {
        arbitrary()
    }
}

impl PartialEq for Venue {
    fn eq(&self, other: &Venue) -> (r: bool) {
        *self.value == *other.value
    }
}

impl vstd::std_specs::cmp::PartialEqSpecImpl for Venue {
    open spec fn obeys_eq_spec() -> bool {
        true
    }

    open spec fn eq_spec(&self, other: &Venue) -> bool {
        self@ == other@
    }
}

impl Clone for Venue {
    /// Deep-copies the text into a new buffer.
    fn clone(&self) -> (r: Venue)
        ensures
            r@ == self@,
    {
        Venue { value: Box::new((*self.value).clone()) }
    }
}

impl Venue {
    /// The text, borrowed.
    pub fn as_str(&self) -> (r: &str)
        ensures
            r@ == self@,
    {
        self.value.as_str()
    }

    /// The text, verbatim, in a new `String`.
    pub fn to_string(&self) -> (r: String)
        ensures
            r@ == self@,
    {
        (*self.value).clone()
    }

    /// A hash of the identifier, a function of its text alone.
    pub fn hash_value(&self) -> (r: u64)
        ensures
            r == text_hash(self@),
    {
        hash_text(self.value.as_str())
    }
}

/// Identifiers made from two texts are equal exactly when the texts are equal:
/// one made from `s` equals another made from `s`, and texts that differ give
/// identifiers that differ.
pub proof fn lemma_equal_iff_same_text(s1: &str, s2: &str, a: Venue, b: Venue, eq: bool)
    requires
        call_ensures(Venue::from, (s1,), a),
        call_ensures(Venue::from, (s2,), b),
        call_ensures(Venue::eq, (&a, &b), eq),
    ensures
        eq <==> s1@ == s2@,
        a.eq_spec(&a),
{
}

/// Identifiers made from equal texts have equal hashes.
pub proof fn lemma_hash_consistent(s1: &str, s2: &str, a: Venue, b: Venue, h1: u64, h2: u64)
    requires
        s1@ == s2@,
        call_ensures(Venue::from, (s1,), a),
        call_ensures(Venue::from, (s2,), b),
        call_ensures(Venue::hash_value, (&a,), h1),
        call_ensures(Venue::hash_value, (&b,), h2),
    ensures
        h1 == h2,
{
}

/// A clone and its original both render the original's text; each owns its own
/// buffer, so releasing one leaves the other as it was.
pub proof fn lemma_clone_independent(a: Venue, c: Venue, ra: String, rc: String)
    requires
        call_ensures(Venue::clone, (&a,), c),
        call_ensures(Venue::to_string, (&a,), ra),
        call_ensures(Venue::to_string, (&c,), rc),
    ensures
        ra@ == a@,
        rc@ == a@,
{
}

/// Rendering an identifier, as a new `String` or as a borrowed `str` (what a
/// host is handed), gives back, unchanged, the text it was made from.
pub proof fn lemma_render_round_trip(s: &str, a: Venue, r: String, v: &str)
    requires
        call_ensures(Venue::from, (s,), a),
        call_ensures(Venue::to_string, (&a,), r),
        call_ensures(Venue::as_str, (&a,), v),
    ensures
        r@ == s@,
        v@ == s@,
{
}

/// Releases an identifier that a host has finished with: the identifier is
/// moved in, and its buffer is freed when it goes out of scope here.
pub fn venue_free(venue: Venue) {
}

} // verus!
