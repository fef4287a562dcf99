use crate::text::{hash_text, text_hash};
use vstd::prelude::*;
use vstd::std_specs::cmp::PartialEqSpec;

verus! {

/// Names a trading account. Holds its text in one owned, boxed buffer.
#[derive(Hash, Debug)]
pub struct AccountId {
    value: Box<String>,
}

impl View for AccountId {
    type V = Seq<char>;

    closed spec fn view(&self) -> Seq<char> {
        self.value@
    }
}

impl From<&str> for AccountId {
    /// Copies `s` into a freshly owned buffer.
    fn from(s: &str) -> (r: AccountId)
        ensures
            r@ == s@,
    {
        AccountId { value: Box::new(s.to_string()) }
    }
}

/// No `String` can be built in spec code, so `from` is described by its own
/// `ensures` (the identifier's text is `s`'s) and not through `from_spec`.
impl vstd::std_specs::convert::FromSpecImpl<&str> for AccountId {
    open spec fn obeys_from_spec() -> bool {
        false
    }

    open spec fn from_spec(s: &str) -> AccountId {
        arbitrary()
    }
}

impl PartialEq for AccountId {
    fn eq(&self, other: &AccountId) -> (r: bool) {
        *self.value == *other.value
    }
}

impl vstd::std_specs::cmp::PartialEqSpecImpl for AccountId {
    open spec fn obeys_eq_spec() -> bool {
        true
    }

    open spec fn eq_spec(&self, other: &AccountId) -> bool {
        self@ == other@
    }
}

impl Clone for AccountId {
    /// Deep-copies the text into a new buffer.
    fn clone(&self) -> (r: AccountId)
        ensures
            r@ == self@,
    {
        AccountId { value: Box::new((*self.value).clone()) }
    }
}

impl AccountId {
    /// The text, borrowed.
    pub fn as_str(&self) -> (r: &str)
        ensures
            r@ == self@,
    {
        self.value.as_str()
    }

    /// The text, verbatim, in a new `String`.
    pub fn to_string(&self) -> (r: String)
        ensures
            r@ == self@,
    {
        (*self.value).clone()
    }

    /// A hash of the identifier, a function of its text alone.
    pub fn hash_value(&self) -> (r: u64)
        ensures
            r == text_hash(self@),
    {
        hash_text(self.value.as_str())
    }
}

/// Identifiers made from two texts are equal exactly when the texts are equal:
/// one made from `s` equals another made from `s`, and texts that differ give
/// identifiers that differ.
pub proof fn lemma_equal_iff_same_text(s1: &str, s2: &str, a: AccountId, b: AccountId, eq: bool)
    requires
        call_ensures(AccountId::from, (s1,), a),
        call_ensures(AccountId::from, (s2,), b),
        call_ensures(AccountId::eq, (&a, &b), eq),
    ensures
        eq <==> s1@ == s2@,
        a.eq_spec(&a),
{
}

/// Identifiers made from equal texts have equal hashes.
pub proof fn lemma_hash_consistent(s1: &str, s2: &str, a: AccountId, b: AccountId, h1: u64, h2: u64)
    requires
        s1@ == s2@,
        call_ensures(AccountId::from, (s1,), a),
        call_ensures(AccountId::from, (s2,), b),
        call_ensures(AccountId::hash_value, (&a,), h1),
        call_ensures(AccountId::hash_value, (&b,), h2),
    ensures
        h1 == h2,
{
}

/// A clone and its original both render the original's text; each owns its own
/// buffer, so releasing one leaves the other as it was.
pub proof fn lemma_clone_independent(a: AccountId, c: AccountId, ra: String, rc: String)
    requires
        call_ensures(AccountId::clone, (&a,), c),
        call_ensures(AccountId::to_string, (&a,), ra),
        call_ensures(AccountId::to_string, (&c,), rc),
    ensures
        ra@ == a@,
        rc@ == a@,
{
}

/// Rendering an identifier, as a new `String` or as a borrowed `str` (what a
/// host is handed), gives back, unchanged, the text it was made from.
pub proof fn lemma_render_round_trip(s: &str, a: AccountId, r: String, v: &str)
    requires
        call_ensures(AccountId::from, (s,), a),
        call_ensures(AccountId::to_string, (&a,), r),
        call_ensures(AccountId::as_str, (&a,), v),
    ensures
        r@ == s@,
        v@ == s@,
{
}

/// Releases an identifier that a host has finished with: the identifier is
/// moved in, and its buffer is freed when it goes out of scope here.
pub fn account_id_free(account_id: AccountId) {
}

} // verus!
