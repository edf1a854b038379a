//! Composable mappers: transforms from an input value to an output value,
//! most commonly a boolean that says whether the input matches.

pub mod request;

use vstd::prelude::*;
use vstd::string::{StringExecFns, StringSliceAdditionalSpecFns};

verus! {

/// A transform from a value of type `T` to a value of type `Out`.
///
/// `map` is a function of the input alone: its result is `spec_map` of the
/// input, so calling it twice on the same input gives the same output.
pub trait Mapper<T: View> {
    type Out;

    /// What `map` returns on an input whose view is `input`.
    spec fn spec_map(&self, input: T::V) -> Self::Out;

    /// The human-readable rendering that `describe` returns.
    spec fn spec_describe(&self) -> Seq<char>;

    fn map(&self, input: &T) -> (r: Self::Out)
        ensures
            r == self.spec_map(input@),
    ;

    /// A rendering of the mapper's structure, for diagnostics.
    fn describe(&self) -> (r: String)
        ensures
            r@ == self.spec_describe(),
    ;
}

/// A boxed mapper maps as the mapper in the box; a registry of matchers of
/// different types holds them as boxed trait objects.
impl<T: View, M: Mapper<T> + ?Sized> Mapper<T> for Box<M> {
    type Out = M::Out;

    open spec fn spec_map(&self, input: T::V) -> M::Out {
        (**self).spec_map(input)
    }

    open spec fn spec_describe(&self) -> Seq<char> {
        (**self).spec_describe()
    }

    fn map(&self, input: &T) -> (r: M::Out) {
        (**self).map(input)
    }

    fn describe(&self) -> (r: String) {
        (**self).describe()
    }
}

/// A string literal matches a text input equal to it.
impl<'a> Mapper<String> for &'a str {
    type Out = bool;

    open spec fn spec_map(&self, input: Seq<char>) -> bool {
        input == (**self)@
    }

    open spec fn spec_describe(&self) -> Seq<char> {
        quoted((**self)@)
    }

    fn map(&self, input: &String) -> (r: bool) {
        let s = String::from_str(*self);
        *input == s
    }

    fn describe(&self) -> (r: String) {
        quote(*self)
    }
}

/// A string literal matches a byte input that equals its UTF-8 encoding.
impl<'a> Mapper<Vec<u8>> for &'a str {
    type Out = bool;

    open spec fn spec_map(&self, input: Seq<u8>) -> bool {
        input == (**self).spec_bytes()
    }

    open spec fn spec_describe(&self) -> Seq<char> {
        quoted((**self)@)
    }

    fn map(&self, input: &Vec<u8>) -> (r: bool) {
        bytes_eq(input.as_slice(), self.as_bytes())
    }

    fn describe(&self) -> (r: String) {
        quote(*self)
    }
}

/// One header: an owned key and an owned value of raw bytes.
pub struct KV {
    pub k: String,
    pub v: Vec<u8>,
}

/// What a header is: its key's characters and its value's bytes.
pub struct KVView {
    pub k: Seq<char>,
    pub v: Seq<u8>,
}

impl View for KV {
    type V = KVView;

    open spec fn view(&self) -> KVView {
        KVView { k: self.k@, v: self.v@ }
    }
}

impl KV {
    pub fn new(k: &str, v: &[u8]) -> (r: KV)
        ensures
            r@.k == k@,
            r@.v == v@,
    {
        KV { k: String::from_str(k), v: vstd::slice::slice_to_vec(v) }
    }
}

/// The views of a sequence of headers, in the same order.
pub open spec fn kvs_view(s: Seq<KV>) -> Seq<KVView> {
    s.map_values(|kv: KV| kv@)
}

/// A sequence of headers holds `kv` at some position.
pub open spec fn holds_kv(s: Seq<KV>, kv: KVView) -> bool {
    exists|i: int| 0 <= i < s.len() && (#[trigger] s[i])@ == kv
}

/// Matches an input equal to the value it holds.
pub struct Equals<V>(pub V);

/// A matcher for inputs equal to `value`.
pub fn eq<V>(value: V) -> (r: Equals<V>)
    ensures
        r.0 == value,
{
    Equals(value)
}

impl Mapper<String> for Equals<String> {
    type Out = bool;

    open spec fn spec_map(&self, input: Seq<char>) -> bool {
        input == self.0@
    }

    open spec fn spec_describe(&self) -> Seq<char> {
        wrapped("Eq"@, quoted(self.0@))
    }

    fn map(&self, input: &String) -> (r: bool) {
        *input == self.0
    }

    fn describe(&self) -> (r: String) {
        wrap("Eq", quote(self.0.as_str()))
    }
}

impl Mapper<Vec<KV>> for Equals<Vec<KV>> {
    type Out = bool;

    open spec fn spec_map(&self, input: Seq<KV>) -> bool {
        kvs_view(input) == kvs_view(self.0@)
    }

    open spec fn spec_describe(&self) -> Seq<char> {
        wrapped("Eq"@, keys_text(self.0@))
    }

    fn map(&self, input: &Vec<KV>) -> (r: bool) {
        let a = input;
        let b = &self.0;
        if a.len() != b.len() {
            proof {
                assert(kvs_view(a@).len() != kvs_view(b@).len());
            }
            return false;
        }
        let mut i: usize = 0;
        while i < a.len()
            invariant
                a == input,
                b == &self.0,
                0 <= i <= a@.len(),
                a@.len() == b@.len(),
                forall|j: int| 0 <= j < i ==> a@[j]@ == b@[j]@,
            decreases a@.len() - i,
        {
            if !kv_eq(&a[i], &b[i]) {
                proof {
                    assert(kvs_view(a@)[i as int] == a@[i as int]@);
                    assert(kvs_view(b@)[i as int] == b@[i as int]@);
                }
                return false;
            }
            i += 1;
        }
        proof {
            assert(kvs_view(a@) =~= kvs_view(b@));
        }
        true
    }

    fn describe(&self) -> (r: String) {
        wrap("Eq", keys(&self.0))
    }
}

/// Matches a sequence of headers that holds the header it holds, at any position.
pub struct Contains<V>(pub V);

/// A matcher for header sequences that hold `value`.
pub fn contains<V>(value: V) -> (r: Contains<V>)
    ensures
        r.0 == value,
{
    Contains(value)
}

impl Mapper<Vec<KV>> for Contains<KV> {
    type Out = bool;

    open spec fn spec_map(&self, input: Seq<KV>) -> bool {
        holds_kv(input, self.0@)
    }

    open spec fn spec_describe(&self) -> Seq<char> {
        wrapped("Contains"@, quoted(self.0.k@))
    }

    fn map(&self, input: &Vec<KV>) -> (r: bool) {
        let mut i: usize = 0;
        while i < input.len()
            invariant
                0 <= i <= input@.len(),
                forall|j: int| 0 <= j < i ==> input@[j]@ != self.0@,
            decreases input@.len() - i,
        {
            if kv_eq(&input[i], &self.0) {
                return true;
            }
            i += 1;
        }
        false
    }

    fn describe(&self) -> (r: String) {
        wrap("Contains", quote(self.0.k.as_str()))
    }
}

fn kv_eq(a: &KV, b: &KV) -> (r: bool)
    ensures
        r == (a@ == b@),
{
    a.k == b.k && bytes_eq(a.v.as_slice(), b.v.as_slice())
}

fn bytes_eq(a: &[u8], b: &[u8]) -> (r: bool)
    ensures
        r == (a@ == b@),
{
    if a.len() != b.len() {
        return false;
    }
    let mut i: usize = 0;
    while i < a.len()
        invariant
            0 <= i <= a@.len(),
            a@.len() == b@.len(),
            forall|j: int| 0 <= j < i ==> a@[j] == b@[j],
        decreases a@.len() - i,
    {
        if a[i] != b[i] {
            return false;
        }
        i += 1;
    }
    assert(a@ =~= b@);
    true
}

/// The quoted keys of a header sequence, in order, each followed by a space.
pub open spec fn keys_text(s: Seq<KV>) -> Seq<char>
    decreases s.len(),
{
    if s.len() == 0 {
        Seq::empty()
    } else {
        keys_text(s.drop_last()) + quoted(s.last().k@) + seq![' ']
    }
}

fn keys(s: &Vec<KV>) -> (r: String)
    ensures
        r@ == keys_text(s@),
{
    let mut r = String::new();
    let mut i: usize = 0;
    while i < s.len()
        invariant
            0 <= i <= s@.len(),
            r@ == keys_text(s@.subrange(0, i as int)),
        decreases s@.len() - i,
    {
        let q = quote(s[i].k.as_str());
        r.append(q.as_str());
        r.append(" ");
        proof {
            reveal_strlit(" ");
            let t = s@.subrange(0, i + 1);
            assert(t.drop_last() =~= s@.subrange(0, i as int));
        }
        i += 1;
    }
    proof {
        assert(s@.subrange(0, s@.len() as int) =~= s@);
    }
    r
}

/// `name(inner)`: the rendering of a mapper that holds one inner part.
pub open spec fn wrapped(name: Seq<char>, inner: Seq<char>) -> Seq<char> {
    name + seq!['('] + inner + seq![')']
}

pub(crate) fn wrap(name: &str, inner: String) -> (r: String)
    ensures
        r@ == wrapped(name@, inner@),
{
    let mut r = String::from_str(name);
    r.append("(");
    r.append(inner.as_str());
    r.append(")");
    proof {
        reveal_strlit("(");
        reveal_strlit(")");
        assert(r@ =~= wrapped(name@, inner@));
    }
    r
}

pub open spec fn quoted(s: Seq<char>) -> Seq<char> {
    seq!['"'] + s + seq!['"']
}

fn quote(s: &str) -> (r: String)
    ensures
        r@ == quoted(s@),
{
    let mut r = String::from_str("\"");
    r.append(s);
    r.append("\"");
    proof {
        reveal_strlit("\"");
        assert(r@ =~= quoted(s@));
    }
    r
}

} // verus!
