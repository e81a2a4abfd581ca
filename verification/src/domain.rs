pub mod admin_user;
pub mod order;
pub mod types;
pub mod user;

use std::marker::PhantomData;
use vstd::hash_map::StringHashMap;
use vstd::prelude::*;
use vstd::std_specs::cmp::PartialEqSpecImpl;

verus! {

// ---------------------------------------------------------------------------
// Identifiers
// ---------------------------------------------------------------------------

/// The identifier of an entity of type `E`: a string, typed by what it names.
#[derive(Debug)]
pub struct Id<E> {
    id: String,
    _phantom: PhantomData<E>,
}

impl<E> View for Id<E> {
    type V = Seq<char>;

    closed spec fn view(&self) -> Seq<char> {
        self.id@
    }
}

impl<E> Id<E> {
    pub fn new(id: String) -> (r: Self)
        ensures
            r@ == id@,
    {
        Id { id, _phantom: PhantomData }
    }

    pub fn from_str(id: &str) -> (r: Self)
        ensures
            r@ == id@,
    {
        Id { id: String::from_str(id), _phantom: PhantomData }
    }

    /// A fresh identifier: 16 random bytes in base 62 (`base62_encode`).
    pub fn generate() -> (r: Self)
        ensures
            exists|b: Seq<u8>| b.len() == 16 && r@ == #[trigger] base62_encode(b),
    {
        Self::new(generate_id_str())
    }

    pub fn as_str(&self) -> (r: &str)
        ensures
            r@ == self@,
    {
        self.id.as_str()
    }

    pub fn into_string(self) -> (r: String)
        ensures
            r@ == self@,
    {
        self.id
    }
}

impl<E> Clone for Id<E> {
    fn clone(&self) -> (r: Self)
        ensures
            r@ == self@,
    {
        Id { id: self.id.clone(), _phantom: PhantomData }
    }
}

impl<E> PartialEq for Id<E> {
    fn eq(&self, other: &Self) -> (r: bool) {
        self.id == other.id
    }
}

impl<E> PartialEqSpecImpl for Id<E> {
    open spec fn obeys_eq_spec() -> bool {
        true
    }

    open spec fn eq_spec(&self, other: &Self) -> bool {
        self@ == other@
    }
}

impl<E> Eq for Id<E> {
}

// ---------------------------------------------------------------------------
// Base 62, as the `base-62` crate writes bytes
// ---------------------------------------------------------------------------

/// The base-62 alphabet: digits, then capitals, then small letters.
pub open spec fn base62_char(d: int) -> char {
    if d < 10 {
        ((d + 48) as u32) as char
    } else if d < 36 {
        ((d - 10 + 65) as u32) as char
    } else {
        ((d - 36 + 97) as u32) as char
    }
}

pub open spec fn is_alphanumeric_ascii(c: char) -> bool {
    ('0' <= c <= '9') || ('A' <= c <= 'Z') || ('a' <= c <= 'z')
}

/// Bytes read as a big-endian unsigned number.
pub open spec fn be_value(bytes: Seq<u8>) -> nat
    decreases bytes.len(),
{
    if bytes.len() == 0 {
        0
    } else {
        be_value(bytes.drop_last()) * 256 + bytes.last() as nat
    }
}

/// The base-62 digits of `v`, least significant first, none for zero.
pub open spec fn base62_digits(v: nat) -> Seq<char>
    decreases v,
{
    if v == 0 {
        Seq::<char>::empty()
    } else {
        seq![base62_char((v % 62) as int)] + base62_digits(v / 62)
    }
}

/// `base_62::encode`: nothing for no bytes; otherwise the bytes with `0x01`
/// in front, read as a big-endian number, written in base 62 from the least
/// significant digit on (the crate's documentation and source).
pub open spec fn base62_encode(bytes: Seq<u8>) -> Seq<char> {
    if bytes.len() == 0 {
        Seq::<char>::empty()
    } else {
        base62_digits(be_value(seq![1u8] + bytes))
    }
}

/// `base_62::encode`: the claim is the text that `base62_encode` describes.
#[verifier::external_body]
fn base62_encode_bytes(bytes: &[u8]) -> (r: String)
    ensures
        r@ == base62_encode(bytes@),
{
    base_62::encode(bytes)
}

/// `rand::random::<[u8; 16]>()`: sixteen random bytes. Nothing is claimed of
/// them beyond their number.
#[verifier::external_body]
fn random_bytes_16() -> (r: [u8; 16]) {
    rand::random::<[u8; 16]>()
}

/// Sixteen random bytes in base 62.
pub fn generate_id_str() -> (r: String)
    ensures
        exists|b: Seq<u8>| b.len() == 16 && r@ == #[trigger] base62_encode(b),
{
    let bytes = random_bytes_16();
    let s = base62_encode_bytes(&bytes);
    assert(bytes@.len() == 16);
    s
}

pub proof fn lemma_base62_digits_alphanumeric(v: nat)
    ensures
        forall|i: int|
            0 <= i < base62_digits(v).len() ==> is_alphanumeric_ascii(#[trigger] base62_digits(v)[i]),
    decreases v,
{
    if v > 0 {
        lemma_base62_digits_alphanumeric(v / 62);
        let d = (v % 62) as int;
        assert(is_alphanumeric_ascii(base62_char(d)));
        assert forall|i: int| 0 <= i < base62_digits(v).len() implies is_alphanumeric_ascii(
            #[trigger] base62_digits(v)[i],
        ) by {
            if i > 0 {
                assert(base62_digits(v)[i] == base62_digits(v / 62)[i - 1]);
            }
        }
    }
}

pub open spec fn pow_nat(b: nat, e: nat) -> nat
    decreases e,
{
    if e == 0 {
        1
    } else {
        b * pow_nat(b, (e - 1) as nat)
    }
}

/// A number with exactly `k + 1` base-62 digits.
pub proof fn lemma_base62_len(v: nat, k: nat)
    requires
        pow_nat(62, k) <= v < pow_nat(62, k + 1),
    ensures
        base62_digits(v).len() == k + 1,
    decreases k,
{
    assert(pow_nat(62, k + 1) == 62 * pow_nat(62, k));
    if k == 0 {
        assert(v / 62 == 0);
        assert(base62_digits(0).len() == 0);
    } else {
        let p = pow_nat(62, (k - 1) as nat);
        assert(pow_nat(62, k) == 62 * p);
        lemma_pow_positive(62, (k - 1) as nat);
        assert(p <= v / 62 < 62 * p) by (nonlinear_arith)
            requires
                62 * p <= v < 62 * (62 * p),
                p > 0,
        ;
        lemma_base62_len(v / 62, (k - 1) as nat);
        assert(v > 0);
    }
}

pub proof fn lemma_pow_positive(b: nat, e: nat)
    requires
        b > 0,
    ensures
        pow_nat(b, e) > 0,
    decreases e,
{
    if e > 0 {
        lemma_pow_positive(b, (e - 1) as nat);
        assert(b * pow_nat(b, (e - 1) as nat) > 0) by (nonlinear_arith)
            requires
                b > 0,
                pow_nat(b, (e - 1) as nat) > 0,
        ;
    }
}

pub proof fn lemma_be_value_bound(bytes: Seq<u8>)
    ensures
        be_value(bytes) < pow_nat(256, bytes.len()),
    decreases bytes.len(),
{
    if bytes.len() > 0 {
        let rest = bytes.drop_last();
        lemma_be_value_bound(rest);
        let p = pow_nat(256, rest.len());
        assert(pow_nat(256, bytes.len()) == 256 * p);
        assert(be_value(rest) * 256 + bytes.last() < 256 * p) by (nonlinear_arith)
            requires
                be_value(rest) < p,
                bytes.last() < 256,
        ;
    }
}

pub proof fn lemma_be_value_lead_one(bytes: Seq<u8>)
    ensures
        be_value(seq![1u8] + bytes) == pow_nat(256, bytes.len()) + be_value(bytes),
    decreases bytes.len(),
{
    let s = seq![1u8] + bytes;
    if bytes.len() == 0 {
        assert(s.drop_last() =~= Seq::<u8>::empty());
        assert(be_value(s.drop_last()) == 0);
        assert(s.last() == 1u8);
        assert(be_value(bytes) == 0);
        assert(pow_nat(256, 0) == 1);
    } else {
        let rest = bytes.drop_last();
        assert(s.drop_last() =~= seq![1u8] + rest);
        assert(s.last() == bytes.last());
        lemma_be_value_lead_one(rest);
        assert(pow_nat(256, bytes.len()) == 256 * pow_nat(256, rest.len()));
        assert((pow_nat(256, rest.len()) + be_value(rest)) * 256 == 256 * pow_nat(256, rest.len())
            + be_value(rest) * 256) by (nonlinear_arith);
    }
}

/// Every generated identifier is 22 characters long, each a digit or an ASCII
/// letter.
pub proof fn lemma_generated_id_shape(b: Seq<u8>)
    requires
        b.len() == 16,
    ensures
        base62_encode(b).len() == 22,
        forall|i: int| 0 <= i < 22 ==> is_alphanumeric_ascii(#[trigger] base62_encode(b)[i]),
{
    lemma_be_value_lead_one(b);
    lemma_be_value_bound(b);
    let v = be_value(seq![1u8] + b);
    reveal_with_fuel(pow_nat, 23);
    assert(pow_nat(62, 21) <= pow_nat(256, 16));
    assert(2 * pow_nat(256, 16) <= pow_nat(62, 22));
    lemma_base62_len(v, 21);
    lemma_base62_digits_alphanumeric(v);
}

// ---------------------------------------------------------------------------
// Entities with identifiers, and maps from identifiers to them
// ---------------------------------------------------------------------------

/// An entity that carries its own identifier.
pub trait HasId: Sized {
    /// What the identifier is typed by.
    type Entity;

    spec fn spec_id(&self) -> Seq<char>;

    fn id(&self) -> (r: &Id<Self::Entity>)
        ensures
            r@ == self.spec_id(),
    ;
}

/// Entities keyed by identifier, the later of two with one identifier kept.
pub open spec fn id_map<T: HasId>(items: Seq<T>) -> Map<Seq<char>, T>
    decreases items.len(),
{
    if items.len() == 0 {
        Map::empty()
    } else {
        let rest = id_map(items.drop_first());
        if rest.contains_key(items[0].spec_id()) {
            rest
        } else {
            rest.insert(items[0].spec_id(), items[0])
        }
    }
}

/// Keys the entities by their identifiers; where two share one, the later
/// stays (as collecting them into a `HashMap` does).
pub fn into_id_map<T: HasId>(items: Vec<T>) -> (r: StringHashMap<T>)
    ensures
        r@ == id_map(items@),
{
    let ghost orig = items@;
    let mut items = items;
    let mut map: StringHashMap<T> = StringHashMap::new();
    proof {
        assert(orig.skip(orig.len() as int) =~= Seq::<T>::empty());
    }
    while items.len() > 0
        invariant
            items@ == orig.take(items.len() as int),
            items.len() <= orig.len(),
            map@ == id_map(orig.skip(items.len() as int)),
        decreases items.len(),
    {
        let ghost k = items.len() - 1;
        let item = items.pop().unwrap();
        proof {
            assert(item == orig[k]);
            assert(orig.skip(k).drop_first() =~= orig.skip(k + 1));
            assert(orig.skip(k)[0] == orig[k]);
            assert(items@ =~= orig.take(k));
        }
        let key = item.id().as_str();
        if !map.contains_key(key) {
            let key_owned = String::from_str(key);
            map.insert(key_owned, item);
        }
    }
    proof {
        assert(orig.skip(0) =~= orig);
    }
    map
}

/// The map holds exactly the identifiers of the entities, each with the last
/// entity that carries it.
pub proof fn lemma_id_map_last<T: HasId>(items: Seq<T>, k: Seq<char>)
    ensures
        id_map(items).contains_key(k) <==> exists|i: int|
            0 <= i < items.len() && (#[trigger] items[i]).spec_id() == k,
        id_map(items).contains_key(k) ==> exists|i: int|
            0 <= i < items.len() && (#[trigger] items[i]).spec_id() == k && id_map(items)[k]
                == items[i] && forall|j: int| i < j < items.len() ==> (#[trigger] items[j]).spec_id() != k,
    decreases items.len(),
{
    if items.len() > 0 {
        let rest = items.drop_first();
        lemma_id_map_last(rest, k);
        if id_map(rest).contains_key(k) {
            let i = choose|i: int|
                0 <= i < rest.len() && (#[trigger] rest[i]).spec_id() == k && id_map(rest)[k]
                    == rest[i] && forall|j: int| i < j < rest.len() ==> (#[trigger] rest[j]).spec_id() != k;
            assert(items[i + 1] == rest[i]);
            assert forall|j: int| i + 1 < j < items.len() implies (#[trigger] items[j]).spec_id() != k by {
                assert(items[j] == rest[j - 1]);
            }
        } else {
            assert forall|j: int| 0 < j < items.len() implies (#[trigger] items[j]).spec_id() != k by {
                assert(items[j] == rest[j - 1]);
            }
            if exists|i: int| 0 <= i < items.len() && (#[trigger] items[i]).spec_id() == k {
                assert(items[0].spec_id() == k);
            }
        }
    }
}

} // verus!
