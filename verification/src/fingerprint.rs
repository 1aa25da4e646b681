use vstd::prelude::*;

use vstd::utf8::encode_utf8;

verus! {

/// The bytes a hasher has absorbed so far. The only handle this crate has on
/// the state of an outside hasher.
pub uninterp spec fn written_bytes(h: twox_hash::XxHash64) -> Seq<u8>;

/// The 64-bit xxHash (seed 0) of a byte sequence. Named, not written out:
/// nothing in this crate restates the algorithm.
pub uninterp spec fn xxhash64(bytes: Seq<u8>) -> u64;

#[verifier::external_type_specification]
#[verifier::external_body]
pub struct ExXxHash64(twox_hash::XxHash64);

/// Relies on twox_hash::XxHash64::default: a seed-0 hasher with nothing
/// written yet.
#[verifier::external_body]
fn new_hasher() -> (h: twox_hash::XxHash64)
    ensures
        written_bytes(h) == Seq::<u8>::empty(),
{
    twox_hash::XxHash64::default()
}

/// Relies on std::hash::Hasher::write for twox_hash::XxHash64: appends the
/// bytes to the hasher's input stream.
#[verifier::external_body]
fn write_hasher(h: &mut twox_hash::XxHash64, bytes: &[u8])
    ensures
        written_bytes(*final(h)) == written_bytes(*old(h)) + bytes@,
{
    std::hash::Hasher::write(h, bytes)
}

/// Relies on std::hash::Hasher::finish for twox_hash::XxHash64: the hash of
/// exactly the bytes written so far, a function of those bytes alone.
#[verifier::external_body]
fn finish_hasher(h: &twox_hash::XxHash64) -> (r: u64)
    ensures
        r == xxhash64(written_bytes(*h)),
{
    std::hash::Hasher::finish(h)
}

/// The byte stream a scope sequence feeds to the hasher: the UTF-8 bytes of
/// every scope, in the order the caller supplied them, with no separator.
pub open spec fn scopes_bytes(scopes: Seq<Seq<char>>) -> Seq<u8>
    decreases scopes.len(),
{
    if scopes.len() == 0 {
        Seq::empty()
    } else {
        scopes_bytes(scopes.drop_last()) + encode_utf8(scopes.last())
    }
}

/// The cache key of an ordered scope sequence. Deterministic and
/// order-sensitive: the same sequence always yields the same fingerprint,
/// while the same scopes in another order hash a different byte stream.
pub open spec fn fingerprint_of(scopes: Seq<Seq<char>>) -> u64 {
    xxhash64(scopes_bytes(scopes))
}

/// Hash an ordered scope sequence to the 64-bit cache key described by
/// [`fingerprint_of`].
pub fn fingerprint(scopes: &Vec<String>) -> (r: u64)
    ensures
        r == fingerprint_of(scopes.deep_view()),
{
    let mut h = new_hasher();
    let ghost views = scopes.deep_view();
    let mut i: usize = 0;
    while i < scopes.len()
        invariant
            views == scopes.deep_view(),
            views.len() == scopes@.len(),
            0 <= i <= scopes@.len(),
            written_bytes(h) == scopes_bytes(views.subrange(0, i as int)),
        decreases scopes@.len() - i,
    {
        write_hasher(&mut h, scopes[i].as_str().as_bytes());
        proof {
            let part = views.subrange(0, i + 1);
            assert(part.drop_last() =~= views.subrange(0, i as int));
            assert(part.last() == views[i as int]);
            assert(views[i as int] == scopes@[i as int]@);
        }
        i = i + 1;
    }
    proof {
        assert(views.subrange(0, views.len() as int) =~= views);
    }
    finish_hasher(&h)
}

} // verus!
