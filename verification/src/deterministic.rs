//! Stable hashing and seed derivation used by split assignment and sampling.

use vstd::prelude::*;
use vstd::string::*;

verus! {

/// FNV-1a offset basis.
pub const OFFSET_BASIS: u64 = 0xcbf2_9ce4_8422_2325;

/// FNV-1a prime.
pub const PRIME: u64 = 0x0000_0100_0000_01b3;

/// One FNV-1a step.
pub open spec fn fnv_step(hash: u64, byte: u8) -> u64 {
    (hash ^ (byte as u64)).wrapping_mul(PRIME)
}

/// FNV-1a over a byte sequence, from a given state.
pub open spec fn fnv(hash: u64, bytes: Seq<u8>) -> u64
    decreases bytes.len(),
{
    if bytes.len() == 0 {
        hash
    } else {
        fnv_step(fnv(hash, bytes.drop_last()), bytes.last())
    }
}

/// MurmurHash3's final avalanche.
pub open spec fn avalanche(hash: u64) -> u64 {
    let a = (hash ^ (hash >> 33)).wrapping_mul(0xff51_afd7_ed55_8ccd);
    let b = (a ^ (a >> 33)).wrapping_mul(0xc4ce_b9fe_1a85_ec53);
    b ^ (b >> 33)
}

/// A part behind its length in eight little-endian bytes.
pub open spec fn delimited(part: Seq<u8>) -> Seq<u8> {
    vstd::bytes::spec_u64_to_le_bytes(part.len() as u64) + part
}

/// Length-delimited parts, one after the other.
pub open spec fn framed(parts: Seq<Seq<u8>>) -> Seq<u8>
    decreases parts.len(),
{
    if parts.len() == 0 {
        Seq::empty()
    } else {
        framed(parts.drop_last()) + delimited(parts.last())
    }
}

/// The stable hash of length-delimited parts.
pub open spec fn stable_hash(parts: Seq<Seq<u8>>) -> u64 {
    avalanche(fnv(OFFSET_BASIS, framed(parts)))
}

/// The bytes of a text.
pub open spec fn bytes_of(text: Seq<char>) -> Seq<u8> {
    vstd::utf8::encode_utf8(text)
}

/// The bytes of a number, the lowest first.
pub open spec fn number_bytes(n: u64) -> Seq<u8> {
    vstd::bytes::spec_u64_to_le_bytes(n)
}

/// The contents of byte slices.
pub open spec fn contents(parts: Seq<&[u8]>) -> Seq<Seq<u8>> {
    Seq::new(parts.len(), |i: int| parts[i]@)
}

/// Seed of one named substream of a root seed.
pub open spec fn derived_seed(root_seed: u64, domain: Seq<char>) -> u64 {
    stable_hash(
        seq![bytes_of("synth-data-seed-v1"@), number_bytes(root_seed), bytes_of(domain)],
    )
}

proof fn lemma_fnv_concat(hash: u64, a: Seq<u8>, b: Seq<u8>)
    ensures
        fnv(hash, a + b) == fnv(fnv(hash, a), b),
    decreases b.len(),
{
    if b.len() == 0 {
        assert(a + b =~= a);
    } else {
        lemma_fnv_concat(hash, a, b.drop_last());
        assert((a + b).drop_last() =~= a + b.drop_last());
        assert((a + b).last() == b.last());
    }
}

fn absorb(hash: u64, bytes: &[u8]) -> (r: u64)
    ensures
        r == fnv(hash, bytes@),
{
    let mut state: u64 = hash;
    let mut i: usize = 0;
    while i < bytes.len()
        invariant
            i <= bytes.len(),
            state == fnv(hash, bytes@.take(i as int)),
        decreases bytes.len() - i,
    {
        proof {
            assert(bytes@.take(i + 1).drop_last() =~= bytes@.take(i as int));
            assert(bytes@.take(i + 1).last() == bytes@[i as int]);
        }
        state = (state ^ (bytes[i] as u64)).wrapping_mul(PRIME);
        i = i + 1;
    }
    assert(bytes@.take(i as int) =~= bytes@);
    state
}

/// Hashes length-delimited byte slices with a fixed algorithm.
///
/// This is not a cryptographic hash. Its purpose is a value that durable dataset
/// decisions can rest on, on every machine and in every run.
pub fn stable_hash64(parts: &[&[u8]]) -> (r: u64)
    ensures
        r == stable_hash(contents(parts@)),
{
    let mut hash: u64 = OFFSET_BASIS;
    let mut i: usize = 0;
    let ghost all = contents(parts@);
    while i < parts.len()
        invariant
            i <= parts.len(),
            all == contents(parts@),
            hash == fnv(OFFSET_BASIS, framed(all.take(i as int))),
        decreases parts.len() - i,
    {
        let part: &[u8] = parts[i];
        let length: Vec<u8> = vstd::bytes::u64_to_le_bytes(part.len() as u64);
        let ghost before = framed(all.take(i as int));
        proof {
            assert(all.take(i + 1).drop_last() =~= all.take(i as int));
            assert(all.take(i + 1).last() == part@);
            lemma_fnv_concat(OFFSET_BASIS, before, delimited(part@));
            lemma_fnv_concat(hash, length@, part@);
        }
        hash = absorb(hash, length.as_slice());
        hash = absorb(hash, part);
        i = i + 1;
    }
    assert(all.take(i as int) =~= all);
    let a: u64 = (hash ^ (hash >> 33)).wrapping_mul(0xff51_afd7_ed55_8ccd);
    let b: u64 = (a ^ (a >> 33)).wrapping_mul(0xc4ce_b9fe_1a85_ec53);
    b ^ (b >> 33)
}

/// Seed of one named substream of a root seed.
pub fn derive_seed(root_seed: u64, domain: &str) -> (r: u64)
    ensures
        r == derived_seed(root_seed, domain@),
{
    let root: Vec<u8> = vstd::bytes::u64_to_le_bytes(root_seed);
    let mut parts: Vec<&[u8]> = Vec::new();
    parts.push("synth-data-seed-v1".as_bytes());
    parts.push(root.as_slice());
    parts.push(domain.as_bytes());
    let r = stable_hash64(parts.as_slice());
    assert(contents(parts@)
        =~= seq![bytes_of("synth-data-seed-v1"@), number_bytes(root_seed), bytes_of(domain@)]);
    r
}

/// Parts split differently never frame to the same bytes: what is hashed tells
/// the parts apart, not only their concatenation.
pub proof fn framing_is_injective(a: Seq<Seq<u8>>, b: Seq<Seq<u8>>)
    requires
        forall|i: int| 0 <= i < a.len() ==> (#[trigger] a[i]).len() <= u64::MAX,
        forall|i: int| 0 <= i < b.len() ==> (#[trigger] b[i]).len() <= u64::MAX,
        framed(a) == framed(b),
    ensures
        a == b,
    decreases a.len(),
{
    lemma_framed_first(a);
    lemma_framed_first(b);
    if a.len() > 0 && b.len() > 0 {
        vstd::bytes::lemma_auto_spec_u64_to_from_le_bytes();
        let (x, y) = (a.first(), b.first());
        let (rest_a, rest_b) = (framed(a.drop_first()), framed(b.drop_first()));
        let whole = framed(a);
        let head_x = number_bytes(x.len() as u64);
        let head_y = number_bytes(y.len() as u64);
        assert(whole =~= head_x + (x + rest_a));
        assert(whole =~= head_y + (y + rest_b));
        assert(head_x =~= whole.take(8));
        assert(head_y =~= whole.take(8));
        assert(x.len() == y.len());
        assert(whole.subrange(8, 8 + x.len() as int) =~= x);
        assert(whole.subrange(8, 8 + x.len() as int) =~= y);
        assert(whole.skip(8 + x.len() as int) =~= rest_a);
        assert(whole.skip(8 + x.len() as int) =~= rest_b);
        framing_is_injective(a.drop_first(), b.drop_first());
        assert(a =~= seq![x] + a.drop_first());
        assert(b =~= seq![y] + b.drop_first());
    } else {
        vstd::bytes::lemma_auto_spec_u64_to_from_le_bytes();
        if a.len() > 0 {
            assert(number_bytes(a.first().len() as u64).len() == 8);
            assert(framed(a).len() >= 8);
        }
        if b.len() > 0 {
            assert(number_bytes(b.first().len() as u64).len() == 8);
            assert(framed(b).len() >= 8);
        }
        assert(a =~= b);
    }
}

proof fn lemma_framed_first(parts: Seq<Seq<u8>>)
    ensures
        parts.len() > 0 ==> framed(parts) == delimited(parts.first()) + framed(parts.drop_first()),
        parts.len() == 0 ==> framed(parts) == Seq::<u8>::empty(),
    decreases parts.len(),
{
    if parts.len() > 1 {
        lemma_framed_first(parts.drop_last());
        assert(parts.drop_last().drop_first() =~= parts.drop_first().drop_last());
        assert(framed(parts) =~= delimited(parts.first()) + framed(parts.drop_first()));
    } else if parts.len() == 1 {
        assert(framed(parts.drop_last()) =~= Seq::<u8>::empty());
        assert(framed(parts.drop_first()) =~= Seq::<u8>::empty());
        assert(framed(parts) =~= delimited(parts.first()) + framed(parts.drop_first()));
    }
}

proof fn lemma_factor_tells_apart(x: u64, y: u64, factor: u64, inverse: u64, over: int)
    requires
        factor * inverse == 1 + over * 0x1_0000_0000_0000_0000,
        x.wrapping_mul(factor) == y.wrapping_mul(factor),
    ensures
        x == y,
{
    let m: int = 0x1_0000_0000_0000_0000;
    let (a, b) = (x * factor, y * factor);
    vstd::arithmetic::div_mod::lemma_fundamental_div_mod(a, m);
    vstd::arithmetic::div_mod::lemma_fundamental_div_mod(b, m);
    let t = a / m - b / m;
    assert(a - b == m * t) by (nonlinear_arith)
        requires
            a == m * (a / m) + a % m,
            b == m * (b / m) + b % m,
            a % m == b % m,
            t == a / m - b / m,
    ;
    let (d, p, q) = (x - y, factor as int, inverse as int);
    assert(d * p == m * t) by (nonlinear_arith)
        requires
            d == x - y,
            p == factor,
            a == x * factor,
            b == y * factor,
            a - b == m * t,
    ;
    assert(d == m * (t * q - d * over)) by (nonlinear_arith)
        requires
            d * p == m * t,
            p * q == 1 + over * m,
    ;
    let z = t * q - d * over;
    assert(d == 0) by (nonlinear_arith)
        requires
            d == m * z,
            -m < d < m,
            m > 0,
    ;
}

proof fn lemma_step_tells_apart(a: u64, b: u64, x: u8, y: u8)
    requires
        fnv_step(a, x) == fnv_step(b, y),
    ensures
        a == b ==> x == y,
        x == y ==> a == b,
{
    let (u, v) = (a ^ (x as u64), b ^ (y as u64));
    lemma_factor_tells_apart(u, v, PRIME, 0xce96_5057_aff6_957b, 0xce_9650_590f);
    assert(a ^ (x as u64) == b ^ (y as u64) && a == b ==> x == y) by (bit_vector);
    assert(a ^ (x as u64) == b ^ (y as u64) && x == y ==> a == b) by (bit_vector);
}

proof fn lemma_fnv_tells_states_apart(a: u64, b: u64, bytes: Seq<u8>)
    requires
        a != b,
    ensures
        fnv(a, bytes) != fnv(b, bytes),
    decreases bytes.len(),
{
    if bytes.len() > 0 {
        lemma_fnv_tells_states_apart(a, b, bytes.drop_last());
        let (x, y) = (fnv(a, bytes.drop_last()), fnv(b, bytes.drop_last()));
        if fnv_step(x, bytes.last()) == fnv_step(y, bytes.last()) {
            lemma_step_tells_apart(x, y, bytes.last(), bytes.last());
        }
    }
}

proof fn lemma_fnv_tells_bytes_apart(hash: u64, bytes: Seq<u8>, at: int, byte: u8)
    requires
        0 <= at < bytes.len(),
        bytes[at] != byte,
    ensures
        fnv(hash, bytes.update(at, byte)) != fnv(hash, bytes),
    decreases bytes.len(),
{
    let changed = bytes.update(at, byte);
    let before = bytes.drop_last();
    let (x, y) = (fnv(hash, changed.drop_last()), fnv(hash, before));
    if at < before.len() {
        assert(changed.drop_last() =~= before.update(at, byte));
        lemma_fnv_tells_bytes_apart(hash, before, at, byte);
    } else {
        assert(changed.drop_last() =~= before);
    }
    if fnv_step(x, changed.last()) == fnv_step(y, bytes.last()) {
        lemma_step_tells_apart(x, y, changed.last(), bytes.last());
    }
}

proof fn lemma_avalanche_tells_apart(a: u64, b: u64)
    requires
        avalanche(a) == avalanche(b),
    ensures
        a == b,
{
    let (x, y) = (a ^ (a >> 33), b ^ (b >> 33));
    let (u, v) = (
        x.wrapping_mul(0xff51_afd7_ed55_8ccd),
        y.wrapping_mul(0xff51_afd7_ed55_8ccd),
    );
    let (r, s) = (u ^ (u >> 33), v ^ (v >> 33));
    let (k, l) = (
        r.wrapping_mul(0xc4ce_b9fe_1a85_ec53),
        s.wrapping_mul(0xc4ce_b9fe_1a85_ec53),
    );
    assert(k ^ (k >> 33) == l ^ (l >> 33) ==> k == l) by (bit_vector);
    lemma_factor_tells_apart(
        r,
        s,
        0xc4ce_b9fe_1a85_ec53,
        0x9cb4_b2f8_1293_37db,
        0x7878_e448_12b2_d581,
    );
    assert(u ^ (u >> 33) == v ^ (v >> 33) ==> u == v) by (bit_vector);
    lemma_factor_tells_apart(
        x,
        y,
        0xff51_afd7_ed55_8ccd,
        0x4f74_430c_22a5_4005,
        0x4f3e_2925_cb7c_5b4e,
    );
    assert(a ^ (a >> 33) == b ^ (b >> 33) ==> a == b) by (bit_vector);
}

proof fn lemma_framed_tells_bytes_apart(parts: Seq<Seq<u8>>, i: int, at: int, byte: u8)
    requires
        0 <= i < parts.len(),
        0 <= at < parts[i].len(),
        parts[i][at] != byte,
    ensures
        fnv(OFFSET_BASIS, framed(parts.update(i, parts[i].update(at, byte)))) != fnv(
            OFFSET_BASIS,
            framed(parts),
        ),
    decreases parts.len(),
{
    let changed = parts.update(i, parts[i].update(at, byte));
    let before = parts.drop_last();
    let (head, other) = (framed(before), framed(changed.drop_last()));
    let (last, end) = (delimited(parts.last()), delimited(changed.last()));
    lemma_fnv_concat(OFFSET_BASIS, head, last);
    lemma_fnv_concat(OFFSET_BASIS, other, end);
    let (x, y) = (fnv(OFFSET_BASIS, head), fnv(OFFSET_BASIS, other));
    if i < before.len() {
        assert(changed.drop_last() =~= before.update(i, before[i].update(at, byte)));
        lemma_framed_tells_bytes_apart(before, i, at, byte);
        lemma_fnv_tells_states_apart(y, x, last);
    } else {
        assert(changed.drop_last() =~= before);
        let length = number_bytes(parts[i].len() as u64);
        lemma_fnv_concat(x, length, parts[i]);
        lemma_fnv_concat(x, length, parts[i].update(at, byte));
        lemma_fnv_tells_bytes_apart(fnv(x, length), parts[i], at, byte);
    }
}

/// A change of one byte in one part always changes the hash.
pub proof fn one_byte_changes_the_hash(parts: Seq<Seq<u8>>, i: int, at: int, byte: u8)
    requires
        0 <= i < parts.len(),
        0 <= at < parts[i].len(),
        parts[i][at] != byte,
    ensures
        stable_hash(parts.update(i, parts[i].update(at, byte))) != stable_hash(parts),
{
    let changed = parts.update(i, parts[i].update(at, byte));
    lemma_framed_tells_bytes_apart(parts, i, at, byte);
    let (x, y) = (fnv(OFFSET_BASIS, framed(changed)), fnv(OFFSET_BASIS, framed(parts)));
    if avalanche(x) == avalanche(y) {
        lemma_avalanche_tells_apart(x, y);
    }
}

} // verus!
