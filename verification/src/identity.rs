use vstd::prelude::*;
use vstd::string::*;
use vstd::arithmetic::div_mod::lemma_div_denominator;
use vstd::arithmetic::div_mod::lemma_mod_breakdown;
use vstd::arithmetic::div_mod::lemma_small_mod;

verus! {

/// The identity stamped into the `meta` block of an emitted shard.
#[derive(Debug)]
pub struct ShardIdentity {
    /// `WindHydroPhoenix2026v1-` followed by a random (version 4) UUID.
    pub shard_id: String,
    /// `0x` followed by sixteen lower-case hex digits of a random `u64`.
    pub hex_proof: String,
}

/// `16^k`.
pub open spec fn pow16(k: nat) -> nat
    decreases k,
{
    if k == 0 {
        1
    } else {
        16 * pow16((k - 1) as nat)
    }
}

/// The lower-case hex digit for `d < 16`.
pub open spec fn hex_digit_char(d: nat) -> char {
    if d < 10 {
        (48 + d) as char
    } else {
        (87 + d) as char
    }
}

/// The `n` lowest hex digits of `x`, most significant first, zero-padded.
pub open spec fn hex_digits(x: nat, n: nat) -> Seq<char> {
    Seq::new(n, |i: int| hex_digit_char((x / pow16((n - 1 - i) as nat)) % 16))
}

/// The text of a hex proof for the drawn value `x`: `0x` and sixteen digits.
pub open spec fn hex_proof_text(x: u64) -> Seq<char> {
    seq!['0', 'x'] + hex_digits(x as nat, 16)
}

/// The fixed prefix of every shard identifier.
pub open spec fn shard_id_prefix() -> Seq<char> {
    "WindHydroPhoenix2026v1-"@
}

/// `c` is one of `0-9` or `a-f`.
pub open spec fn is_lower_hex_char(c: char) -> bool {
    ('0' <= c && c <= '9') || ('a' <= c && c <= 'f')
}

/// `t` is the hyphenated lower-case text of a random (version 4, RFC 4122
/// variant) UUID, such as `67e55044-10b1-426f-9247-bb680e5fe0c8`.
pub open spec fn is_v4_uuid_text(t: Seq<char>) -> bool {
    &&& t.len() == 36
    &&& forall|i: int|
        0 <= i < 36 ==> if i == 8 || i == 13 || i == 18 || i == 23 {
            #[trigger] t[i] == '-'
        } else {
            is_lower_hex_char(t[i])
        }
    &&& t[14] == '4'
    &&& (t[19] == '8' || t[19] == '9' || t[19] == 'a' || t[19] == 'b')
}

/// Appends `c` to `s` (std's `String::push`).
#[verifier::external_body]
fn push_char(s: &mut String, c: char)
    ensures
        final(s)@ == old(s)@.push(c),
{
    s.push(c);
}

/// A fresh random UUID from `uuid::Uuid::new_v4`, rendered with the uuid
/// crate's `Display` impl. The crate masks in the version nibble `4` and the
/// RFC 4122 variant bits, and its `Display` writes the hyphenated lower-case
/// form; that is all that is stated. The random bits themselves are left free.
#[verifier::external_body]
fn new_v4_uuid_text() -> (text: String)
    ensures
        is_v4_uuid_text(text@),
{
    uuid::Uuid::new_v4().to_string()
}

/// A `u64` drawn with `rand::Rng::gen` from `rand::thread_rng()`. Any value
/// may come back, so nothing is stated of it.
#[verifier::external_body]
fn random_u64() -> u64 {
    rand::Rng::gen::<u64>(&mut rand::thread_rng())
}

proof fn lemma_pow16_positive(k: nat)
    ensures
        pow16(k) > 0,
    decreases k,
{
    if k > 0 {
        lemma_pow16_positive((k - 1) as nat);
    }
}

/// The value of a hex digit character (inverse of `hex_digit_char`).
pub open spec fn hex_char_value(c: char) -> nat {
    if c <= '9' {
        (c as nat - 48) as nat
    } else {
        (c as nat - 87) as nat
    }
}

/// The number that a string of hex digits denotes, most significant first.
pub open spec fn hex_value(s: Seq<char>) -> nat
    decreases s.len(),
{
    if s.len() == 0 {
        0
    } else {
        16 * hex_value(s.drop_last()) + hex_char_value(s.last())
    }
}

proof fn lemma_hex_digits_value(x: nat, n: nat)
    ensures
        hex_value(hex_digits(x, n)) == x % pow16(n),
    decreases n,
{
    lemma_pow16_positive(n);
    if n == 0 {
        assert(hex_digits(x, 0) =~= Seq::<char>::empty());
    } else {
        let m = (n - 1) as nat;
        let s = hex_digits(x, n);
        let t = hex_digits(x / 16, m);
        assert forall|i: int| 0 <= i < m implies #[trigger] s.drop_last()[i] == t[i] by {
            let e = (m - 1 - i) as nat;
            lemma_pow16_positive(e);
            lemma_div_denominator(x as int, 16, pow16(e) as int);
            assert(pow16((n - 1 - i) as nat) == 16 * pow16(e));
        }
        assert(s.drop_last() =~= t);
        assert(pow16(0) == 1);
        assert(x / 1 == x);
        assert(s.last() == hex_digit_char(x % 16));
        lemma_hex_digits_value(x / 16, m);
        lemma_pow16_positive(m);
        lemma_mod_breakdown(x as int, 16, pow16(m) as int);
    }
}

/// A hex proof identifies the drawn value: two values give the same proof
/// text only if they are equal, and the digits read back as the value.
pub proof fn lemma_hex_proof_determines_value(x: u64, y: u64)
    ensures
        hex_proof_text(x).len() == 18,
        hex_value(hex_proof_text(x).subrange(2, 18)) == x,
        hex_proof_text(x) == hex_proof_text(y) ==> x == y,
{
    assert(pow16(16) == 0x1_0000_0000_0000_0000) by {
        reveal_with_fuel(pow16, 17);
    }
    assert(hex_proof_text(x).subrange(2, 18) =~= hex_digits(x as nat, 16));
    assert(hex_proof_text(y).subrange(2, 18) =~= hex_digits(y as nat, 16));
    lemma_hex_digits_value(x as nat, 16);
    lemma_hex_digits_value(y as nat, 16);
    lemma_small_mod(x as nat, pow16(16));
    lemma_small_mod(y as nat, pow16(16));
}

fn hex_digit(d: u64) -> (c: char)
    requires
        d < 16,
    ensures
        c == hex_digit_char(d as nat),
{
    if d < 10 {
        ((48 + d) as u8) as char
    } else {
        ((87 + d) as u8) as char
    }
}

/// Renders `x` as `0x` followed by exactly sixteen lower-case hex digits,
/// most significant first and padded with zeros.
pub fn format_hex_proof(x: u64) -> (text: String)
    ensures
        text@ == hex_proof_text(x),
{
    let mut nibbles: Vec<u64> = Vec::new();
    let mut v: u64 = x;
    let mut k: usize = 0;
    assert(pow16(0) == 1);
    assert((x as nat) / 1 == x as nat);
    while k < 16
        invariant
            k <= 16,
            nibbles@.len() == k,
            v as nat == (x as nat) / pow16(k as nat),
            forall|j: int| 0 <= j < k ==> nibbles@[j] as nat == ((x as nat) / pow16(j as nat)) % 16,
        decreases 16 - k,
    {
        proof {
            lemma_pow16_positive(k as nat);
            lemma_div_denominator(x as int, pow16(k as nat) as int, 16);
            assert(pow16((k + 1) as nat) == 16 * pow16(k as nat));
        }
        nibbles.push(v % 16);
        v = v / 16;
        k = k + 1;
    }
    let mut text = String::new();
    push_char(&mut text, '0');
    push_char(&mut text, 'x');
    let ghost digits = hex_digits(x as nat, 16);
    let mut i: usize = 0;
    while i < 16
        invariant
            i <= 16,
            nibbles@.len() == 16,
            forall|j: int| 0 <= j < 16 ==> nibbles@[j] as nat == ((x as nat) / pow16(j as nat)) % 16,
            digits == hex_digits(x as nat, 16),
            text@ == seq!['0', 'x'] + digits.take(i as int),
        decreases 16 - i,
    {
        let d = nibbles[15 - i];
        let c = hex_digit(d);
        push_char(&mut text, c);
        assert(digits.take(i + 1) =~= digits.take(i as int).push(c));
        i = i + 1;
    }
    assert(digits.take(16) =~= digits);
    text
}

/// Joins the shard prefix and the text of a UUID into a shard identifier.
pub fn format_shard_id(uuid_text: &str) -> (id: String)
    ensures
        id@ == shard_id_prefix() + uuid_text@,
{
    let mut id = String::from_str("WindHydroPhoenix2026v1-");
    id.append(uuid_text);
    id
}

/// The identity stamped for the drawn values: the shard prefix followed by
/// `uuid_text`, and `suffix` rendered as a hex proof.
pub fn identity_from_draws(uuid_text: &str, suffix: u64) -> (ident: ShardIdentity)
    ensures
        ident.shard_id@ == shard_id_prefix() + uuid_text@,
        ident.hex_proof@ == hex_proof_text(suffix),
{
    let shard_id = format_shard_id(uuid_text);
    let hex_proof = format_hex_proof(suffix);
    ShardIdentity { shard_id, hex_proof }
}

/// Two identities built from draws that differ in the random suffix carry
/// different hex proofs, and equal proofs come only from equal suffixes.
pub proof fn lemma_distinct_draws_distinct_proofs(x: u64, y: u64)
    ensures
        x != y ==> hex_proof_text(x) != hex_proof_text(y),
{
    lemma_hex_proof_determines_value(x, y);
}

/// Draws a fresh identity for a shard: a random UUID behind the shard prefix
/// and a random `u64` rendered as a hex proof. The drawn values come from
/// chance; what holds of every outcome is that the identifier is the prefix
/// and a version-4 UUID and the proof is the rendering of some `u64`.
pub fn new_shard_identity() -> (ident: ShardIdentity)
    ensures
        exists|u: Seq<char>| is_v4_uuid_text(u) && ident.shard_id@ == shard_id_prefix() + u,
        exists|x: u64| ident.hex_proof@ == #[trigger] hex_proof_text(x),
{
    let uuid_text = new_v4_uuid_text();
    let suffix = random_u64();
    let ident = identity_from_draws(uuid_text.as_str(), suffix);
    assert(ident.hex_proof@ == hex_proof_text(suffix));
    ident
}

} // verus!
