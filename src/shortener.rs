//! Short-code derivation and validation.

use vstd::prelude::*;
use vstd::utf8::encode_utf8;
use crate::primitives::{b64url, b64url_of, b64_unpadded_len, is_b64url_char, sha256, sha256_of, unix_time_nanos};

verus! {

/// The character that stands for base-62 digit `d` (`0-9`, then `A-Z`, then `a-z`).
pub open spec fn base62_char(d: nat) -> char {
    if d < 10 {
        ((d + 48) as u8) as char
    } else if d < 36 {
        ((d - 10 + 65) as u8) as char
    } else {
        ((d - 36 + 97) as u8) as char
    }
}

/// Base-62 numeral of `n`, most significant digit first; zero is the single zero digit.
pub open spec fn base62_spec(n: nat) -> Seq<char>
    decreases n,
{
    if n < 62 {
        seq![base62_char(n)]
    } else {
        base62_spec(n / 62).push(base62_char(n % 62))
    }
}

/// A character of the base-62 alphabet: an ASCII digit or letter.
pub open spec fn is_base62_char(c: char) -> bool {
    ('0' <= c && c <= '9') || ('A' <= c && c <= 'Z') || ('a' <= c && c <= 'z')
}

/// Every base-62 numeral is a non-empty string of base-62 characters.
pub proof fn base62_spec_alphabet(n: nat)
    ensures
        base62_spec(n).len() >= 1,
        forall|i: int| 0 <= i < base62_spec(n).len() ==> is_base62_char(#[trigger] base62_spec(n)[i]),
    decreases n,
{
    if n >= 62 {
        base62_spec_alphabet(n / 62);
    }
}

fn base62_digit(d: u64) -> (c: char)
    requires
        d < 62,
    ensures
        c == base62_char(d as nat),
{
    if d < 10 {
        ((d + 48) as u8) as char
    } else if d < 36 {
        ((d - 10 + 65) as u8) as char
    } else {
        ((d - 36 + 97) as u8) as char
    }
}

/// Encodes `num` in base 62.
pub fn encode_base62(num: u64) -> (r: String)
    ensures
        r@ == base62_spec(num as nat),
        r@.len() >= 1,
        forall|i: int| 0 <= i < r@.len() ==> is_base62_char(#[trigger] r@[i]),
{
    proof {
        base62_spec_alphabet(num as nat);
    }
    let mut n: u64 = num;
    let mut rev: Vec<char> = Vec::new();
    // Least significant digit first.
    loop
        invariant_except_break
            base62_spec(num as nat) == base62_spec(n as nat) + rev@.reverse(),
        ensures
            base62_spec(num as nat) == rev@.reverse(),
        decreases n,
    {
        let d = n % 62;
        rev.push(base62_digit(d));
        proof {
            assert(rev@.reverse() =~= seq![base62_char(d as nat)] + rev@.drop_last().reverse());
        }
        if n < 62 {
            break;
        }
        n = n / 62;
    }
    let mut out: Vec<char> = Vec::new();
    let mut i: usize = rev.len();
    while i > 0
        invariant
            i <= rev@.len(),
            out@ == rev@.subrange(i as int, rev@.len() as int).reverse(),
        decreases i,
    {
        i = i - 1;
        out.push(rev[i]);
        proof {
            assert(out@ =~= rev@.subrange(i as int, rev@.len() as int).reverse());
        }
    }
    proof {
        assert(rev@.subrange(0, rev@.len() as int) =~= rev@);
    }
    string_from_chars(&out)
}

/// Relies on `String: FromIterator<char>`: the string holds the characters in order.
#[verifier::external_body]
fn string_from_chars(cs: &Vec<char>) -> (r: String)
    ensures
        r@ == cs@,
{
    cs.iter().collect()
}

/// Longest custom code accepted.
pub const MAX_CUSTOM_CODE_LEN: usize = 20;

/// A character allowed in a short code: ASCII letter, digit, `_` or `-`.
pub open spec fn is_code_char(c: char) -> bool {
    ('a' <= c && c <= 'z') || ('A' <= c && c <= 'Z') || ('0' <= c && c <= '9') || c == '_' || c
        == '-'
}

/// A well-formed custom code: 1 to 20 characters, each one allowed.
pub open spec fn valid_custom_code(s: Seq<char>) -> bool {
    &&& 1 <= s.len() <= MAX_CUSTOM_CODE_LEN
    &&& forall|i: int| 0 <= i < s.len() ==> is_code_char(#[trigger] s[i])
}

/// Checks a caller-chosen short code against the custom-code policy.
pub fn is_valid_custom_code(code: &str) -> (r: bool)
    ensures
        r == valid_custom_code(code@),
{
    let n = code.unicode_len();
    if n == 0 || n > MAX_CUSTOM_CODE_LEN {
        return false;
    }
    let mut i: usize = 0;
    while i < n
        invariant
            n == code@.len(),
            i <= n,
            forall|j: int| 0 <= j < i ==> is_code_char(#[trigger] code@[j]),
        decreases n - i,
    {
        let c = code.get_char(i);
        let ok = ('a' <= c && c <= 'z') || ('A' <= c && c <= 'Z') || ('0' <= c && c <= '9') || c
            == '_' || c == '-';
        if !ok {
            return false;
        }
        i = i + 1;
    }
    true
}

/// The salted-hash code: the first six bytes of SHA-256 over the URL's UTF-8
/// bytes followed by the salt, in unpadded URL-safe base 64.
pub open spec fn salted_code(url: Seq<char>, salt: Seq<u8>) -> Seq<char> {
    b64url_of(sha256_of(encode_utf8(url) + salt).subrange(0, 6))
}

/// `k` big-endian bytes of `n` (the low `8 * k` bits).
pub open spec fn be_bytes(n: nat, k: nat) -> Seq<u8>
    decreases k,
{
    if k == 0 {
        Seq::empty()
    } else {
        be_bytes(n / 256, (k - 1) as nat).push((n % 256) as u8)
    }
}

/// The unsigned value of big-endian bytes.
pub open spec fn be_value(b: Seq<u8>) -> nat
    decreases b.len(),
{
    if b.len() == 0 {
        0
    } else {
        be_value(b.drop_last()) * 256 + b.last() as nat
    }
}

/// The base-62 code: the first eight bytes of SHA-256 over the URL's UTF-8 bytes,
/// read as a big-endian integer, in base 62.
pub open spec fn base62_code(url: Seq<char>) -> Seq<char> {
    base62_spec(be_value(sha256_of(encode_utf8(url)).subrange(0, 8)))
}

fn concat_bytes(a: &[u8], b: &[u8]) -> (r: Vec<u8>)
    ensures
        r@ == a@ + b@,
{
    let mut out: Vec<u8> = Vec::new();
    let mut i: usize = 0;
    while i < a.len()
        invariant
            i <= a@.len(),
            out@ == a@.subrange(0, i as int),
        decreases a@.len() - i,
    {
        out.push(a[i]);
        i = i + 1;
        proof {
            assert(out@ =~= a@.subrange(0, i as int));
        }
    }
    let mut j: usize = 0;
    while j < b.len()
        invariant
            j <= b@.len(),
            out@ == a@ + b@.subrange(0, j as int),
        decreases b@.len() - j,
    {
        out.push(b[j]);
        j = j + 1;
        proof {
            assert(out@ =~= a@ + b@.subrange(0, j as int));
        }
    }
    proof {
        assert(b@.subrange(0, b@.len() as int) =~= b@);
    }
    out
}

fn prefix(b: &Vec<u8>, k: usize) -> (r: Vec<u8>)
    requires
        k <= b@.len(),
    ensures
        r@ == b@.subrange(0, k as int),
{
    let mut out: Vec<u8> = Vec::new();
    let mut i: usize = 0;
    while i < k
        invariant
            k <= b@.len(),
            i <= k,
            out@ == b@.subrange(0, i as int),
        decreases k - i,
    {
        out.push(b[i]);
        i = i + 1;
        proof {
            assert(out@ =~= b@.subrange(0, i as int));
        }
    }
    out
}

/// Derives the salted-hash code of `url` with `salt`: eight URL-safe characters.
pub fn generate_short_code(url: &str, salt: &[u8]) -> (r: String)
    ensures
        is_salted_code_result(url@, salt@, r@),
{
    let data = concat_bytes(url.as_bytes(), salt);
    let digest = sha256(data.as_slice());
    let head = prefix(&digest, 6);
    b64url(head.as_slice())
}

/// The 16 big-endian bytes of a 128-bit value.
pub fn u128_be_bytes(v: u128) -> (r: Vec<u8>)
    ensures
        r@ == be_bytes(v as nat, 16),
{
    let mut n: u128 = v;
    let mut k: usize = 16;
    let mut rev: Vec<u8> = Vec::new();
    while k > 0
        invariant
            k <= 16,
            be_bytes(v as nat, 16) == be_bytes(n as nat, k as nat) + rev@.reverse(),
        decreases k,
    {
        let b = (n % 256) as u8;
        rev.push(b);
        proof {
            assert(rev@.reverse() =~= seq![b] + rev@.drop_last().reverse());
            assert(be_bytes(n as nat, k as nat) == be_bytes((n / 256) as nat, (k - 1) as nat).push(
                b,
            ));
        }
        n = n / 256;
        k = k - 1;
    }
    proof {
        assert(be_bytes(v as nat, 16) =~= rev@.reverse());
    }
    let mut out: Vec<u8> = Vec::new();
    let mut i: usize = rev.len();
    while i > 0
        invariant
            i <= rev@.len(),
            out@ == rev@.subrange(i as int, rev@.len() as int).reverse(),
        decreases i,
    {
        i = i - 1;
        out.push(rev[i]);
        proof {
            assert(out@ =~= rev@.subrange(i as int, rev@.len() as int).reverse());
        }
    }
    proof {
        assert(rev@.subrange(0, rev@.len() as int) =~= rev@);
    }
    out
}

/// Derives the salted-hash code of `url` salted with a nanosecond timestamp
/// given as its 16 big-endian bytes.
pub fn generate_short_code_at(url: &str, nanos: u128) -> (r: String)
    ensures
        r@ == salted_code(url@, be_bytes(nanos as nat, 16)),
        r@.len() == 8,
        forall|i: int| 0 <= i < r@.len() ==> is_b64url_char(#[trigger] r@[i]),
{
    let salt = u128_be_bytes(nanos);
    generate_short_code(url, salt.as_slice())
}

/// Derives the salted-hash code of `url` salted with the current wall-clock time
/// in nanoseconds (clamped at zero before the epoch), so that calls at different
/// instants give fresh codes.
pub fn generate_short_code_with_timestamp(url: &str) -> (r: String)
    ensures
        exists|t: u128| r@ == salted_code(url@, be_bytes(t as nat, 16)),
        r@.len() == 8,
        forall|i: int| 0 <= i < r@.len() ==> is_b64url_char(#[trigger] r@[i]),
{
    let now = unix_time_nanos();
    let t: u128 = if now < 0 {
        0
    } else {
        now as u128
    };
    generate_short_code_at(url, t)
}

/// `256^k`.
pub open spec fn pow256(k: nat) -> nat
    decreases k,
{
    if k == 0 {
        1
    } else {
        256 * pow256((k - 1) as nat)
    }
}

proof fn lemma_pow256_monotone(a: nat, b: nat)
    requires
        a <= b,
    ensures
        pow256(a) <= pow256(b),
    decreases b,
{
    if a < b {
        lemma_pow256_monotone(a, (b - 1) as nat);
    }
}

/// Reads the first eight bytes of `b` as a big-endian unsigned integer.
fn be_u64(b: &Vec<u8>) -> (r: u64)
    requires
        b@.len() >= 8,
    ensures
        r as nat == be_value(b@.subrange(0, 8)),
{
    let mut n: u64 = 0;
    let mut i: usize = 0;
    proof {
        reveal_with_fuel(pow256, 9);
        assert(pow256(8) == 0x1_0000_0000_0000_0000);
    }
    while i < 8
        invariant
            b@.len() >= 8,
            i <= 8,
            n as nat == be_value(b@.subrange(0, i as int)),
            (n as nat) < pow256(i as nat),
            pow256(8) == 0x1_0000_0000_0000_0000,
        decreases 8 - i,
    {
        proof {
            lemma_pow256_monotone((i + 1) as nat, 8);
            let p = pow256(i as nat);
            assert((n as nat) * 256 + (b@[i as int] as nat) < 256 * p) by (nonlinear_arith)
                requires
                    (n as nat) < p,
                    b@[i as int] < 256,
            ;
            assert(b@.subrange(0, i + 1).drop_last() =~= b@.subrange(0, i as int));
        }
        n = n * 256 + b[i] as u64;
        i = i + 1;
    }
    n
}

/// Derives the base-62 code of `url`: deterministic, from the URL alone.
pub fn generate_short_code_base62(url: &str) -> (r: String)
    ensures
        r@ == base62_code(url@),
        r@.len() >= 1,
        forall|i: int| 0 <= i < r@.len() ==> is_base62_char(#[trigger] r@[i]),
{
    let digest = sha256(url.as_bytes());
    let n = be_u64(&digest);
    encode_base62(n)
}

/// What `generate_short_code` returns for a URL and a salt.
pub open spec fn is_salted_code_result(url: Seq<char>, salt: Seq<u8>, r: Seq<char>) -> bool {
    &&& r == salted_code(url, salt)
    &&& r.len() == 8
    &&& forall|i: int| 0 <= i < r.len() ==> is_b64url_char(#[trigger] r[i])
}

/// The salted-hash generator is deterministic: two calls with the same URL and
/// salt give the same eight-character code, and no code holds `+`, `/` or `=`.
pub proof fn salted_code_is_deterministic(url: Seq<char>, salt: Seq<u8>, a: Seq<char>, b: Seq<char>)
    requires
        is_salted_code_result(url, salt, a),
        is_salted_code_result(url, salt, b),
    ensures
        a == b,
        a.len() == 8,
        !a.contains('+'),
        !a.contains('/'),
        !a.contains('='),
{
    assert(!a.contains('+') && !a.contains('/') && !a.contains('=')) by {
        if a.contains('+') || a.contains('/') || a.contains('=') {
            let i = choose|i: int| 0 <= i < a.len() && (a[i] == '+' || a[i] == '/' || a[i] == '=');
            assert(is_b64url_char(a[i]));
        }
    }
}

} // verus!
