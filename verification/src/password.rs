//! Password hashing and checking with bcrypt, through the `pwhash` crate.

use vstd::prelude::*;

verus! {

/// The error type of `pwhash`.
#[verifier::external_type_specification]
#[verifier::external_body]
pub struct ExPwhashError(pwhash::error::Error);

/// Whether `pwhash::bcrypt::verify` accepts `password` against the stored
/// bcrypt string `hash`. It depends on the two strings alone: verify reads
/// the cost and salt out of `hash`, hashes `password` with them and compares.
pub uninterp spec fn bcrypt_verifies(password: Seq<char>, hash: Seq<char>) -> bool;

/// The number of bytes that UTF-8 takes for a character.
pub open spec fn utf8_width(c: char) -> nat {
    if (c as u32) < 0x80 {
        1
    } else if (c as u32) < 0x800 {
        2
    } else if (c as u32) < 0x10000 {
        3
    } else {
        4
    }
}

/// The number of bytes that UTF-8 takes for a string.
pub open spec fn utf8_len(s: Seq<char>) -> nat
    decreases s.len(),
{
    if s.len() == 0 {
        0
    } else {
        utf8_len(s.drop_last()) + utf8_width(s.last())
    }
}

pub open spec fn is_ascii_digit(c: char) -> bool {
    '0' <= c && c <= '9'
}

/// The characters of bcrypt's base-64 alphabet.
pub open spec fn is_bcrypt_alphabet(c: char) -> bool {
    c == '.' || c == '/' || ('A' <= c && c <= 'Z') || ('a' <= c && c <= 'z') || is_ascii_digit(c)
}

/// The characters on which `pwhash`'s salt decoder panics when it meets them:
/// below the space it subtracts past zero, and U+0080 indexes one past its table.
pub open spec fn traps_decoder(c: char) -> bool {
    (c as u32) < 0x20 || (c as u32) == 0x80
}

/// A stored hash that opens like `$2b$10$`: a variant pwhash knows, two
/// decimal digits of cost between 4 and 31, and the `$` before the salt.
pub open spec fn has_bcrypt_setup(h: Seq<char>) -> bool {
    &&& h.len() >= 7
    &&& h[0] == '$' && h[1] == '2' && (h[2] == 'a' || h[2] == 'b' || h[2] == 'y') && h[3] == '$'
    &&& is_ascii_digit(h[4]) && is_ascii_digit(h[5]) && h[6] == '$'
    &&& 4 <= 10 * ((h[4] as u32) - 48) + ((h[5] as u32) - 48) <= 31
}

/// A salt whose first character outside the alphabet is one that traps the decoder.
pub open spec fn salt_traps(s: Seq<char>) -> bool {
    exists|i: int|
        0 <= i < s.len() && #[trigger] traps_decoder(s[i]) && forall|j: int|
            0 <= j < i ==> is_bcrypt_alphabet(#[trigger] s[j])
}

/// The stored hashes on which `pwhash::bcrypt::verify` panics (with overflow
/// checks on): the setup is well formed, the 22 bytes after it are whole
/// characters, and decoding them as the salt meets a trapping character
/// before any other character outside the alphabet.
pub open spec fn verify_panics(h: Seq<char>) -> bool {
    has_bcrypt_setup(h) && exists|k: int|
        7 <= k <= h.len() && #[trigger] utf8_len(h.subrange(7, k)) == 22 && salt_traps(
            h.subrange(7, k),
        )
}

/// The character on which `pwhash`'s salt decoder indexes one past its table.
pub open spec fn overruns_table(c: char) -> bool {
    (c as u32) == 0x80
}

/// A salt whose first character outside the alphabet is U+0080.
pub open spec fn salt_overruns_table(s: Seq<char>) -> bool {
    exists|i: int|
        0 <= i < s.len() && #[trigger] overruns_table(s[i]) && forall|j: int|
            0 <= j < i ==> is_bcrypt_alphabet(#[trigger] s[j])
}

/// The message of the panic of `pwhash::bcrypt::verify` on a hash where
/// [`verify_panics`] holds: an index one past the decoding table at U+0080,
/// and otherwise, at a control character, a subtraction past zero.
pub open spec fn verify_panic_message(h: Seq<char>) -> Seq<char> {
    if exists|k: int|
        7 <= k <= h.len() && #[trigger] utf8_len(h.subrange(7, k)) == 22 && salt_overruns_table(
            h.subrange(7, k),
        ) {
        "index out of bounds: the len is 96 but the index is 96"@
    } else {
        "attempt to subtract with overflow"@
    }
}

/// The shape of the hashes that `pwhash::bcrypt::hash` makes: `$2b$10$`,
/// then 22 characters of salt and 31 of checksum from bcrypt's alphabet.
pub open spec fn bcrypt_hash_form(h: Seq<char>) -> bool {
    &&& h.len() == 60
    &&& h[0] == '$' && h[1] == '2' && h[2] == 'b' && h[3] == '$'
    &&& h[4] == '1' && h[5] == '0' && h[6] == '$'
    &&& forall|i: int| 7 <= i < 60 ==> is_bcrypt_alphabet(#[trigger] h[i])
}

/// Hashes a password with `pwhash::bcrypt::hash`: random salt, default cost
/// and variant. What it returns rests on chance. By the crate's source (in
/// this version `hash` fills the salt from the system's random source, which
/// panics rather than fails, and always returns `Ok` from `do_bcrypt`), the
/// result is `Ok`; of every hash it gives, `bcrypt::verify` accepts the
/// password against it, it is of the form `$2b$10$` followed by 53 base-64
/// characters (`format!` of the variant, the cost and the encoded salt and
/// checksum in `do_bcrypt`), and verify does not panic on it. The hash
/// itself is not stated.
#[verifier::external_body]
pub(crate) fn hash_password(password: &str) -> (r: Result<String, pwhash::error::Error>)
    ensures
        r is Ok,
        r matches Ok(h) ==> bcrypt_verifies(password@, h@) && !verify_panics(h@)
            && bcrypt_hash_form(h@),
{
    pwhash::bcrypt::hash(password)
}

/// Checks a password against a stored hash with `pwhash::bcrypt::verify`;
/// the result is the named [`bcrypt_verifies`]. By the crate's source, it
/// accepts only a hash that opens with a bcrypt setup: `verify` compares the
/// hash with `hash_with(hash, password)`, which fails, and then verify
/// answers `false`, unless `into_bcrypt_setup` reads a variant, two digits
/// of cost and a `$`, and the cost lies between 4 and 31.
#[verifier::external_body]
pub(crate) fn verify_password(password: &str, hash: &str) -> (ok: bool)
    requires
        !verify_panics(hash@),
    ensures
        ok == bcrypt_verifies(password@, hash@),
        ok ==> has_bcrypt_setup(hash@),
{
    pwhash::bcrypt::verify(password, hash)
}

} // verus!

verus! {

proof fn lemma_utf8_len_step(h: Seq<char>, k: int)
    requires
        7 <= k < h.len(),
    ensures
        utf8_len(h.subrange(7, k + 1)) == utf8_len(h.subrange(7, k)) + utf8_width(h[k]),
{
    assert(h.subrange(7, k + 1).drop_last() =~= h.subrange(7, k));
}

proof fn lemma_utf8_len_grows(h: Seq<char>, a: int, b: int)
    requires
        7 <= a <= b <= h.len(),
    ensures
        utf8_len(h.subrange(7, a)) + (b - a) <= utf8_len(h.subrange(7, b)),
    decreases b - a,
{
    if a < b {
        lemma_utf8_len_grows(h, a, b - 1);
        lemma_utf8_len_step(h, b - 1);
    }
}

fn char_is_digit(c: char) -> (b: bool)
    ensures
        b == is_ascii_digit(c),
{
    '0' <= c && c <= '9'
}

fn char_in_alphabet(c: char) -> (b: bool)
    ensures
        b == is_bcrypt_alphabet(c),
{
    c == '.' || c == '/' || ('A' <= c && c <= 'Z') || ('a' <= c && c <= 'z') || char_is_digit(c)
}

fn char_utf8_width(c: char) -> (w: usize)
    ensures
        w == utf8_width(c),
{
    let code = c as u32;
    if code < 0x80 {
        1
    } else if code < 0x800 {
        2
    } else if code < 0x10000 {
        3
    } else {
        4
    }
}

fn setup_is_bcrypt(h: &str, n: usize) -> (b: bool)
    requires
        n == h@.len(),
    ensures
        b == has_bcrypt_setup(h@),
{
    if n < 7 {
        return false;
    }
    let c4 = h.get_char(4);
    let c5 = h.get_char(5);
    if !(h.get_char(0) == '$' && h.get_char(1) == '2') {
        return false;
    }
    let c2 = h.get_char(2);
    if !((c2 == 'a' || c2 == 'b' || c2 == 'y') && h.get_char(3) == '$') {
        return false;
    }
    if !(char_is_digit(c4) && char_is_digit(c5) && h.get_char(6) == '$') {
        return false;
    }
    let cost: u32 = 10 * ((c4 as u32) - 48) + ((c5 as u32) - 48);
    4 <= cost && cost <= 31
}

/// Whether `pwhash::bcrypt::verify` would panic on this stored hash.
pub fn verify_would_panic(h: &str) -> (b: bool)
    ensures
        b == verify_panics(h@),
{
    scan_salt(h).0
}

/// The message of the panic of `pwhash::bcrypt::verify` on this stored hash.
pub fn verify_panic_text(h: &str) -> (m: String)
    requires
        verify_panics(h@),
    ensures
        m@ == verify_panic_message(h@),
{
    if scan_salt(h).1 {
        String::from_str("index out of bounds: the len is 96 but the index is 96")
    } else {
        String::from_str("attempt to subtract with overflow")
    }
}

/// Decodes the salt as `pwhash` does: whether decoding panics, and whether
/// it panics one past the table.
fn scan_salt(h: &str) -> (r: (bool, bool))
    ensures
        r.0 == verify_panics(h@),
        r.0 ==> (r.1 == exists|k: int|
            7 <= k <= h@.len() && #[trigger] utf8_len(h@.subrange(7, k)) == 22
                && salt_overruns_table(h@.subrange(7, k))),
{
    let n = h.unicode_len();
    if !setup_is_bcrypt(h, n) {
        return (false, false);
    }
    let ghost s = h@;
    let mut i: usize = 7;
    let mut bytes: usize = 0;
    let mut decided = false;
    let mut trap = false;
    let mut top = false;
    let ghost mut first: int = 7;
    assert(s.subrange(7, 7) =~= Seq::<char>::empty());
    while i < n && bytes < 22
        invariant
            s == h@,
            n == s.len(),
            7 <= i <= n,
            bytes == utf8_len(s.subrange(7, i as int)),
            i == 7 || utf8_len(s.subrange(7, i - 1)) < 22,
            !decided ==> !trap && !top,
            !decided ==> forall|j: int| 7 <= j < i ==> is_bcrypt_alphabet(#[trigger] s[j]),
            decided ==> {
                &&& 7 <= first < i
                &&& !is_bcrypt_alphabet(s[first])
                &&& forall|j: int| 7 <= j < first ==> is_bcrypt_alphabet(#[trigger] s[j])
                &&& trap == traps_decoder(s[first])
                &&& top == overruns_table(s[first])
            },
        decreases n - i,
    {
        let c = h.get_char(i);
        if !decided && !char_in_alphabet(c) {
            decided = true;
            trap = traps_decoder_exec(c);
            top = (c as u32) == 0x80;
            proof {
                first = i as int;
            }
        }
        proof {
            lemma_utf8_len_step(s, i as int);
        }
        bytes = bytes + char_utf8_width(c);
        i = i + 1;
    }
    let ghost salt = s.subrange(7, i as int);
    proof {
        if decided {
            if trap {
                assert(traps_decoder(salt[first - 7]));
                assert forall|j: int| 0 <= j < first - 7 implies is_bcrypt_alphabet(
                    #[trigger] salt[j],
                ) by {
                    assert(salt[j] == s[j + 7]);
                }
                assert(salt_traps(salt));
            } else {
                assert forall|p: int|
                    0 <= p < salt.len() && #[trigger] traps_decoder(salt[p]) implies !(
                    forall|j: int| 0 <= j < p ==> is_bcrypt_alphabet(#[trigger] salt[j])) by {
                    if p < first - 7 {
                        assert(salt[p] == s[p + 7]);
                        assert(is_bcrypt_alphabet(s[p + 7]));
                    } else if p > first - 7 {
                        assert(salt[first - 7] == s[first]);
                    }
                }
            }
        } else {
            assert forall|p: int|
                0 <= p < salt.len() && #[trigger] traps_decoder(salt[p]) implies false by {
                assert(salt[p] == s[p + 7]);
                assert(is_bcrypt_alphabet(s[p + 7]));
            }
        }
        assert forall|k: int|
            7 <= k <= s.len() && #[trigger] utf8_len(s.subrange(7, k)) == 22 implies k == i by {
            if k < i {
                lemma_utf8_len_grows(s, k, i - 1);
            } else if k > i {
                lemma_utf8_len_grows(s, i as int, k);
            }
        }
        if bytes == 22 && trap {
            assert(utf8_len(s.subrange(7, i as int)) == 22);
        }
        if !(bytes == 22 && trap) {
            assert(!salt_traps(salt) || bytes != 22);
        }
        if decided && top {
            assert(overruns_table(salt[first - 7]));
            assert forall|j: int| 0 <= j < first - 7 implies is_bcrypt_alphabet(
                #[trigger] salt[j],
            ) by {
                assert(salt[j] == s[j + 7]);
            }
            assert(salt_overruns_table(salt));
        } else {
            assert forall|p: int|
                0 <= p < salt.len() && #[trigger] overruns_table(salt[p]) implies !(forall|j: int|
                0 <= j < p ==> is_bcrypt_alphabet(#[trigger] salt[j])) by {
                assert(salt[p] == s[p + 7]);
                if decided {
                    if p < first - 7 {
                        assert(is_bcrypt_alphabet(s[p + 7]));
                    } else if p > first - 7 {
                        assert(salt[first - 7] == s[first]);
                    }
                } else {
                    assert(is_bcrypt_alphabet(s[p + 7]));
                }
            }
        }
        if bytes == 22 {
            assert(utf8_len(s.subrange(7, i as int)) == 22);
        }
    }
    (bytes == 22 && trap, bytes == 22 && top)
}

fn traps_decoder_exec(c: char) -> (b: bool)
    ensures
        b == traps_decoder(c),
{
    let code = c as u32;
    code < 0x20 || code == 0x80
}

} // verus!
