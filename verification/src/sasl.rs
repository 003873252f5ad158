//! The SASL `PLAIN` mechanism as the RabbitMQ handshake carries it: the
//! mechanism list a broker offers, and the `authzid NUL authcid NUL passwd`
//! response a client answers with.
use vstd::prelude::*;

use vstd::string::StringSliceAdditionalSpecFns;
use vstd::utf8::{
    char_u32_cast, decode_utf8, encode_scalar, encode_utf8, encode_utf8_decode_utf8, encode_utf8_valid_utf8,
    valid_utf8,
};

use crate::text::{char_is_white_space, chars_of, decode_utf8_lossy, is_white_space, utf8_lossy};

verus! {

/// The mechanism name `PLAIN`.
pub open spec fn plain_word() -> Seq<char> {
    seq!['P', 'L', 'A', 'I', 'N']
}

/// `w` stands in `s` at `i` as a whole white-space-separated word.
pub open spec fn word_at(s: Seq<char>, i: int, w: Seq<char>) -> bool {
    &&& 0 <= i
    &&& i + w.len() <= s.len()
    &&& s.subrange(i, i + w.len()) == w
    &&& (i == 0 || is_white_space(s[i - 1]))
    &&& (i + w.len() == s.len() || is_white_space(s[i + w.len()]))
}

/// One of the white-space-separated words of `s` is `PLAIN`: what
/// `s.split_whitespace().any(|m| m == "PLAIN")` tests.
pub open spec fn has_plain_word(s: Seq<char>) -> bool {
    exists|i: int| word_at(s, i, plain_word())
}

/// Whether a broker's (space-separated) SASL mechanism list, decoded
/// leniently as UTF-8, offers `PLAIN`.
pub fn mechanisms_contains_plain(raw: &[u8]) -> (r: bool)
    ensures
        r == has_plain_word(utf8_lossy(raw@)),
{
    let text = decode_utf8_lossy(raw);
    let v = chars_of(text.as_str());
    let n = v.len();
    if n < 5 {
        return false;
    }
    let mut i: usize = 0;
    while i <= n - 5
        invariant
            5 <= n == v@.len(),
            v@ == utf8_lossy(raw@),
            forall|j: int| 0 <= j < i ==> !word_at(v@, j, plain_word()),
        decreases n - i,
    {
        let starts = i == 0 || char_is_white_space(v[i - 1]);
        let ends = i + 5 == n || char_is_white_space(v[i + 5]);
        if starts && ends && v[i] == 'P' && v[i + 1] == 'L' && v[i + 2] == 'A' && v[i + 3] == 'I'
            && v[i + 4] == 'N' {
            assert(v@.subrange(i as int, i + 5) == plain_word());
            assert(word_at(v@, i as int, plain_word()));
            return true;
        }
        assert(!word_at(v@, i as int, plain_word())) by {
            if word_at(v@, i as int, plain_word()) {
                assert(v@.subrange(i as int, i + 5)[0] == v@[i as int]);
                assert(v@.subrange(i as int, i + 5)[1] == v@[i + 1]);
                assert(v@.subrange(i as int, i + 5)[2] == v@[i + 2]);
                assert(v@.subrange(i as int, i + 5)[3] == v@[i + 3]);
                assert(v@.subrange(i as int, i + 5)[4] == v@[i + 4]);
            }
        }
        i = i + 1;
    }
    false
}

/// `k` is the first NUL byte of `b` at or after `start`.
pub open spec fn first_nul_from(b: Seq<u8>, start: int, k: int) -> bool {
    &&& 0 <= start <= k < b.len()
    &&& b[k] == 0
    &&& forall|j: int| start <= j < k ==> b[j] != 0
}

/// `k1` and `k2` are the positions of the first and second NUL bytes of `b`.
pub open spec fn nul_pair(b: Seq<u8>, k1: int, k2: int) -> bool {
    first_nul_from(b, 0, k1) && first_nul_from(b, k1 + 1, k2)
}

/// The username and password bytes of a SASL `PLAIN` response
/// `[authzid] NUL authcid NUL passwd`: the parts after the first and the
/// second NUL byte (the password keeps any further NUL bytes). `None` where
/// the response has fewer than two NUL bytes.
pub open spec fn plain_response_split(b: Seq<u8>) -> Option<(Seq<u8>, Seq<u8>)> {
    if exists|k1: int, k2: int| nul_pair(b, k1, k2) {
        let (k1, k2) = choose|k1: int, k2: int| nul_pair(b, k1, k2);
        Some((b.subrange(k1 + 1, k2), b.subrange(k2 + 1, b.len() as int)))
    } else {
        None
    }
}

proof fn lemma_first_nul_unique(b: Seq<u8>, start: int, k: int, l: int)
    requires
        first_nul_from(b, start, k),
        first_nul_from(b, start, l),
    ensures
        k == l,
{
    if k < l {
        assert(b[k] != 0);
    } else if l < k {
        assert(b[l] != 0);
    }
}

/// Finds the first NUL byte of `b` at or after `start`.
fn find_nul(b: &[u8], start: usize) -> (r: Option<usize>)
    requires
        start <= b@.len(),
    ensures
        match r {
            Some(k) => first_nul_from(b@, start as int, k as int),
            None => forall|j: int| start <= j < b@.len() ==> b@[j] != 0,
        },
{
    let mut i = start;
    while i < b.len()
        invariant
            start <= i <= b@.len(),
            forall|j: int| start <= j < i ==> b@[j] != 0,
        decreases b@.len() - i,
    {
        if b[i] == 0 {
            return Some(i);
        }
        i = i + 1;
    }
    None
}

/// Parses a SASL `PLAIN` response: `[authzid] NUL authcid NUL passwd`. The
/// authzid is conventionally empty and always ignored here; username and
/// password are decoded leniently as UTF-8.
pub fn parse_plain_response(bytes: &[u8]) -> (r: Option<(String, String)>)
    ensures
        match plain_response_split(bytes@) {
            None => r is None,
            Some((user, pass)) => r matches Some((u, p)) && u@ == utf8_lossy(user) && p@
                == utf8_lossy(pass) && (valid_utf8(user) ==> u@ == decode_utf8(user)) && (
            valid_utf8(pass) ==> p@ == decode_utf8(pass)),
        },
{
    let n = bytes.len();
    let k1 = match find_nul(bytes, 0) {
        Some(k) => k,
        None => {
            return None;
        },
    };
    let k2 = match find_nul(bytes, k1 + 1) {
        Some(k) => k,
        None => {
            proof {
                assert forall|a: int, c: int| !nul_pair(bytes@, a, c) by {
                    if nul_pair(bytes@, a, c) {
                        lemma_first_nul_unique(bytes@, 0, a, k1 as int);
                    }
                }
            }
            return None;
        },
    };
    proof {
        assert(nul_pair(bytes@, k1 as int, k2 as int));
        let (a, c) = choose|a: int, c: int| nul_pair(bytes@, a, c);
        lemma_first_nul_unique(bytes@, 0, a, k1 as int);
        lemma_first_nul_unique(bytes@, a + 1, c, k2 as int);
    }
    let user = decode_utf8_lossy(&bytes[k1 + 1..k2]);
    let pass = decode_utf8_lossy(&bytes[k2 + 1..n]);
    Some((user, pass))
}

/// The SASL `PLAIN` response that logs in as `username` with `password`
/// and an empty authzid: `NUL username NUL password`, in UTF-8.
pub open spec fn plain_response_bytes(username: Seq<u8>, password: Seq<u8>) -> Seq<u8> {
    seq![0u8] + username + seq![0u8] + password
}

/// Builds the SASL `PLAIN` response Warpgate logs into a target broker with.
pub fn plain_response(username: &str, password: &str) -> (r: Vec<u8>)
    ensures
        r@ == plain_response_bytes(username.spec_bytes(), password.spec_bytes()),
{
    let mut r: Vec<u8> = Vec::new();
    r.push(0);
    let u = username.as_bytes();
    for i in 0..u.len()
        invariant
            u@ == username.spec_bytes(),
            r@ == seq![0u8] + u@.take(i as int),
    {
        r.push(u[i]);
        assert(u@.take(i + 1) == u@.take(i as int).push(u@[i as int]));
    }
    assert(u@.take(u@.len() as int) == u@);
    r.push(0);
    let p = password.as_bytes();
    let ghost prefix = r@;
    for i in 0..p.len()
        invariant
            p@ == password.spec_bytes(),
            r@ == prefix + p@.take(i as int),
    {
        r.push(p[i]);
        assert(p@.take(i + 1) == p@.take(i as int).push(p@[i as int]));
    }
    assert(p@.take(p@.len() as int) == p@);
    r
}

/// A `PLAIN` response built for a username without NUL bytes splits back
/// into exactly that username and password.
pub proof fn law_plain_response_round_trip(username: Seq<u8>, password: Seq<u8>)
    requires
        forall|i: int| 0 <= i < username.len() ==> username[i] != 0,
    ensures
        plain_response_split(plain_response_bytes(username, password)) == Some(
            (username, password),
        ),
{
    let b = plain_response_bytes(username, password);
    let k2: int = username.len() as int + 1;
    assert(first_nul_from(b, 0, 0));
    assert forall|j: int| 1 <= j < k2 implies b[j] != 0 by {
        assert(b[j] == username[j - 1]);
    }
    assert(first_nul_from(b, 1, k2));
    assert(nul_pair(b, 0, k2));
    let (a, c) = choose|a: int, c: int| nul_pair(b, a, c);
    lemma_first_nul_unique(b, 0, a, 0);
    lemma_first_nul_unique(b, 1, c, k2);
    assert(b.subrange(1, k2) == username);
    assert(b.subrange(k2 + 1, b.len() as int) == password);
}

proof fn lemma_scalar_bytes_nonzero(s: u32)
    requires
        s != 0,
    ensures
        forall|i: int| 0 <= i < encode_scalar(s).len() ==> encode_scalar(s)[i] != 0,
{
    assert(s != 0 && s <= 0x7F ==> (s & 0x7F) as u8 != 0) by (bit_vector);
    assert((0xC0u8 | ((s >> 6) & 0x1F) as u8) != 0) by (bit_vector);
    assert((0xE0u8 | ((s >> 12) & 0x0F) as u8) != 0) by (bit_vector);
    assert((0xF0u8 | ((s >> 18) & 0x7) as u8) != 0) by (bit_vector);
    assert((0x80u8 | (s & 0x3F) as u8) != 0) by (bit_vector);
    assert((0x80u8 | ((s >> 6) & 0x3F) as u8) != 0) by (bit_vector);
    assert((0x80u8 | ((s >> 12) & 0x3F) as u8) != 0) by (bit_vector);
}

proof fn lemma_encode_no_nul(chars: Seq<char>)
    requires
        forall|i: int| 0 <= i < chars.len() ==> chars[i] != '\0',
    ensures
        forall|j: int| 0 <= j < encode_utf8(chars).len() ==> encode_utf8(chars)[j] != 0,
    decreases chars.len(),
{
    if chars.len() > 0 {
        let head = encode_scalar(chars[0] as u32);
        let rest = chars.drop_first();
        assert(chars[0] != '\0');
        if chars[0] as u32 == 0 {
            char_u32_cast(chars[0], 0);
            char_u32_cast('\0', 0);
        }
        lemma_scalar_bytes_nonzero(chars[0] as u32);
        lemma_encode_no_nul(rest);
        assert(encode_utf8(chars) == head + encode_utf8(rest));
        assert forall|j: int| 0 <= j < encode_utf8(chars).len() implies encode_utf8(chars)[j]
            != 0 by {
            if j < head.len() {
                assert(encode_utf8(chars)[j] == head[j]);
            } else {
                assert(encode_utf8(chars)[j] == encode_utf8(rest)[j - head.len()]);
            }
        }
    }
}

/// A `PLAIN` response built from a username without NUL characters and any
/// password, in UTF-8, splits back into their encodings, each of which is
/// valid UTF-8 that decodes to exactly the text it was built from; so
/// `parse_plain_response` hands back the username and password themselves.
pub proof fn law_plain_text_round_trip(username: Seq<char>, password: Seq<char>)
    requires
        forall|i: int| 0 <= i < username.len() ==> username[i] != '\0',
    ensures
        plain_response_split(plain_response_bytes(encode_utf8(username), encode_utf8(password)))
            == Some((encode_utf8(username), encode_utf8(password))),
        valid_utf8(encode_utf8(username)),
        decode_utf8(encode_utf8(username)) == username,
        valid_utf8(encode_utf8(password)),
        decode_utf8(encode_utf8(password)) == password,
{
    lemma_encode_no_nul(username);
    law_plain_response_round_trip(encode_utf8(username), encode_utf8(password));
    encode_utf8_valid_utf8(username);
    encode_utf8_valid_utf8(password);
    encode_utf8_decode_utf8(username);
    encode_utf8_decode_utf8(password);
}

/// `PLAIN` counts exactly where it stands as a whole word: a list made of
/// anything ending in white space (or nothing), `PLAIN`, and anything
/// starting with white space (or nothing) offers it, wherever in the list
/// it stands; and a list offers it only if it is such a list. A word that
/// merely contains `PLAIN` (as `AMQPLAIN` does) does not count.
pub proof fn law_plain_is_a_whole_word(s: Seq<char>, before: Seq<char>, after: Seq<char>)
    ensures
        (before.len() == 0 || is_white_space(before.last())) && (after.len() == 0 || is_white_space(
            after[0],
        )) ==> has_plain_word(before + seq!['P', 'L', 'A', 'I', 'N'] + after),
        has_plain_word(s) ==> exists|i: int|
            0 <= i && i + 5 <= s.len() && #[trigger] s.subrange(i, i + 5) == seq!['P', 'L', 'A', 'I', 'N']
                && (i == 0 || is_white_space(s[i - 1])) && (i + 5 == s.len() || is_white_space(s[i + 5])),
{
    let t = before + seq!['P', 'L', 'A', 'I', 'N'] + after;
    if (before.len() == 0 || is_white_space(before.last())) && (after.len() == 0 || is_white_space(
        after[0],
    )) {
        let i = before.len() as int;
        assert(t.subrange(i, i + 5) =~= plain_word());
        if i > 0 {
            assert(t[i - 1] == before.last());
        }
        if i + 5 < t.len() {
            assert(t[i + 5] == after[0]);
        }
        assert(word_at(t, i, plain_word()));
    }
    if has_plain_word(s) {
        let i = choose|i: int| word_at(s, i, plain_word());
        assert(s.subrange(i, i + 5) == seq!['P', 'L', 'A', 'I', 'N']);
    }
}

/// A mechanism list that holds no white space is offered `PLAIN` only if it
/// is exactly `PLAIN`.
pub proof fn law_single_mechanism_must_be_plain(s: Seq<char>)
    requires
        forall|i: int| 0 <= i < s.len() ==> !is_white_space(#[trigger] s[i]),
    ensures
        has_plain_word(s) <==> s == seq!['P', 'L', 'A', 'I', 'N'],
{
    if has_plain_word(s) {
        let i = choose|i: int| word_at(s, i, plain_word());
        assert(i == 0);
        assert(i + 5 == s.len());
        assert(s =~= s.subrange(0, 5));
    }
    if s == seq!['P', 'L', 'A', 'I', 'N'] {
        assert(s.subrange(0, 5) =~= plain_word());
        assert(word_at(s, 0, plain_word()));
    }
}

} // verus!
