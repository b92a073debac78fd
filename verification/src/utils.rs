//! Small verified helpers shared across the library: lower-case hex
//! encoding and decoding, decimal rendering of integers, string equality,
//! and url-safe base64 for configuration values.
use vstd::prelude::*;
use vstd::string::StrSliceExecFns;
use vstd::string::StringExecFns;

verus! {

#[derive(Debug)]
pub enum Error {
    FailToB64uDecode,
}

/// The lower-case hex character for a nibble value.
pub open spec fn hex_char_of_nibble(n: u8) -> char
    recommends
        n < 16,
{
    if n == 0 {
        '0'
    } else if n == 1 {
        '1'
    } else if n == 2 {
        '2'
    } else if n == 3 {
        '3'
    } else if n == 4 {
        '4'
    } else if n == 5 {
        '5'
    } else if n == 6 {
        '6'
    } else if n == 7 {
        '7'
    } else if n == 8 {
        '8'
    } else if n == 9 {
        '9'
    } else if n == 10 {
        'a'
    } else if n == 11 {
        'b'
    } else if n == 12 {
        'c'
    } else if n == 13 {
        'd'
    } else if n == 14 {
        'e'
    } else {
        'f'
    }
}

/// The nibble value of a hex character; both cases are accepted.
pub open spec fn nibble_of_char(c: char) -> Option<u8> {
    if c == '0' {
        Some(0u8)
    } else if c == '1' {
        Some(1u8)
    } else if c == '2' {
        Some(2u8)
    } else if c == '3' {
        Some(3u8)
    } else if c == '4' {
        Some(4u8)
    } else if c == '5' {
        Some(5u8)
    } else if c == '6' {
        Some(6u8)
    } else if c == '7' {
        Some(7u8)
    } else if c == '8' {
        Some(8u8)
    } else if c == '9' {
        Some(9u8)
    } else if c == 'a' || c == 'A' {
        Some(10u8)
    } else if c == 'b' || c == 'B' {
        Some(11u8)
    } else if c == 'c' || c == 'C' {
        Some(12u8)
    } else if c == 'd' || c == 'D' {
        Some(13u8)
    } else if c == 'e' || c == 'E' {
        Some(14u8)
    } else if c == 'f' || c == 'F' {
        Some(15u8)
    } else {
        None
    }
}

/// Lower-case hex encoding of a byte sequence, two characters per byte.
pub open spec fn spec_hex_lower(data: Seq<u8>) -> Seq<char>
    decreases data.len(),
{
    if data.len() == 0 {
        Seq::empty()
    } else {
        seq![
            hex_char_of_nibble(data.first() / 16),
            hex_char_of_nibble(data.first() % 16),
        ] + spec_hex_lower(data.drop_first())
    }
}

/// Hex decoding, case-insensitive; `None` on odd length or a non-hex character.
pub open spec fn spec_hex_decode(s: Seq<char>) -> Option<Seq<u8>>
    decreases s.len(),
{
    if s.len() == 0 {
        Some(Seq::empty())
    } else if s.len() == 1 {
        None
    } else {
        match (nibble_of_char(s[0]), nibble_of_char(s[1])) {
            (Some(hi), Some(lo)) => match spec_hex_decode(s.skip(2)) {
                Some(rest) => Some(seq![(hi * 16 + lo) as u8] + rest),
                None => None,
            },
            _ => None,
        }
    }
}

/// Appends the single character for a nibble value to a string.
fn push_nibble(s: &mut String, n: u8)
    requires
        n < 16,
    ensures
        final(s)@ == old(s)@ + seq![hex_char_of_nibble(n)],
{
    proof {
        reveal_strlit("0");
        reveal_strlit("1");
        reveal_strlit("2");
        reveal_strlit("3");
        reveal_strlit("4");
        reveal_strlit("5");
        reveal_strlit("6");
        reveal_strlit("7");
        reveal_strlit("8");
        reveal_strlit("9");
        reveal_strlit("a");
        reveal_strlit("b");
        reveal_strlit("c");
        reveal_strlit("d");
        reveal_strlit("e");
        reveal_strlit("f");
    }
    match n {
        0 => s.append("0"),
        1 => s.append("1"),
        2 => s.append("2"),
        3 => s.append("3"),
        4 => s.append("4"),
        5 => s.append("5"),
        6 => s.append("6"),
        7 => s.append("7"),
        8 => s.append("8"),
        9 => s.append("9"),
        10 => s.append("a"),
        11 => s.append("b"),
        12 => s.append("c"),
        13 => s.append("d"),
        14 => s.append("e"),
        _ => s.append("f"),
    }
}

/// Renders a byte slice as lower-case hex.
pub fn hex_encode_lower(data: &[u8]) -> (r: String)
    ensures
        r@ == spec_hex_lower(data@),
{
    let mut r = String::new();
    let len = data.len();
    assert(data@.skip(0) == data@);
    for i in 0..len
        invariant
            len == data@.len(),
            spec_hex_lower(data@) == r@ + spec_hex_lower(data@.skip(i as int)),
    {
        let b = data[i];
        let ghost prev = r@;
        push_nibble(&mut r, b / 16);
        push_nibble(&mut r, b % 16);
        proof {
            assert(data@.skip(i as int).first() == b);
            assert(data@.skip(i as int).drop_first() =~= data@.skip(i + 1));
            assert(r@ =~= prev + seq![
                hex_char_of_nibble(b / 16),
                hex_char_of_nibble(b % 16),
            ]);
            assert(spec_hex_lower(data@) =~= r@ + spec_hex_lower(data@.skip(i + 1)));
        }
    }
    proof {
        assert(spec_hex_lower(data@.skip(len as int)) =~= Seq::<char>::empty());
        assert(r@ =~= spec_hex_lower(data@));
    }
    r
}

/// The exec twin of `nibble_of_char`.
fn nibble_of(c: char) -> (r: Option<u8>)
    ensures
        r == nibble_of_char(c),
{
    if c >= '0' && c <= '9' {
        Some((c as u8) - 48)
    } else if c >= 'a' && c <= 'f' {
        Some((c as u8) - 97 + 10)
    } else if c >= 'A' && c <= 'F' {
        Some((c as u8) - 65 + 10)
    } else {
        None
    }
}

/// Decodes a hex string, accepting both cases; `None` on malformed input.
pub fn hex_decode(s: &str) -> (r: Option<Vec<u8>>)
    ensures
        match r {
            Some(v) => spec_hex_decode(s@) == Some(v@),
            None => spec_hex_decode(s@) is None,
        },
{
    let len = s.unicode_len();
    let mut out: Vec<u8> = Vec::new();
    let mut i: usize = 0;
    assert(s@.skip(0) == s@);
    while i < len && i + 1 < len
        invariant
            len == s@.len(),
            i <= len,
            i % 2 == 0,
            match spec_hex_decode(s@.skip(i as int)) {
                Some(rest) => spec_hex_decode(s@) == Some(out@ + rest),
                None => spec_hex_decode(s@) is None,
            },
        decreases len - i,
    {
        let c0 = s.get_char(i);
        let c1 = s.get_char(i + 1);
        let ghost tail = s@.skip(i as int);
        proof {
            assert(tail[0] == s@[i as int]);
            assert(tail[1] == s@[i + 1]);
            assert(tail.skip(2) =~= s@.skip(i + 2));
        }
        let hi = match nibble_of(c0) {
            Some(h) => h,
            None => {
                return None;
            },
        };
        let lo = match nibble_of(c1) {
            Some(l) => l,
            None => {
                return None;
            },
        };
        out.push(hi * 16 + lo);
        i = i + 2;
        proof {
            match spec_hex_decode(s@.skip(i as int)) {
                Some(rest) => {
                    assert(out@ + rest =~= out@.subrange(0, out@.len() - 1) + (seq![
                        (hi * 16 + lo) as u8,
                    ] + rest));
                },
                None => {},
            }
        }
    }
    if i < len {
        proof {
            assert(s@.skip(i as int).len() == 1);
        }
        return None;
    }
    proof {
        assert(s@.skip(i as int) =~= Seq::<char>::empty());
        assert(out@ + Seq::<u8>::empty() =~= out@);
    }
    Some(out)
}

/// The hex form is exactly twice as long as the bytes it encodes.
pub proof fn lemma_hex_lower_len(data: Seq<u8>)
    ensures
        spec_hex_lower(data).len() == 2 * data.len(),
    decreases data.len(),
{
    if data.len() > 0 {
        lemma_hex_lower_len(data.drop_first());
    }
}

/// Decoding undoes encoding: the hex form of `data` decodes back to `data`.
pub proof fn lemma_hex_round_trip(data: Seq<u8>)
    ensures
        spec_hex_decode(spec_hex_lower(data)) == Some(data),
    decreases data.len(),
{
    if data.len() == 0 {
        assert(spec_hex_lower(data) =~= Seq::<char>::empty());
    } else {
        let b = data.first();
        let code = spec_hex_lower(data);
        lemma_hex_round_trip(data.drop_first());
        assert(code[0] == hex_char_of_nibble(b / 16));
        assert(code[1] == hex_char_of_nibble(b % 16));
        assert(nibble_of_char(hex_char_of_nibble(b / 16)) == Some((b / 16) as u8));
        assert(nibble_of_char(hex_char_of_nibble(b % 16)) == Some((b % 16) as u8));
        assert(code.skip(2) =~= spec_hex_lower(data.drop_first()));
        assert(seq![((b / 16) * 16 + b % 16) as u8] + data.drop_first() =~= data);
    }
}

/// Two byte sequences with the same hex form are the same sequence.
pub proof fn lemma_hex_lower_injective(a: Seq<u8>, b: Seq<u8>)
    requires
        spec_hex_lower(a) == spec_hex_lower(b),
    ensures
        a == b,
{
    lemma_hex_round_trip(a);
    lemma_hex_round_trip(b);
}

/// The decimal digit character for a value below ten.
pub open spec fn dec_digit(n: u8) -> char
    recommends
        n < 10,
{
    hex_char_of_nibble(n)
}

/// Decimal rendering of an integer, most significant digit first.
pub open spec fn spec_dec(n: nat) -> Seq<char>
    decreases n,
{
    if n < 10 {
        seq![dec_digit(n as u8)]
    } else {
        spec_dec(n / 10) + seq![dec_digit((n % 10) as u8)]
    }
}

/// Appends the decimal rendering of `n` to a string.
pub fn append_dec(s: &mut String, n: u64)
    ensures
        final(s)@ == old(s)@ + spec_dec(n as nat),
    decreases n,
{
    if n < 10 {
        push_nibble(s, n as u8);
    } else {
        append_dec(s, n / 10);
        let ghost mid = s@;
        push_nibble(s, (n % 10) as u8);
        proof {
            assert(s@ =~= old(s)@ + (spec_dec(n as nat / 10) + seq![
                dec_digit((n as nat % 10) as u8),
            ]));
        }
    }
}

/// The decimal rendering of `n` as a fresh string.
pub fn u64_to_dec(n: u64) -> (r: String)
    ensures
        r@ == spec_dec(n as nat),
{
    let mut r = String::new();
    append_dec(&mut r, n);
    proof {
        assert(r@ =~= spec_dec(n as nat));
    }
    r
}

/// String equality on views, decided character by character.
pub fn str_eq(a: &str, b: &str) -> (r: bool)
    ensures
        r == (a@ == b@),
{
    let alen = a.unicode_len();
    let blen = b.unicode_len();
    if alen != blen {
        return false;
    }
    for i in 0..alen
        invariant
            alen == a@.len(),
            alen == b@.len(),
            forall|j: int| 0 <= j < i ==> a@[j] == b@[j],
    {
        if a.get_char(i) != b.get_char(i) {
            return false;
        }
    }
    proof {
        assert(a@ =~= b@);
    }
    true
}

/// What `base64_url::decode` followed by a UTF-8 read yields for a string,
/// if anything.
pub uninterp spec fn b64u_str_decoded(s: Seq<char>) -> Option<Seq<char>>;

/// Relies on base64_url::encode: the url-safe base64 form of the input,
/// which base64_url::decode reads back to the same text.
#[verifier::external_body]
fn b64u_encode_raw(content: &str) -> (r: String)
    ensures
        b64u_str_decoded(r@) == Some(content@),
{
    base64_url::encode(content)
}

/// Relies on base64_url::decode: reads the url-safe base64 form back to
/// bytes, here taken as UTF-8 text; the result depends on the input alone.
#[verifier::external_body]
fn b64u_decode_raw(b64u: &str) -> (r: Option<String>)
    ensures
        match r {
            Some(s) => b64u_str_decoded(b64u@) == Some(s@),
            None => b64u_str_decoded(b64u@) is None,
        },
{
    base64_url::decode(b64u).ok().and_then(|bytes| String::from_utf8(bytes).ok())
}

/// Url-safe base64 encoding of a text value.
pub fn b64u_encode(content: &str) -> (r: String)
    ensures
        b64u_str_decoded(r@) == Some(content@),
{
    b64u_encode_raw(content)
}

/// Url-safe base64 decoding back to text; a value that does not decode is
/// reported as an error.
pub fn b64u_decode(b64u: &str) -> (r: Result<String, Error>)
    ensures
        match r {
            Ok(s) => b64u_str_decoded(b64u@) == Some(s@),
            Err(_) => b64u_str_decoded(b64u@) is None,
        },
{
    match b64u_decode_raw(b64u) {
        Some(s) => Ok(s),
        None => Err(Error::FailToB64uDecode),
    }
}


/// Whether the character occurs in the sequence.
pub open spec fn spec_has_char(s: Seq<char>, c: char) -> bool {
    exists|i: int| 0 <= i < s.len() && s[i] == c
}

/// The two parts around the character when it occurs exactly once, the way a
/// split into exactly two pieces behaves; `None` otherwise.
pub open spec fn spec_split_two(s: Seq<char>, c: char) -> Option<(Seq<char>, Seq<char>)>
    decreases s.len(),
{
    if s.len() == 0 {
        None
    } else if s.first() == c {
        if spec_has_char(s.drop_first(), c) {
            None
        } else {
            Some((Seq::empty(), s.drop_first()))
        }
    } else {
        match spec_split_two(s.drop_first(), c) {
            Some(p) => Some((seq![s.first()] + p.0, p.1)),
            None => None,
        }
    }
}

/// The prefix before the first occurrence of the character, or the whole
/// sequence when it never occurs.
pub open spec fn spec_take_until(s: Seq<char>, c: char) -> Seq<char>
    decreases s.len(),
{
    if s.len() == 0 {
        s
    } else if s.first() == c {
        Seq::empty()
    } else {
        seq![s.first()] + spec_take_until(s.drop_first(), c)
    }
}

/// What follows the first occurrence of the character, if it occurs.
pub open spec fn spec_after_first(s: Seq<char>, c: char) -> Option<Seq<char>>
    decreases s.len(),
{
    if s.len() == 0 {
        None
    } else if s.first() == c {
        Some(s.drop_first())
    } else {
        spec_after_first(s.drop_first(), c)
    }
}

proof fn lemma_split_two_none(s: Seq<char>, c: char)
    requires
        forall|j: int| 0 <= j < s.len() ==> s[j] != c,
    ensures
        spec_split_two(s, c) is None,
        spec_take_until(s, c) == s,
        spec_after_first(s, c) is None,
    decreases s.len(),
{
    if s.len() > 0 {
        assert(forall|j: int|
            0 <= j < s.drop_first().len() ==> s.drop_first()[j] == s[j + 1] && s[j + 1] != c);
        lemma_split_two_none(s.drop_first(), c);
        assert(seq![s.first()] + s.drop_first() =~= s);
    }
}

proof fn lemma_split_two_at(s: Seq<char>, c: char, i: int)
    requires
        0 <= i < s.len(),
        s[i] == c,
        forall|j: int| 0 <= j < i ==> s[j] != c,
    ensures
        spec_split_two(s, c) == if spec_has_char(s.subrange(i + 1, s.len() as int), c) {
            None::<(Seq<char>, Seq<char>)>
        } else {
            Some((s.subrange(0, i), s.subrange(i + 1, s.len() as int)))
        },
        spec_take_until(s, c) == s.subrange(0, i),
        spec_after_first(s, c) == Some(s.subrange(i + 1, s.len() as int)),
    decreases i,
{
    let tail = s.drop_first();
    if i == 0 {
        assert(s.first() == c);
        assert(tail =~= s.subrange(1, s.len() as int));
        if !spec_has_char(tail, c) {
            assert(Seq::<char>::empty() =~= s.subrange(0, 0));
        }
        assert(spec_take_until(s, c) =~= s.subrange(0, 0));
    } else {
        assert(s.first() != c);
        assert(forall|j: int| 0 <= j < i - 1 ==> tail[j] == s[j + 1] && s[j + 1] != c);
        assert(tail[i - 1] == s[i]);
        lemma_split_two_at(tail, c, i - 1);
        assert(tail.subrange(i, tail.len() as int) =~= s.subrange(i + 1, s.len() as int));
        assert(seq![s.first()] + tail.subrange(0, i - 1) =~= s.subrange(0, i));
    }
}

/// Finds the first occurrence of `c` at or after `from`.
pub(crate) fn find_char(s: &str, from: usize, c: char) -> (r: Option<usize>)
    requires
        from <= s@.len(),
    ensures
        match r {
            Some(i) => from <= i < s@.len() && s@[i as int] == c && (forall|j: int|
                from <= j < i ==> s@[j] != c),
            None => forall|j: int| from <= j < s@.len() ==> s@[j] != c,
        },
{
    let len = s.unicode_len();
    let mut i = from;
    while i < len
        invariant
            from <= i <= len,
            len == s@.len(),
            forall|j: int| from <= j < i ==> s@[j] != c,
        decreases len - i,
    {
        if s.get_char(i) == c {
            return Some(i);
        }
        i = i + 1;
    }
    None
}

/// Splits the text into the two pieces around a single occurrence of `c`;
/// `None` when `c` occurs never or more than once.
pub fn split_once_exact(s: &str, c: char) -> (r: Option<(String, String)>)
    ensures
        match r {
            Some(p) => spec_split_two(s@, c) == Some((p.0@, p.1@)),
            None => spec_split_two(s@, c) is None,
        },
{
    let len = s.unicode_len();
    let i = match find_char(s, 0, c) {
        Some(i) => i,
        None => {
            proof {
                lemma_split_two_none(s@, c);
            }
            return None;
        },
    };
    proof {
        lemma_split_two_at(s@, c, i as int);
    }
    match find_char(s, i + 1, c) {
        Some(k) => {
            proof {
                let sub = s@.subrange(i + 1, s@.len() as int);
                assert(sub[k - i - 1] == s@[k as int]);
                assert(spec_has_char(sub, c));
            }
            None
        },
        None => {
            proof {
                let sub = s@.subrange(i + 1, s@.len() as int);
                assert forall|k: int| 0 <= k < sub.len() implies sub[k] != c by {
                    assert(sub[k] == s@[k + i + 1]);
                }
            }
            let a = s.substring_char(0, i).to_owned();
            let b = s.substring_char(i + 1, len).to_owned();
            Some((a, b))
        },
    }
}

/// Splits the text around the first occurrence of `c`: the prefix before it
/// and everything after it; `None` when `c` never occurs.
pub fn split_at_first(s: &str, c: char) -> (r: Option<(String, String)>)
    ensures
        match r {
            Some(p) => spec_after_first(s@, c) == Some(p.1@) && p.0@ == spec_take_until(s@, c),
            None => spec_after_first(s@, c) is None && spec_take_until(s@, c) == s@,
        },
{
    let len = s.unicode_len();
    match find_char(s, 0, c) {
        Some(i) => {
            proof {
                lemma_split_two_at(s@, c, i as int);
            }
            let a = s.substring_char(0, i).to_owned();
            let b = s.substring_char(i + 1, len).to_owned();
            Some((a, b))
        },
        None => {
            proof {
                lemma_split_two_none(s@, c);
            }
            None
        },
    }
}

/// The prefix of the text before the first occurrence of `c`, or the whole
/// text when `c` never occurs.
pub fn take_until(s: &str, c: char) -> (r: String)
    ensures
        r@ == spec_take_until(s@, c),
{
    let len = s.unicode_len();
    match find_char(s, 0, c) {
        Some(i) => {
            proof {
                lemma_split_two_at(s@, c, i as int);
            }
            s.substring_char(0, i).to_owned()
        },
        None => {
            proof {
                lemma_split_two_none(s@, c);
            }
            s.to_owned()
        },
    }
}

} // verus!
