//! Text helpers: trimming of console input, UTF-8 text of channel messages,
//! and the Base64 text encoding used for session descriptions.
use vstd::prelude::*;
use vstd::utf8::*;
use base64::Engine;

verus! {

broadcast use vstd::string::group_string_axioms;

/// The Unicode `White_Space` property (PropList.txt), the set of characters
/// that `str::trim` removes.
pub open spec fn is_white_space_spec(c: char) -> bool {
    let u: u32 = c as u32;
    ||| 0x09 <= u <= 0x0d
    ||| u == 0x20
    ||| u == 0x85
    ||| u == 0xa0
    ||| u == 0x1680
    ||| 0x2000 <= u <= 0x200a
    ||| u == 0x2028
    ||| u == 0x2029
    ||| u == 0x202f
    ||| u == 0x205f
    ||| u == 0x3000
}

/// Whether `c` has the Unicode `White_Space` property.
pub fn is_white_space(c: char) -> (r: bool)
    ensures
        r == is_white_space_spec(c),
{
    let u: u32 = c as u32;
    (0x09 <= u && u <= 0x0d) || u == 0x20 || u == 0x85 || u == 0xa0 || u == 0x1680 || (0x2000
        <= u && u <= 0x200a) || u == 0x2028 || u == 0x2029 || u == 0x202f || u == 0x205f || u
        == 0x3000
}

/// `i..j` are the bounds of `s` with its leading and trailing white space cut
/// off: everything outside is white space, and the kept part, if any, starts
/// and ends with a character that is not.
pub open spec fn trim_bounds(s: Seq<char>, i: int, j: int) -> bool {
    &&& 0 <= i <= j <= s.len()
    &&& forall|k: int| 0 <= k < i ==> is_white_space_spec(#[trigger] s[k])
    &&& forall|k: int| j <= k < s.len() ==> is_white_space_spec(#[trigger] s[k])
    &&& i < j ==> !is_white_space_spec(s[i]) && !is_white_space_spec(s[j - 1])
}

/// `t` is `s` with leading and trailing white space removed.
pub open spec fn is_trim_of(s: Seq<char>, t: Seq<char>) -> bool {
    exists|i: int, j: int| trim_bounds(s, i, j) && t == s.subrange(i, j)
}

/// A line of console input as the program keeps it: without the line break
/// and without surrounding white space.
pub fn trim_input(line: &str) -> (r: String)
    ensures
        is_trim_of(line@, r@),
{
    let mut chars: Vec<char> = Vec::new();
    for c in it: line.chars()
        invariant
            chars@ == it.seq().take(it.index() as int),
            it.seq() == line@,
    {
        chars.push(c);
    }
    assert(chars@ == line@);
    let n = chars.len();
    let mut i: usize = 0;
    while i < n && is_white_space(chars[i])
        invariant
            i <= n,
            n == chars@.len(),
            chars@ == line@,
            forall|k: int| 0 <= k < i ==> is_white_space_spec(#[trigger] line@[k]),
        decreases n - i,
    {
        i = i + 1;
    }
    let mut j: usize = n;
    while j > i && is_white_space(chars[j - 1])
        invariant
            i <= j <= n,
            n == chars@.len(),
            chars@ == line@,
            forall|k: int| j <= k < n ==> is_white_space_spec(#[trigger] line@[k]),
        decreases j - i,
    {
        j = j - 1;
    }
    let r = line.substring_char(i, j).to_string();
    assert(trim_bounds(line@, i as int, j as int));
    r
}


/// The outside error of a Base64 decode.
#[verifier::external_type_specification]
#[verifier::external_body]
pub struct ExBase64DecodeError(base64::DecodeError);

/// The outside error of a UTF-8 conversion of a byte vector.
#[verifier::external_type_specification]
#[verifier::external_body]
pub struct ExFromUtf8Error(std::string::FromUtf8Error);

/// The ASCII code of the character for sextet `v` in the standard Base64
/// alphabet (RFC 4648): `A`-`Z`, `a`-`z`, `0`-`9`, `+`, `/`.
pub open spec fn b64_code(v: int) -> int {
    if v < 26 {
        65 + v
    } else if v < 52 {
        71 + v
    } else if v < 62 {
        v - 4
    } else if v == 62 {
        43
    } else {
        47
    }
}

/// The character for sextet `v` in the standard Base64 alphabet.
pub open spec fn b64_char(v: int) -> char {
    b64_code(v) as char
}

proof fn lemma_char(x: int, y: int)
    requires
        0 <= x < 64,
        0 <= y < 64,
    ensures
        b64_char(x) == b64_char(y) ==> x == y,
        b64_char(x) != '=',
{
    assert(b64_char(x) as u32 == b64_code(x));
    assert(b64_char(y) as u32 == b64_code(y));
    assert('=' as u32 == 61);
}


/// The first six bits of byte `a`.
pub open spec fn sextet_0(a: u8) -> int {
    (a / 4) as int
}

/// The last two bits of `a` followed by the first four of `b`.
pub open spec fn sextet_1(a: u8, b: u8) -> int {
    ((a % 4) * 16 + b / 16) as int
}

/// The last four bits of `b` followed by the first two of `c`.
pub open spec fn sextet_2(b: u8, c: u8) -> int {
    ((b % 16) * 4 + c / 64) as int
}

/// The last six bits of `c`.
pub open spec fn sextet_3(c: u8) -> int {
    (c % 64) as int
}

/// Standard Base64 with `=` padding (RFC 4648, section 4): each group of
/// three bytes becomes four characters; a last group of one or two bytes
/// becomes two or three characters and `=` padding.
pub open spec fn base64_standard(b: Seq<u8>) -> Seq<char>
    decreases b.len(),
{
    if b.len() == 0 {
        Seq::empty()
    } else if b.len() == 1 {
        seq![b64_char(sextet_0(b[0])), b64_char(sextet_1(b[0], 0)), '=', '=']
    } else if b.len() == 2 {
        seq![
            b64_char(sextet_0(b[0])),
            b64_char(sextet_1(b[0], b[1])),
            b64_char(sextet_2(b[1], 0)),
            '=',
        ]
    } else {
        seq![
            b64_char(sextet_0(b[0])),
            b64_char(sextet_1(b[0], b[1])),
            b64_char(sextet_2(b[1], b[2])),
            b64_char(sextet_3(b[2])),
        ] + base64_standard(b.skip(3))
    }
}

/// Four characters for each started group of three bytes.
pub proof fn law_base64_length(b: Seq<u8>)
    ensures
        base64_standard(b).len() == 4 * ((b.len() + 2) / 3),
    decreases b.len(),
{
    if b.len() >= 3 {
        law_base64_length(b.skip(3));
    }
}

proof fn lemma_bytes(a: u8, b: u8, c: u8, x: u8, y: u8, z: u8)
    requires
        a / 4 == x / 4,
        (a % 4) * 16 + b / 16 == (x % 4) * 16 + y / 16,
        (b % 16) * 4 + c / 64 == (y % 16) * 4 + z / 64,
        c % 64 == z % 64,
    ensures
        a == x && b == y && c == z,
{
    assert(a == x && b == y && c == z) by (bit_vector)
        requires
            a / 4 == x / 4,
            (a % 4) * 16 + b / 16 == (x % 4) * 16 + y / 16,
            (b % 16) * 4 + c / 64 == (y % 16) * 4 + z / 64,
            c % 64 == z % 64,
    ;
}

proof fn lemma_byte_one(a: u8, x: u8)
    requires
        a / 4 == x / 4,
        (a % 4) * 16 == (x % 4) * 16,
    ensures
        a == x,
{
    assert(a == x) by (bit_vector)
        requires
            a / 4 == x / 4,
            (a % 4) * 16 == (x % 4) * 16,
    ;
}

proof fn lemma_bytes_two(a: u8, b: u8, x: u8, y: u8)
    requires
        a / 4 == x / 4,
        (a % 4) * 16 + b / 16 == (x % 4) * 16 + y / 16,
        (b % 16) * 4 == (y % 16) * 4,
    ensures
        a == x && b == y,
{
    assert(a == x && b == y) by (bit_vector)
        requires
            a / 4 == x / 4,
            (a % 4) * 16 + b / 16 == (x % 4) * 16 + y / 16,
            (b % 16) * 4 == (y % 16) * 4,
    ;
}

proof fn lemma_sextets(a: u8, b: u8, c: u8)
    ensures
        0 <= a / 4 < 64,
        0 <= (a % 4) * 16 < 64,
        0 <= (a % 4) * 16 + b / 16 < 64,
        0 <= (b % 16) * 4 < 64,
        0 <= (b % 16) * 4 + c / 64 < 64,
        0 <= c % 64 < 64,
{
}

/// Distinct byte sequences have distinct encodings.
pub proof fn law_base64_injective(b1: Seq<u8>, b2: Seq<u8>)
    requires
        base64_standard(b1) == base64_standard(b2),
    ensures
        b1 == b2,
    decreases b1.len(),
{
    law_base64_length(b1);
    law_base64_length(b2);
    let e = base64_standard(b1);
    if b1.len() == 0 || b2.len() == 0 {
        assert(b1 =~= b2);
    } else {
        let x0 = b1[0];
        let y0 = b2[0];
        let x1 = if b1.len() >= 2 { b1[1] } else { 0u8 };
        let y1 = if b2.len() >= 2 { b2[1] } else { 0u8 };
        let x2 = if b1.len() >= 3 { b1[2] } else { 0u8 };
        let y2 = if b2.len() >= 3 { b2[2] } else { 0u8 };
        lemma_sextets(x0, x1, x2);
        lemma_sextets(y0, y1, y2);
        lemma_char(sextet_0(x0), sextet_0(y0));
        lemma_char(sextet_1(x0, x1), sextet_1(y0, y1));
        lemma_char(sextet_2(x1, x2), sextet_2(y1, y2));
        lemma_char(sextet_3(x2), sextet_3(y2));
        lemma_char(sextet_1(x0, 0), sextet_1(y0, 0));
        lemma_char(sextet_2(x1, 0), sextet_2(y1, 0));
        lemma_char(sextet_1(x0, 0), sextet_1(y0, y1));
        lemma_char(sextet_1(x0, x1), sextet_1(y0, 0));
        lemma_char(sextet_2(x1, 0), sextet_2(y1, y2));
        lemma_char(sextet_2(x1, x2), sextet_2(y1, 0));
        if b1.len() == 1 {
            assert(b2.len() == 1);
            lemma_byte_one(x0, y0);
            assert(b1 =~= b2);
        } else if b1.len() == 2 {
            assert(b2.len() == 2);
            lemma_bytes_two(x0, x1, y0, y1);
            assert(b1 =~= b2);
        } else {
            assert(b2.len() >= 3);
            let e2 = base64_standard(b2);
            assert(e[0] == b64_char(sextet_0(x0)) && e2[0] == b64_char(sextet_0(y0)));
            assert(e[1] == b64_char(sextet_1(x0, x1)) && e2[1] == b64_char(sextet_1(y0, y1)));
            assert(e[2] == b64_char(sextet_2(x1, x2)) && e2[2] == b64_char(sextet_2(y1, y2)));
            assert(e[3] == b64_char(sextet_3(x2)) && e2[3] == b64_char(sextet_3(y2)));
            lemma_bytes(x0, x1, x2, y0, y1, y2);
            assert(base64_standard(b1.skip(3)) =~= e.skip(4));
            assert(base64_standard(b2.skip(3)) =~= e.skip(4));
            law_base64_injective(b1.skip(3), b2.skip(3));
            assert forall|k: int| 0 <= k < b1.len() implies b1[k] == b2[k] by {
                if k >= 3 {
                    assert(b1[k] == b1.skip(3)[k - 3]);
                    assert(b2[k] == b2.skip(3)[k - 3]);
                }
            }
            assert(b1 =~= b2);
        }
    }
}

/// The bytes a canonical standard Base64 input stands for: the bytes whose
/// encoding it is, or `None` where it is the encoding of nothing.
pub open spec fn base64_standard_decoding(input: Seq<u8>) -> Option<Seq<u8>> {
    if exists|b: Seq<u8>| encode_utf8(base64_standard(b)) == input {
        Some(choose|b: Seq<u8>| encode_utf8(base64_standard(b)) == input)
    } else {
        None
    }
}

/// Decoding the encoding of `b` gives `b`.
pub proof fn law_base64_decodes_encoding(b: Seq<u8>)
    ensures
        base64_standard_decoding(encode_utf8(base64_standard(b))) == Some(b),
{
    let input = encode_utf8(base64_standard(b));
    assert(encode_utf8(base64_standard(b)) == input);
    let c = choose|c: Seq<u8>| encode_utf8(base64_standard(c)) == input;
    encode_utf8_decode_utf8(base64_standard(b));
    encode_utf8_decode_utf8(base64_standard(c));
    law_base64_injective(c, b);
}

/// Splitting the bytes after a whole number of groups of three splits the
/// encoding there too.
pub proof fn law_base64_concat(a: Seq<u8>, b: Seq<u8>)
    requires
        a.len() % 3 == 0,
    ensures
        base64_standard(a + b) == base64_standard(a) + base64_standard(b),
    decreases a.len(),
{
    if a.len() == 0 {
        assert(a + b =~= b);
        assert(base64_standard(a) + base64_standard(b) =~= base64_standard(b));
    } else {
        law_base64_concat(a.skip(3), b);
        assert((a + b).skip(3) =~= a.skip(3) + b);
        let g = base64_standard(a + b);
        assert(g =~= base64_standard(a) + base64_standard(b));
    }
}

/// `base64::Engine::encode` on `base64::prelude::BASE64_STANDARD`. Trusted:
/// the result is the standard padded encoding of the bytes. The engine
/// panics where the encoded length overflows `usize`, which `requires`
/// leaves out.
#[verifier::external_body]
fn base64_encode(bytes: &[u8]) -> (r: String)
    requires
        bytes@.len() / 3 * 4 + 4 <= usize::MAX,
    ensures
        r@ == base64_standard(bytes@),
{
    base64::prelude::BASE64_STANDARD.encode(bytes)
}

/// `base64::Engine::decode` on `base64::prelude::BASE64_STANDARD`. Trusted:
/// the engine requires canonical padding and refuses trailing bits, so it
/// succeeds exactly on inputs that are the standard encoding of some bytes,
/// and then gives the bytes whose encoding the input is.
#[verifier::external_body]
fn base64_decode(input: &[u8]) -> (r: Result<Vec<u8>, base64::DecodeError>)
    ensures
        r is Ok <==> exists|b: Seq<u8>| encode_utf8(base64_standard(b)) == input@,
        r matches Ok(v) ==> encode_utf8(base64_standard(v@)) == input@,
{
    base64::prelude::BASE64_STANDARD.decode(input)
}

/// `String::from_utf8`. Trusted, as its documentation says: it succeeds
/// exactly on valid UTF-8 and then holds the characters the bytes encode.
#[verifier::external_body]
fn string_from_utf8(bytes: Vec<u8>) -> (r: Result<String, std::string::FromUtf8Error>)
    ensures
        r is Ok <==> valid_utf8(bytes@),
        r matches Ok(s) ==> s@ == decode_utf8(bytes@),
{
    String::from_utf8(bytes)
}

/// The Base64 text of the UTF-8 bytes of `t`.
pub open spec fn encoded_text(t: Seq<char>) -> Seq<char> {
    base64_standard(encode_utf8(t))
}

/// Encodes the UTF-8 bytes of `b` in standard Base64.
pub fn encode(b: &str) -> (r: String)
    requires
        encode_utf8(b@).len() / 3 * 4 + 4 <= usize::MAX,
    ensures
        r@ == encoded_text(b@),
        r@.len() == 4 * ((encode_utf8(b@).len() + 2) / 3),
{
    proof {
        law_base64_length(encode_utf8(b@));
    }
    base64_encode(b.as_bytes())
}

/// Why a Base64 text could not be turned back into a string.
#[derive(Debug)]
pub enum DecodeFailure {
    /// The input is not valid standard Base64.
    InvalidBase64(base64::DecodeError),
    /// The decoded bytes are not valid UTF-8.
    InvalidUtf8(std::string::FromUtf8Error),
}

/// Reads decoded bytes as UTF-8 text.
pub fn text_of(bytes: Vec<u8>) -> (r: Result<String, DecodeFailure>)
    ensures
        match r {
            Ok(t) => valid_utf8(bytes@) && t@ == decode_utf8(bytes@),
            Err(DecodeFailure::InvalidUtf8(_)) => !valid_utf8(bytes@),
            Err(DecodeFailure::InvalidBase64(_)) => false,
        },
{
    match string_from_utf8(bytes) {
        Ok(t) => Ok(t),
        Err(e) => Err(DecodeFailure::InvalidUtf8(e)),
    }
}

/// The text a Base64 text stands for: the UTF-8 text of the bytes it is the
/// standard encoding of, where it is one and they are valid UTF-8.
pub open spec fn decoded_text(s: Seq<char>) -> Option<Seq<char>> {
    match base64_standard_decoding(encode_utf8(s)) {
        Some(b) => if valid_utf8(b) {
            Some(decode_utf8(b))
        } else {
            None
        },
        None => None,
    }
}

/// Decodes standard Base64 and reads the bytes as UTF-8 text.
pub fn decode(s: &str) -> (r: Result<String, DecodeFailure>)
    ensures
        match r {
            Ok(t) => decoded_text(s@) == Some(t@),
            Err(DecodeFailure::InvalidBase64(_)) => base64_standard_decoding(
                encode_utf8(s@),
            ) is None,
            Err(DecodeFailure::InvalidUtf8(_)) => base64_standard_decoding(
                encode_utf8(s@),
            ) matches Some(b) && !valid_utf8(b),
        },
{
    let bytes = match base64_decode(s.as_bytes()) {
        Ok(v) => v,
        Err(e) => {
            return Err(DecodeFailure::InvalidBase64(e));
        },
    };
    proof {
        law_base64_decodes_encoding(bytes@);
    }
    text_of(bytes)
}

/// Decoding the encoding of any text gives the text back.
pub proof fn law_decode_inverts_encode(t: Seq<char>)
    ensures
        decoded_text(encoded_text(t)) == Some(t),
{
    let b = encode_utf8(t);
    encode_utf8_decode_utf8(base64_standard(b));
    law_base64_decodes_encoding(b);
    encode_utf8_decode_utf8(t);
    encode_utf8_valid_utf8(t);
}

/// Decoding loses nothing: a text that decodes is the encoding of what it
/// decodes to.
pub proof fn law_encode_inverts_decode(s: Seq<char>, t: Seq<char>)
    requires
        decoded_text(s) == Some(t),
    ensures
        encoded_text(t) == s,
{
    let b = base64_standard_decoding(encode_utf8(s))->0;
    decode_utf8_encode_utf8(b);
    encode_utf8_decode_utf8(s);
    encode_utf8_decode_utf8(base64_standard(b));
}

/// The text of a received channel message: its bytes read as UTF-8, or the
/// empty string where they are not valid UTF-8.
pub fn message_text(data: &[u8]) -> (r: String)
    ensures
        r@ == (if valid_utf8(data@) {
            decode_utf8(data@)
        } else {
            Seq::<char>::empty()
        }),
{
    match string_from_utf8(vstd::slice::slice_to_vec(data)) {
        Ok(s) => s,
        Err(_) => String::new(),
    }
}


proof fn lemma_trim_bounds_unique(s: Seq<char>, i1: int, j1: int, i2: int, j2: int)
    requires
        trim_bounds(s, i1, j1),
        trim_bounds(s, i2, j2),
    ensures
        s.subrange(i1, j1) == s.subrange(i2, j2),
{
    if i1 < j1 && i2 < j2 {
        assert(i1 == i2) by {
            if i1 < i2 {
                assert(is_white_space_spec(s[i1]));
            } else if i2 < i1 {
                assert(is_white_space_spec(s[i2]));
            }
        }
        assert(j1 == j2) by {
            if j1 < j2 {
                assert(is_white_space_spec(s[j2 - 1]));
            } else if j2 < j1 {
                assert(is_white_space_spec(s[j1 - 1]));
            }
        }
    } else if i1 < j1 {
        assert(is_white_space_spec(s[i1]));
        assert(false);
    } else if i2 < j2 {
        assert(is_white_space_spec(s[i2]));
        assert(false);
    }
    assert(s.subrange(i1, j1) =~= s.subrange(i2, j2));
}

/// Trimming gives one result for each input.
pub proof fn law_trim_is_a_function(s: Seq<char>, t1: Seq<char>, t2: Seq<char>)
    requires
        is_trim_of(s, t1),
        is_trim_of(s, t2),
    ensures
        t1 == t2,
{
    let (i1, j1) = choose|i: int, j: int| trim_bounds(s, i, j) && t1 == s.subrange(i, j);
    let (i2, j2) = choose|i: int, j: int| trim_bounds(s, i, j) && t2 == s.subrange(i, j);
    lemma_trim_bounds_unique(s, i1, j1, i2, j2);
}

/// Trimming twice is trimming once.
pub proof fn law_trim_is_idempotent(s: Seq<char>, t: Seq<char>)
    requires
        is_trim_of(s, t),
    ensures
        is_trim_of(t, t),
{
    let (i, j) = choose|i: int, j: int| trim_bounds(s, i, j) && t == s.subrange(i, j);
    assert(trim_bounds(t, 0, t.len() as int));
    assert(t == t.subrange(0, t.len() as int));
}

} // verus!
