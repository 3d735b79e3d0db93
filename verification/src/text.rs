//! Building text: numbers in a radix, padding to a width, and the two std
//! conversions into `String` that the library relies on.
use vstd::prelude::*;
use vstd::utf8::{
    decode_utf8, decode_utf8_encode_utf8, encode_utf8, encode_utf8_decode_utf8, encode_utf8_valid_utf8,
    is_ascii_chars, is_ascii_chars_encode_utf8, valid_utf8,
};

verus! {

/// The text that `String::from_utf8_lossy` makes of `bytes`: the decoded
/// characters, with U+FFFD in place of each ill-formed sequence.
pub uninterp spec fn lossy_utf8(bytes: Seq<u8>) -> Seq<char>;

/// Calls `String::from_utf8_lossy` and takes ownership of the result.
/// Trusted: the result is `lossy_utf8` of the bytes; as std documents,
/// well-formed UTF-8 comes back as exactly the characters it encodes; and
/// U+0000 comes only from a zero byte (its only well-formed encoding; every
/// ill-formed sequence becomes U+FFFD).
#[verifier::external_body]
pub(crate) fn utf8_lossy(bytes: &[u8]) -> (s: String)
    ensures
        s@ == lossy_utf8(bytes@),
        valid_utf8(bytes@) ==> s@ == decode_utf8(bytes@),
        !bytes@.contains(0u8) ==> !s@.contains('\0'),
{
    String::from_utf8_lossy(bytes).into_owned()
}

/// Whether every byte is ASCII.
pub open spec fn is_ascii_bytes(b: Seq<u8>) -> bool {
    forall|i: int| 0 <= i < b.len() ==> b[i] < 0x80
}

/// ASCII bytes read as the characters with the same codes.
pub open spec fn ascii_text(b: Seq<u8>) -> Seq<char> {
    b.map_values(|x: u8| x as char)
}

/// ASCII bytes are well-formed UTF-8 and decode to the characters with the
/// same codes.
pub proof fn ascii_bytes_decode(b: Seq<u8>)
    requires
        is_ascii_bytes(b),
    ensures
        valid_utf8(b),
        decode_utf8(b) == ascii_text(b),
{
    let chars = ascii_text(b);
    assert(is_ascii_chars(chars));
    is_ascii_chars_encode_utf8(chars);
    assert(encode_utf8(chars) =~= b);
    encode_utf8_valid_utf8(chars);
    encode_utf8_decode_utf8(chars);
}

/// Collects characters into a `String` (std's `FromIterator<&char>` for
/// `String`). Trusted: the string holds exactly those characters, in order.
#[verifier::external_body]
pub(crate) fn string_from_chars(chars: &[char]) -> (s: String)
    ensures
        s@ == chars@,
{
    String::from_iter(chars.iter())
}

/// The lowercase digit for a value below 16.
pub open spec fn digit_char(d: nat) -> char {
    if d < 10 {
        (48 + d) as char
    } else {
        (87 + d) as char
    }
}

/// The digits of `n` in `radix` (2 to 16), most significant first, without
/// leading zeros; zero is the single digit `0`.
pub open spec fn digits(n: nat, radix: nat) -> Seq<char>
    decreases n,
{
    if radix < 2 || n < radix {
        seq![digit_char(n)]
    } else {
        proof {
            vstd::arithmetic::div_mod::lemma_div_decreases(n as int, radix as int);
        }
        digits(n / radix, radix).push(digit_char(n % radix))
    }
}

/// `s` with `fill` put in front until it is `width` characters long.
pub open spec fn pad_left(s: Seq<char>, width: nat, fill: char) -> Seq<char> {
    if s.len() >= width {
        s
    } else {
        Seq::new((width - s.len()) as nat, |i: int| fill) + s
    }
}

/// `s` with spaces after it until it is `width` characters long.
pub open spec fn pad_right(s: Seq<char>, width: nat) -> Seq<char> {
    if s.len() >= width {
        s
    } else {
        s + Seq::new((width - s.len()) as nat, |i: int| ' ')
    }
}

/// Text decoded from bytes as UTF-8: well-formed UTF-8 gives the characters
/// it encodes; otherwise each ill-formed sequence becomes U+FFFD.
pub open spec fn decoded_text(b: Seq<u8>) -> Seq<char> {
    if valid_utf8(b) {
        decode_utf8(b)
    } else {
        lossy_utf8(b)
    }
}

/// ASCII bytes decode to the characters with their codes.
pub proof fn ascii_text_is_decoded(b: Seq<u8>)
    requires
        is_ascii_bytes(b),
    ensures
        decoded_text(b) == ascii_text(b),
{
    ascii_bytes_decode(b);
}

/// Well-formed UTF-8 decodes to text that encodes back to the same bytes.
pub proof fn decoded_text_encodes_back(b: Seq<u8>)
    requires
        valid_utf8(b),
    ensures
        encode_utf8(decoded_text(b)) == b,
{
    decode_utf8_encode_utf8(b);
}

/// Decodes bytes as UTF-8, replacing ill-formed sequences.
pub fn decode_text(bytes: &[u8]) -> (r: String)
    ensures
        r@ == decoded_text(bytes@),
        r@ == lossy_utf8(bytes@),
        !bytes@.contains(0u8) ==> !r@.contains('\0'),
{
    utf8_lossy(bytes)
}

/// `true` or `false`, as Rust prints a `bool`.
pub open spec fn bool_text(b: bool) -> Seq<char> {
    if b {
        "true"@
    } else {
        "false"@
    }
}

pub fn digit(d: u64) -> (c: char)
    requires
        d < 16,
    ensures
        c == digit_char(d as nat),
{
    if d < 10 {
        ((d as u8) + 48u8) as char
    } else {
        ((d as u8) + 87u8) as char
    }
}

/// The digits of `n` in `radix`, as `digits` gives them.
pub fn digits_of(n: u64, radix: u64) -> (r: Vec<char>)
    requires
        2 <= radix <= 16,
    ensures
        r@ == digits(n as nat, radix as nat),
    decreases n,
{
    if n < radix {
        let mut r: Vec<char> = Vec::new();
        r.push(digit(n));
        r
    } else {
        proof {
            vstd::arithmetic::div_mod::lemma_div_decreases(n as int, radix as int);
        }
        let mut r = digits_of(n / radix, radix);
        r.push(digit(n % radix));
        r
    }
}

/// `s` padded on the left with `fill` to `width` characters.
pub fn pad_left_chars(s: Vec<char>, width: usize, fill: char) -> (r: Vec<char>)
    ensures
        r@ == pad_left(s@, width as nat, fill),
{
    if s.len() >= width {
        return s;
    }
    let mut r: Vec<char> = Vec::new();
    let n = width - s.len();
    let mut i: usize = 0;
    while i < n
        invariant
            i <= n,
            r@ == Seq::new(i as nat, |k: int| fill),
        decreases n - i,
    {
        r.push(fill);
        i = i + 1;
        assert(r@ =~= Seq::new(i as nat, |k: int| fill));
    }
    let mut j: usize = 0;
    while j < s.len()
        invariant
            j <= s@.len(),
            r@ == Seq::new(n as nat, |k: int| fill) + s@.take(j as int),
        decreases s@.len() - j,
    {
        r.push(s[j]);
        j = j + 1;
        assert(r@ =~= Seq::new(n as nat, |k: int| fill) + s@.take(j as int));
    }
    assert(s@.take(s@.len() as int) =~= s@);
    r
}

/// `s` padded on the right with spaces to `width` characters.
pub fn pad_right_chars(s: Vec<char>, width: usize) -> (r: Vec<char>)
    ensures
        r@ == pad_right(s@, width as nat),
{
    let mut r = s;
    if r.len() >= width {
        return r;
    }
    let ghost orig = r@;
    let n = width - r.len();
    let mut i: usize = 0;
    while i < n
        invariant
            i <= n,
            n == width - orig.len(),
            r@ == orig + Seq::new(i as nat, |k: int| ' '),
        decreases n - i,
    {
        r.push(' ');
        i = i + 1;
        assert(r@ =~= orig + Seq::new(i as nat, |k: int| ' '));
    }
    r
}

/// Appends the characters of `chars` to `s`.
pub fn push_chars(s: &mut String, chars: &Vec<char>)
    ensures
        final(s)@ == old(s)@ + chars@,
{
    let t = string_from_chars(chars.as_slice());
    s.append(t.as_str());
}

/// Appends `n` in decimal to `s`.
pub fn push_decimal(s: &mut String, n: u64)
    ensures
        final(s)@ == old(s)@ + digits(n as nat, 10),
{
    let d = digits_of(n, 10);
    push_chars(s, &d);
}

/// Appends `n` in decimal, right-aligned in `width` characters.
pub fn push_decimal_right(s: &mut String, n: u64, width: usize)
    ensures
        final(s)@ == old(s)@ + pad_left(digits(n as nat, 10), width as nat, ' '),
{
    let d = pad_left_chars(digits_of(n, 10), width, ' ');
    push_chars(s, &d);
}

/// Appends `n` in decimal, left-aligned in `width` characters.
pub fn push_decimal_left(s: &mut String, n: u64, width: usize)
    ensures
        final(s)@ == old(s)@ + pad_right(digits(n as nat, 10), width as nat),
{
    let d = pad_right_chars(digits_of(n, 10), width);
    push_chars(s, &d);
}

/// Appends `true` or `false`.
pub fn push_bool(s: &mut String, b: bool)
    ensures
        final(s)@ == old(s)@ + bool_text(b),
{
    if b {
        s.append("true");
    } else {
        s.append("false");
    }
}

/// Appends `n` in `radix`, padded on the left with `fill` to `width`.
pub fn push_radix_padded(s: &mut String, n: u64, radix: u64, width: usize, fill: char)
    requires
        2 <= radix <= 16,
    ensures
        final(s)@ == old(s)@ + pad_left(digits(n as nat, radix as nat), width as nat, fill),
{
    let d = pad_left_chars(digits_of(n, radix), width, fill);
    push_chars(s, &d);
}

/// Appends `t`, left-aligned in `width` characters.
pub fn push_str_left(s: &mut String, t: &str, width: usize)
    ensures
        final(s)@ == old(s)@ + pad_right(t@, width as nat),
{
    let ghost start = s@;
    s.append(t);
    let n = t.unicode_len();
    if n < width {
        let mut i: usize = n;
        while i < width
            invariant
                n <= i <= width,
                n == t@.len(),
                s@ == start + t@ + Seq::new((i - n) as nat, |k: int| ' '),
            decreases width - i,
        {
            s.append(" ");
            i = i + 1;
            proof {
                reveal_strlit(" ");
            }
            assert(s@ =~= start + t@ + Seq::new((i - n) as nat, |k: int| ' '));
        }
    } else {
        assert(s@ =~= start + pad_right(t@, width as nat));
    }
}

} // verus!
