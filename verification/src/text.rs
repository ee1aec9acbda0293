//! Text building blocks: numerals, joined lists, fixed-size name fields and
//! the last component of a path.
use vstd::prelude::*;
use vstd::string::*;
use vstd::utf8::*;

verus! {

/// The lower-case digit that stands for `d` in bases up to sixteen.
pub open spec fn digit_char(d: nat) -> char {
    if d < 10 {
        (48 + d) as char
    } else {
        (87 + d) as char
    }
}

/// The numeral of `n` in `base`, most significant digit first and without
/// leading zeros.
pub open spec fn numeral(n: nat, base: nat) -> Seq<char>
    decreases n,
{
    if base < 2 || n < base {
        seq![digit_char(n)]
    } else {
        proof {
            vstd::arithmetic::div_mod::lemma_div_decreases(n as int, base as int);
        }
        numeral(n / base, base).push(digit_char(n % base))
    }
}

/// The decimal numeral of `n`.
pub open spec fn dec(n: nat) -> Seq<char> {
    numeral(n, 10)
}

/// The decimal numeral of `i`, with a minus sign in front of negative numbers.
pub open spec fn signed_dec(i: int) -> Seq<char> {
    if i < 0 {
        "-"@ + dec((-i) as nat)
    } else {
        dec(i as nat)
    }
}

/// The hexadecimal numeral of `n` without a prefix.
pub open spec fn hex(n: nat) -> Seq<char> {
    numeral(n, 16)
}

/// The hexadecimal numeral of `n` with the `0x` prefix.
pub open spec fn prefixed_hex(n: nat) -> Seq<char> {
    "0x"@ + hex(n)
}

fn digit(d: u64) -> (r: &'static str)
    requires
        d < 16,
    ensures
        r@ == seq![digit_char(d as nat)],
{
    proof {
        reveal_strlit("0");
        reveal_strlit("1");
        reveal_strlit("2");
        reveal_strlit("3");
        reveal_strlit("4");
        reveal_strlit("5");
        reveal_strlit("6");
        reveal_strlit("7");
        reveal_strlit("8");
        reveal_strlit("9");
        reveal_strlit("a");
        reveal_strlit("b");
        reveal_strlit("c");
        reveal_strlit("d");
        reveal_strlit("e");
        reveal_strlit("f");
    }
    match d {
        0 => "0",
        1 => "1",
        2 => "2",
        3 => "3",
        4 => "4",
        5 => "5",
        6 => "6",
        7 => "7",
        8 => "8",
        9 => "9",
        10 => "a",
        11 => "b",
        12 => "c",
        13 => "d",
        14 => "e",
        _ => "f",
    }
}

/// Appends the numeral of `n` in `base` to `out`.
pub fn push_numeral(out: &mut String, n: u64, base: u64)
    requires
        2 <= base <= 16,
    ensures
        final(out)@ == old(out)@ + numeral(n as nat, base as nat),
    decreases n,
{
    if n >= base {
        proof {
            vstd::arithmetic::div_mod::lemma_div_decreases(n as int, base as int);
        }
        push_numeral(out, n / base, base);
    }
    out.append(digit(n % base));
    proof {
        if n < base {
            vstd::arithmetic::div_mod::lemma_small_mod(n as nat, base as nat);
        }
        assert(out@ =~= old(out)@ + numeral(n as nat, base as nat));
    }
}

/// Appends the decimal numeral of `n` to `out`.
pub fn push_dec(out: &mut String, n: u64)
    ensures
        final(out)@ == old(out)@ + dec(n as nat),
{
    push_numeral(out, n, 10);
}

/// Appends the signed decimal numeral of `i` to `out`.
pub fn push_signed(out: &mut String, i: i64)
    ensures
        final(out)@ == old(out)@ + signed_dec(i as int),
{
    if i < 0 {
        let magnitude: u64 = (-(i + 1)) as u64 + 1;
        out.append("-");
        push_dec(out, magnitude);
        assert(out@ =~= old(out)@ + signed_dec(i as int));
    } else {
        push_dec(out, i as u64);
    }
}

/// Appends the hexadecimal numeral of `n`, with its `0x` prefix, to `out`.
pub fn push_hex(out: &mut String, n: u64)
    ensures
        final(out)@ == old(out)@ + prefixed_hex(n as nat),
{
    out.append("0x");
    push_numeral(out, n, 16);
    assert(out@ =~= old(out)@ + prefixed_hex(n as nat));
}

/// The parts of `parts`, in order, with `sep` between neighbours.
pub open spec fn joined(parts: Seq<Seq<char>>, sep: Seq<char>) -> Seq<char>
    decreases parts.len(),
{
    if parts.len() == 0 {
        Seq::empty()
    } else if parts.len() == 1 {
        parts[0]
    } else {
        joined(parts.drop_last(), sep) + sep + parts.last()
    }
}

/// What each string of `words` holds.
pub open spec fn texts(words: Seq<&'static str>) -> Seq<Seq<char>> {
    words.map_values(|w: &'static str| w@)
}

/// Joins `words` with `sep` between neighbours.
pub fn join(words: &Vec<&'static str>, sep: &str) -> (r: String)
    ensures
        r@ == joined(texts(words@), sep@),
{
    let mut out = String::new();
    let ghost parts: Seq<Seq<char>> = texts(words@);
    let mut i: usize = 0;
    while i < words.len()
        invariant
            i <= words.len(),
            parts == texts(words@),
            out@ == joined(parts.take(i as int), sep@),
        decreases words.len() - i,
    {
        if i > 0 {
            out.append(sep);
        }
        out.append(words[i]);
        proof {
            assert(parts.take(i + 1).drop_last() =~= parts.take(i as int));
            assert(parts.take(i + 1).last() == words[i as int]@);
            assert(out@ =~= joined(parts.take(i + 1), sep@));
        }
        i += 1;
    }
    proof {
        assert(parts.take(i as int) =~= parts);
    }
    out
}

/// The position of the first zero byte of `s` from position `i` on, or the
/// length of `s` when there is none.
pub open spec fn nul_from(s: Seq<u8>, i: int) -> int
    decreases s.len() - i,
{
    if i >= s.len() || s[i] == 0 {
        i
    } else {
        nul_from(s, i + 1)
    }
}

/// The bytes of `field` in front of its first zero byte, all of them when it
/// has none.
pub open spec fn until_nul(field: Seq<u8>) -> Seq<u8> {
    field.take(nul_from(field, 0))
}

proof fn lemma_nul_from(s: Seq<u8>, i: int)
    requires
        0 <= i <= s.len(),
    ensures
        i <= nul_from(s, i) <= s.len(),
        forall|k: int| i <= k < nul_from(s, i) ==> s[k] != 0,
        nul_from(s, i) < s.len() ==> s[nul_from(s, i)] == 0,
    decreases s.len() - i,
{
    if i < s.len() && s[i] != 0 {
        lemma_nul_from(s, i + 1);
    }
}

/// What a name field says is a start of the field without a zero byte, and it
/// ends where the field ends or a zero byte stands.
pub proof fn law_until_nul(field: Seq<u8>)
    ensures
        until_nul(field).len() <= field.len(),
        until_nul(field) == field.take(until_nul(field).len() as int),
        forall|i: int| 0 <= i < until_nul(field).len() ==> #[trigger] until_nul(field)[i] != 0,
        until_nul(field).len() < field.len() ==> field[until_nul(field).len() as int] == 0,
{
    lemma_nul_from(field, 0);
}

/// What `String::from_utf8_lossy` makes of `bytes`.
pub uninterp spec fn utf8_lossy(bytes: Seq<u8>) -> Seq<char>;

/// Calls `String::from_utf8_lossy` and takes the owned string.
///
/// Trusted: the text is a function of the bytes alone, and bytes that are
/// valid UTF-8 are decoded unchanged. How a malformed sequence is replaced is
/// left to the standard library.
#[verifier::external_body]
fn lossy(bytes: &[u8]) -> (r: String)
    ensures
        r@ == utf8_lossy(bytes@),
        valid_utf8(bytes@) ==> r@ == decode_utf8(bytes@),
{
    String::from_utf8_lossy(bytes).into_owned()
}

/// Every byte of `bytes` is an ASCII code.
pub open spec fn ascii_bytes(bytes: Seq<u8>) -> bool {
    forall|i: int| 0 <= i < bytes.len() ==> #[trigger] bytes[i] < 128
}

/// The characters that ASCII codes stand for.
pub open spec fn ascii_chars(bytes: Seq<u8>) -> Seq<char> {
    bytes.map_values(|b: u8| b as char)
}

proof fn lemma_ascii_is_utf8(bytes: Seq<u8>)
    requires
        ascii_bytes(bytes),
    ensures
        valid_utf8(bytes),
        decode_utf8(bytes) == ascii_chars(bytes),
{
    let chars = ascii_chars(bytes);
    assert(is_ascii_chars(chars));
    is_ascii_chars_encode_utf8(chars);
    assert(encode_utf8(chars) =~= bytes);
    encode_utf8_valid_utf8(chars);
    encode_utf8_decode_utf8(chars);
}

/// `text` is what the fixed-size name field `field` says: the bytes in front
/// of its first zero byte, read as UTF-8, with whatever is malformed in them
/// replaced.
pub open spec fn reads_as(text: Seq<char>, field: Seq<u8>) -> bool {
    &&& text == utf8_lossy(until_nul(field))
    &&& valid_utf8(until_nul(field)) ==> text == decode_utf8(until_nul(field))
    &&& ascii_bytes(until_nul(field)) ==> text == ascii_chars(until_nul(field))
}

/// Reads a fixed-size, zero-terminated name field.
pub fn field_text(field: &[u8]) -> (r: String)
    ensures
        reads_as(r@, field@),
{
    let mut len: usize = 0;
    while len < field.len() && field[len] != 0
        invariant
            len <= field.len(),
            nul_from(field@, 0) == nul_from(field@, len as int),
        decreases field.len() - len,
    {
        len += 1;
    }
    let name = vstd::slice::slice_subrange(field, 0, len);
    proof {
        assert(name@ =~= until_nul(field@));
        if ascii_bytes(name@) {
            lemma_ascii_is_utf8(name@);
        }
    }
    lossy(name)
}

/// The first position of the last `/`-free stretch of `p`.
pub open spec fn last_segment_start(p: Seq<char>) -> int
    decreases p.len(),
{
    if p.len() == 0 || p.last() == '/' {
        p.len() as int
    } else {
        last_segment_start(p.drop_last())
    }
}

/// The last component of the path `p`. Trailing slashes and trailing `.`
/// components do not count. A path that ends in `..`, or that has no component
/// at all, has no last component: it is the empty text.
pub open spec fn path_file_name(p: Seq<char>) -> Seq<char>
    decreases p.len(),
{
    proof {
        lemma_last_segment_start(p);
    }
    let start = last_segment_start(p);
    let segment = p.skip(start);
    if p.len() == 0 {
        Seq::empty()
    } else if p.last() == '/' {
        path_file_name(p.drop_last())
    } else if segment == seq!['.'] {
        path_file_name(p.take(start))
    } else if segment == seq!['.', '.'] {
        Seq::empty()
    } else {
        segment
    }
}

/// The last `/`-free stretch of `p` holds no slash, and a slash stands in
/// front of it unless it starts `p`.
pub proof fn lemma_last_segment_start(p: Seq<char>)
    ensures
        0 <= last_segment_start(p) <= p.len(),
        p.len() > 0 && p.last() != '/' ==> last_segment_start(p) < p.len(),
        forall|k: int| last_segment_start(p) <= k < p.len() ==> p[k] != '/',
        last_segment_start(p) > 0 ==> p[last_segment_start(p) - 1] == '/',
    decreases p.len(),
{
    if p.len() > 0 && p.last() != '/' {
        lemma_last_segment_start(p.drop_last());
        assert forall|k: int| last_segment_start(p) <= k < p.len() implies p[k] != '/' by {
            if k < p.len() - 1 {
                assert(p.drop_last()[k] == p[k]);
            }
        }
    }
}

/// The last component of `path`, the empty text where there is none.
pub fn file_name(path: &str) -> (r: &str)
    ensures
        r@ == path_file_name(path@),
{
    let mut end: usize = path.unicode_len();
    proof {
        assert(path@.take(end as int) =~= path@);
        reveal_strlit("");
    }
    while end > 0
        invariant
            end <= path@.len(),
            path_file_name(path@) == path_file_name(path@.take(end as int)),
            ""@ == Seq::<char>::empty(),
        decreases end,
    {
        let ghost prefix: Seq<char> = path@.take(end as int);
        if path.get_char(end - 1) == '/' {
            proof {
                assert(prefix.drop_last() =~= path@.take(end - 1));
            }
            end = end - 1;
        } else {
            let mut start: usize = end;
            proof {
                assert(prefix.take(start as int) =~= prefix);
            }
            while start > 0 && path.get_char(start - 1) != '/'
                invariant
                    start <= end <= path@.len(),
                    prefix == path@.take(end as int),
                    last_segment_start(prefix) == last_segment_start(prefix.take(start as int)),
                decreases start,
            {
                proof {
                    assert(prefix.take(start as int).drop_last() =~= prefix.take(start - 1));
                }
                start = start - 1;
            }
            let ghost segment: Seq<char> = prefix.skip(start as int);
            proof {
                lemma_last_segment_start(prefix);
                assert(last_segment_start(prefix) == start);
                assert(segment =~= path@.subrange(start as int, end as int));
                assert(prefix.take(start as int) =~= path@.take(start as int));
            }
            let len: usize = end - start;
            if len == 1 && path.get_char(start) == '.' {
                proof {
                    assert(segment =~= seq!['.']);
                }
                end = start;
            } else if len == 2 && path.get_char(start) == '.' && path.get_char(start + 1) == '.' {
                proof {
                    assert(segment =~= seq!['.', '.']);
                    assert(segment.len() == 2 && seq!['.'].len() == 1);
                }
                return "";
            } else {
                proof {
                    if segment == seq!['.'] {
                        assert(segment[0] == '.');
                    }
                    if segment == seq!['.', '.'] {
                        assert(segment[0] == '.' && segment[1] == '.');
                    }
                }
                return path.substring_char(start, end);
            }
        }
    }
    proof {
        assert(path@.take(0) =~= Seq::<char>::empty());
    }
    ""
}

} // verus!
