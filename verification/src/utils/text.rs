use vstd::prelude::*;

verus! {

/// The hex digit of `v` (below 16), upper or lower case.
pub open spec fn spec_hex_digit(v: u8, upper: bool) -> char {
    if v < 10 {
        (v + 48) as char
    } else if upper {
        (v + 55) as char
    } else {
        (v + 87) as char
    }
}

/// Two hex digits of a byte, most significant first (`{:02X}` or `{:02x}`).
pub open spec fn spec_hex_u8(v: u8, upper: bool) -> Seq<char> {
    seq![spec_hex_digit(v / 16, upper), spec_hex_digit(v % 16, upper)]
}

/// Four hex digits of a word, most significant first (`{:04X}`).
pub open spec fn spec_hex_u16(v: u16, upper: bool) -> Seq<char> {
    spec_hex_u8((v / 256) as u8, upper) + spec_hex_u8((v % 256) as u8, upper)
}

/// `s` padded with spaces on the right to at least `width` characters (the
/// `{:width}` format of a string).
pub open spec fn spec_pad_right(s: Seq<char>, width: nat) -> Seq<char> {
    if s.len() >= width {
        s
    } else {
        s + Seq::new((width - s.len()) as nat, |i: int| ' ')
    }
}

/// Appends one character to a string: `String::push`, which per std's
/// documentation appends the character to the end of the string.
#[verifier::external_body]
pub(crate) fn push_char(s: &mut String, c: char)
    ensures
        final(s)@ == old(s)@.push(c),
{
    s.push(c);
}

/// Appends the characters of `t` to `s`.
pub fn push_str(s: &mut String, t: &str)
    ensures
        final(s)@ == old(s)@ + t@,
{
    let n = t.unicode_len();
    let mut i: usize = 0;
    while i < n
        invariant
            n == t@.len(),
            i <= n,
            s@ == old(s)@ + t@.subrange(0, i as int),
        decreases n - i,
    {
        push_char(s, t.get_char(i));
        i = i + 1;
        assert(s@ =~= old(s)@ + t@.subrange(0, i as int));
    }
    assert(t@.subrange(0, n as int) =~= t@);
}

/// The hex digit of `v` (below 16).
pub fn hex_digit(v: u8, upper: bool) -> (r: char)
    requires
        v < 16,
    ensures
        r == spec_hex_digit(v, upper),
{
    if v < 10 {
        (v + 48) as char
    } else if upper {
        (v + 55) as char
    } else {
        (v + 87) as char
    }
}

/// Appends the two hex digits of `v`.
pub fn push_hex_u8(s: &mut String, v: u8, upper: bool)
    ensures
        final(s)@ == old(s)@ + spec_hex_u8(v, upper),
{
    push_char(s, hex_digit(v / 16, upper));
    push_char(s, hex_digit(v % 16, upper));
    assert(s@ =~= old(s)@ + spec_hex_u8(v, upper));
}

/// Appends the four hex digits of `v`.
pub fn push_hex_u16(s: &mut String, v: u16, upper: bool)
    ensures
        final(s)@ == old(s)@ + spec_hex_u16(v, upper),
{
    push_hex_u8(s, (v / 256) as u8, upper);
    push_hex_u8(s, (v % 256) as u8, upper);
    assert(s@ =~= old(s)@ + spec_hex_u16(v, upper));
}

/// Appends `t` padded with spaces to at least `width` characters.
pub fn push_padded(s: &mut String, t: &String, width: usize)
    ensures
        final(s)@ == old(s)@ + spec_pad_right(t@, width as nat),
{
    push_str(s, t.as_str());
    let len = t.as_str().unicode_len();
    if len < width {
        let mut i: usize = len;
        while i < width
            invariant
                len == t@.len(),
                len <= i <= width,
                s@ == old(s)@ + t@ + Seq::new((i - len) as nat, |j: int| ' '),
            decreases width - i,
        {
            push_char(s, ' ');
            i = i + 1;
            assert(s@ =~= old(s)@ + t@ + Seq::new((i - len) as nat, |j: int| ' '));
        }
    }
    assert(s@ =~= old(s)@ + spec_pad_right(t@, width as nat));
}

/// Bit `k` of `v` as a binary digit.
pub open spec fn spec_bit_char(v: u8, k: u8) -> char {
    if (v >> k) & 1u8 == 1u8 {
        '1'
    } else {
        '0'
    }
}

/// The eight binary digits of a byte, most significant first (`{:08b}`).
pub open spec fn spec_binary_u8(v: u8) -> Seq<char> {
    Seq::new(8, |i: int| spec_bit_char(v, (7 - i) as u8))
}

/// Appends the eight binary digits of `v`.
pub fn push_binary_u8(s: &mut String, v: u8)
    ensures
        final(s)@ == old(s)@ + spec_binary_u8(v),
{
    let mut i: u8 = 0;
    while i < 8
        invariant
            i <= 8,
            s@ == old(s)@ + spec_binary_u8(v).subrange(0, i as int),
        decreases 8 - i,
    {
        let k: u8 = 7 - i;
        let c = if (v >> k) & 1u8 == 1u8 {
            '1'
        } else {
            '0'
        };
        push_char(s, c);
        assert(spec_binary_u8(v).subrange(0, i + 1) =~= spec_binary_u8(v).subrange(0, i as int).push(
            c,
        ));
        i = i + 1;
    }
    assert(spec_binary_u8(v).subrange(0, 8) =~= spec_binary_u8(v));
}

/// The decimal digit `d` (below 10).
pub open spec fn spec_decimal_digit(d: int) -> char {
    (d + 48) as char
}

/// A number below 1000 in decimal, right-aligned in three characters
/// (`{:3}`).
pub open spec fn spec_right_aligned_3(n: int) -> Seq<char> {
    seq![
        if n >= 100 {
            spec_decimal_digit(n / 100)
        } else {
            ' '
        },
        if n >= 10 {
            spec_decimal_digit(n / 10 % 10)
        } else {
            ' '
        },
        spec_decimal_digit(n % 10),
    ]
}

/// Appends `n`, below 1000, in decimal right-aligned in three characters.
pub fn push_right_aligned_3(s: &mut String, n: u16)
    requires
        n < 1000,
    ensures
        final(s)@ == old(s)@ + spec_right_aligned_3(n as int),
{
    if n >= 100 {
        push_char(s, ((n / 100) as u8 + 48) as char);
    } else {
        push_char(s, ' ');
    }
    if n >= 10 {
        push_char(s, ((n / 10 % 10) as u8 + 48) as char);
    } else {
        push_char(s, ' ');
    }
    push_char(s, ((n % 10) as u8 + 48) as char);
    assert(s@ =~= old(s)@ + spec_right_aligned_3(n as int));
}

} // verus!
