//! Rendering of numbers and identifiers as text.

use vstd::prelude::*;

verus! {

/// The decimal digit character for `d`.
pub open spec fn digit_char(d: nat) -> char {
    if d == 0 { '0' }
    else if d == 1 { '1' }
    else if d == 2 { '2' }
    else if d == 3 { '3' }
    else if d == 4 { '4' }
    else if d == 5 { '5' }
    else if d == 6 { '6' }
    else if d == 7 { '7' }
    else if d == 8 { '8' }
    else { '9' }
}

/// The decimal representation of `n`, most significant digit first, without
/// leading zeros (`0` is written as a single digit).
pub open spec fn decimal(n: nat) -> Seq<char>
    decreases n,
{
    if n < 10 {
        seq![digit_char(n)]
    } else {
        decimal(n / 10).push(digit_char(n % 10))
    }
}

/// Appends `c` to `s`.
#[verifier::external_body]
pub(crate) fn push_char(s: &mut String, c: char)
    ensures
        final(s)@ == old(s)@.push(c),
{
    s.push(c);
}

fn digit(d: u64) -> (c: char)
    requires
        d < 10,
    ensures
        c == digit_char(d as nat),
{
    match d {
        0 => '0',
        1 => '1',
        2 => '2',
        3 => '3',
        4 => '4',
        5 => '5',
        6 => '6',
        7 => '7',
        8 => '8',
        _ => '9',
    }
}

/// Appends the decimal representation of `n` to `s`.
pub fn append_decimal(s: &mut String, n: u64)
    ensures
        final(s)@ == old(s)@ + decimal(n as nat),
    decreases n,
{
    if n >= 10 {
        append_decimal(s, n / 10);
    }
    push_char(s, digit(n % 10));
    assert(decimal(n as nat) == if n < 10 { seq![digit_char(n as nat)] } else {
        decimal((n / 10) as nat).push(digit_char((n % 10) as nat))
    });
}

/// The decimal representation of `n`, as `n.to_string()` writes it.
pub fn decimal_text(n: u64) -> (s: String)
    ensures
        s@ == decimal(n as nat),
{
    let mut s = String::new();
    append_decimal(&mut s, n);
    s
}


/// The lowercase hexadecimal digit character for `d`.
pub open spec fn hex_digit(d: nat) -> char {
    if d < 10 {
        digit_char(d)
    } else if d == 10 { 'a' }
    else if d == 11 { 'b' }
    else if d == 12 { 'c' }
    else if d == 13 { 'd' }
    else if d == 14 { 'e' }
    else { 'f' }
}

/// The two lowercase hexadecimal digits of a byte, high nibble first.
pub open spec fn byte_hex(b: u8) -> Seq<char> {
    seq![hex_digit(b as nat / 16), hex_digit(b as nat % 16)]
}

/// The lowercase hexadecimal digits of a sequence of bytes, in order.
pub open spec fn hex(bytes: Seq<u8>) -> Seq<char>
    decreases bytes.len(),
{
    if bytes.len() == 0 {
        Seq::empty()
    } else {
        hex(bytes.drop_last()) + byte_hex(bytes.last())
    }
}

/// The hyphenated form of a 16-byte UUID, as its `Display` writes it:
/// groups of 4, 2, 2, 2 and 6 bytes in lowercase hexadecimal, separated by `-`.
pub open spec fn uuid_text(bytes: Seq<u8>) -> Seq<char> {
    hex(bytes.subrange(0, 4)) + seq!['-'] + hex(bytes.subrange(4, 6)) + seq!['-'] + hex(
        bytes.subrange(6, 8),
    ) + seq!['-'] + hex(bytes.subrange(8, 10)) + seq!['-'] + hex(bytes.subrange(10, 16))
}

/// A user mention as Discord writes it: `<@` and the id in decimal, then `>`.
pub open spec fn mention(id: nat) -> Seq<char> {
    "<@"@ + decimal(id) + ">"@
}

fn hex_char(d: u8) -> (c: char)
    requires
        d < 16,
    ensures
        c == hex_digit(d as nat),
{
    if d < 10 {
        digit(d as u64)
    } else {
        match d {
            10 => 'a',
            11 => 'b',
            12 => 'c',
            13 => 'd',
            14 => 'e',
            _ => 'f',
        }
    }
}

/// Appends the hexadecimal digits of `bytes[lo..hi]` to `s`.
fn append_hex(s: &mut String, bytes: &[u8; 16], lo: usize, hi: usize)
    requires
        lo <= hi <= 16,
    ensures
        final(s)@ == old(s)@ + hex(bytes@.subrange(lo as int, hi as int)),
{
    let ghost start = s@;
    let mut i = lo;
    assert(bytes@.subrange(lo as int, lo as int) =~= Seq::<u8>::empty());
    while i < hi
        invariant
            lo <= i <= hi <= 16,
            s@ == start + hex(bytes@.subrange(lo as int, i as int)),
        decreases hi - i,
    {
        let b = bytes[i];
        push_char(s, hex_char(b / 16));
        push_char(s, hex_char(b % 16));
        proof {
            let next = bytes@.subrange(lo as int, i + 1);
            assert(next.drop_last() =~= bytes@.subrange(lo as int, i as int));
            assert(next.last() == b);
            assert(s@ =~= start + hex(next));
        }
        i = i + 1;
    }
}

/// The hyphenated lowercase text of a UUID given by its 16 bytes.
pub fn uuid_string(bytes: &[u8; 16]) -> (s: String)
    ensures
        s@ == uuid_text(bytes@),
{
    let mut s = String::new();
    append_hex(&mut s, bytes, 0, 4);
    push_char(&mut s, '-');
    append_hex(&mut s, bytes, 4, 6);
    push_char(&mut s, '-');
    append_hex(&mut s, bytes, 6, 8);
    push_char(&mut s, '-');
    append_hex(&mut s, bytes, 8, 10);
    push_char(&mut s, '-');
    append_hex(&mut s, bytes, 10, 16);
    assert(s@ =~= uuid_text(bytes@));
    s
}

/// Appends a mention of the user `id` to `s`.
pub fn append_mention(s: &mut String, id: u64)
    ensures
        final(s)@ == old(s)@ + mention(id as nat),
{
    let ghost start = s@;
    s.append("<@");
    append_decimal(s, id);
    s.append(">");
    assert(s@ =~= start + mention(id as nat));
}


proof fn lemma_digit_char_injective(a: nat, b: nat)
    requires
        a < 10,
        b < 10,
        digit_char(a) == digit_char(b),
    ensures
        a == b,
{
}

proof fn lemma_hex_digit_injective(a: nat, b: nat)
    requires
        a < 16,
        b < 16,
        hex_digit(a) == hex_digit(b),
    ensures
        a == b,
{
}

/// The decimal text of a number is never empty.
pub proof fn lemma_decimal_len(n: nat)
    ensures
        decimal(n).len() >= 1,
        n >= 10 ==> decimal(n).len() >= 2,
    decreases n,
{
    if n >= 10 {
        lemma_decimal_len(n / 10);
    }
}

/// Distinct numbers have distinct decimal texts.
pub proof fn lemma_decimal_injective(a: nat, b: nat)
    requires
        decimal(a) == decimal(b),
    ensures
        a == b,
    decreases a,
{
    lemma_decimal_len(a);
    lemma_decimal_len(b);
    let da = decimal(a);
    let db = decimal(b);
    if a < 10 && b < 10 {
        assert(da[0] == db[0]);
        lemma_digit_char_injective(a, b);
    } else if a >= 10 && b >= 10 {
        assert(da.last() == db.last());
        lemma_digit_char_injective(a % 10, b % 10);
        assert(da.drop_last() =~= decimal(a / 10));
        assert(db.drop_last() =~= decimal(b / 10));
        lemma_decimal_injective(a / 10, b / 10);
    } else {
        assert(da.len() != db.len());
    }
}

/// The hexadecimal text of a byte sequence has two characters per byte.
pub proof fn lemma_hex_len(bytes: Seq<u8>)
    ensures
        hex(bytes).len() == 2 * bytes.len(),
    decreases bytes.len(),
{
    if bytes.len() > 0 {
        lemma_hex_len(bytes.drop_last());
    }
}

/// The text of a 16-byte UUID has 36 characters.
pub proof fn lemma_uuid_text_len(bytes: Seq<u8>)
    requires
        bytes.len() == 16,
    ensures
        uuid_text(bytes).len() == 36,
{
    lemma_hex_len(bytes.subrange(0, 4));
    lemma_hex_len(bytes.subrange(4, 6));
    lemma_hex_len(bytes.subrange(6, 8));
    lemma_hex_len(bytes.subrange(8, 10));
    lemma_hex_len(bytes.subrange(10, 16));
}

/// Byte sequences of equal length with equal hexadecimal texts are equal.
pub proof fn lemma_hex_injective(a: Seq<u8>, b: Seq<u8>)
    requires
        a.len() == b.len(),
        hex(a) == hex(b),
    ensures
        a == b,
    decreases a.len(),
{
    if a.len() > 0 {
        lemma_hex_len(a.drop_last());
        lemma_hex_len(b.drop_last());
        let ha = hex(a);
        let n = ha.len() as int;
        assert(ha[n - 2] == hex_digit(a.last() as nat / 16));
        assert(ha[n - 1] == hex_digit(a.last() as nat % 16));
        assert(hex(b)[n - 2] == hex_digit(b.last() as nat / 16));
        assert(hex(b)[n - 1] == hex_digit(b.last() as nat % 16));
        lemma_hex_digit_injective(a.last() as nat / 16, b.last() as nat / 16);
        lemma_hex_digit_injective(a.last() as nat % 16, b.last() as nat % 16);
        assert(hex(a.drop_last()) =~= ha.subrange(0, n - 2));
        assert(hex(b.drop_last()) =~= hex(b).subrange(0, n - 2));
        lemma_hex_injective(a.drop_last(), b.drop_last());
        assert(a =~= a.drop_last().push(a.last()));
        assert(b =~= b.drop_last().push(b.last()));
    } else {
        assert(a =~= b);
    }
}

proof fn lemma_split_concat(x1: Seq<char>, y1: Seq<char>, x2: Seq<char>, y2: Seq<char>)
    requires
        x1 + y1 == x2 + y2,
        x1.len() == x2.len(),
    ensures
        x1 == x2,
        y1 == y2,
{
    assert(x1 =~= (x1 + y1).subrange(0, x1.len() as int));
    assert(x2 =~= (x2 + y2).subrange(0, x2.len() as int));
    assert(y1 =~= (x1 + y1).subrange(x1.len() as int, (x1 + y1).len() as int));
    assert(y2 =~= (x2 + y2).subrange(x2.len() as int, (x2 + y2).len() as int));
}

/// Distinct UUIDs have distinct texts: the text of a case id names one case.
pub proof fn lemma_uuid_text_injective(a: Seq<u8>, b: Seq<u8>)
    requires
        a.len() == 16,
        b.len() == 16,
        uuid_text(a) == uuid_text(b),
    ensures
        a == b,
{
    let dash = seq!['-'];
    let (a1, a2, a3, a4, a5) = (
        a.subrange(0, 4),
        a.subrange(4, 6),
        a.subrange(6, 8),
        a.subrange(8, 10),
        a.subrange(10, 16),
    );
    let (b1, b2, b3, b4, b5) = (
        b.subrange(0, 4),
        b.subrange(4, 6),
        b.subrange(6, 8),
        b.subrange(8, 10),
        b.subrange(10, 16),
    );
    lemma_hex_len(a1);
    lemma_hex_len(a2);
    lemma_hex_len(a3);
    lemma_hex_len(a4);
    lemma_hex_len(a5);
    lemma_hex_len(b1);
    lemma_hex_len(b2);
    lemma_hex_len(b3);
    lemma_hex_len(b4);
    lemma_hex_len(b5);
    let pa4 = hex(a1) + dash + hex(a2) + dash + hex(a3) + dash + hex(a4) + dash;
    let pb4 = hex(b1) + dash + hex(b2) + dash + hex(b3) + dash + hex(b4) + dash;
    lemma_split_concat(pa4, hex(a5), pb4, hex(b5));
    let pa3 = hex(a1) + dash + hex(a2) + dash + hex(a3) + dash;
    let pb3 = hex(b1) + dash + hex(b2) + dash + hex(b3) + dash;
    assert(pa4 =~= pa3 + (hex(a4) + dash));
    assert(pb4 =~= pb3 + (hex(b4) + dash));
    lemma_split_concat(pa3, hex(a4) + dash, pb3, hex(b4) + dash);
    lemma_split_concat(hex(a4), dash, hex(b4), dash);
    let pa2 = hex(a1) + dash + hex(a2) + dash;
    let pb2 = hex(b1) + dash + hex(b2) + dash;
    assert(pa3 =~= pa2 + (hex(a3) + dash));
    assert(pb3 =~= pb2 + (hex(b3) + dash));
    lemma_split_concat(pa2, hex(a3) + dash, pb2, hex(b3) + dash);
    lemma_split_concat(hex(a3), dash, hex(b3), dash);
    let pa1 = hex(a1) + dash;
    let pb1 = hex(b1) + dash;
    assert(pa2 =~= pa1 + (hex(a2) + dash));
    assert(pb2 =~= pb1 + (hex(b2) + dash));
    lemma_split_concat(pa1, hex(a2) + dash, pb1, hex(b2) + dash);
    lemma_split_concat(hex(a2), dash, hex(b2), dash);
    lemma_split_concat(hex(a1), dash, hex(b1), dash);
    lemma_hex_injective(a1, b1);
    lemma_hex_injective(a2, b2);
    lemma_hex_injective(a3, b3);
    lemma_hex_injective(a4, b4);
    lemma_hex_injective(a5, b5);
    assert forall|i: int| 0 <= i < 16 implies a[i] == b[i] by {
        if i < 4 {
            assert(a1[i] == b1[i]);
        } else if i < 6 {
            assert(a2[i - 4] == b2[i - 4]);
        } else if i < 8 {
            assert(a3[i - 6] == b3[i - 6]);
        } else if i < 10 {
            assert(a4[i - 8] == b4[i - 8]);
        } else {
            assert(a5[i - 10] == b5[i - 10]);
        }
    }
    assert(a =~= b);
}

} // verus!
