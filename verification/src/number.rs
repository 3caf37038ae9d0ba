use vstd::prelude::*;

verus! {

/// Whether `c` is an ASCII decimal digit.
pub open spec fn is_digit(c: char) -> bool {
    '0' <= c && c <= '9'
}

/// The value of an ASCII decimal digit.
pub open spec fn digit_value(c: char) -> nat {
    (c as u32 - '0' as u32) as nat
}

/// The ASCII digit for a value below ten.
pub open spec fn digit_char(d: nat) -> char {
    ((d + '0' as u32) as u32) as char
}

/// Whether every character of `d` is an ASCII digit.
pub open spec fn all_digits(d: Seq<char>) -> bool {
    forall|i: int| 0 <= i < d.len() ==> is_digit(#[trigger] d[i])
}

/// The number that a string of decimal digits denotes.
pub open spec fn digits_value(d: Seq<char>) -> nat
    decreases d.len(),
{
    if d.len() == 0 {
        0
    } else {
        digits_value(d.drop_last()) * 10 + digit_value(d.last())
    }
}

/// The decimal representation of `n`, without leading zeros.
pub open spec fn decimal(n: nat) -> Seq<char>
    decreases n,
{
    if n < 10 {
        seq![digit_char(n)]
    } else {
        decimal(n / 10).push(digit_char(n % 10))
    }
}

/// The digits of an optionally `+`-signed unsigned integer literal.
pub open spec fn unsigned_digits(s: Seq<char>) -> Seq<char> {
    if s.len() > 0 && s[0] == '+' {
        s.drop_first()
    } else {
        s
    }
}

/// What `str::parse::<u16>` gives on `s`: an optional `+`, then at least one
/// decimal digit, denoting a value that fits in 16 bits.
pub open spec fn parse_u16(s: Seq<char>) -> Option<u16> {
    let d = unsigned_digits(s);
    if d.len() > 0 && all_digits(d) && digits_value(d) <= u16::MAX {
        Some(digits_value(d) as u16)
    } else {
        None
    }
}

/// What `str::parse::<u32>` gives on `s`.
pub open spec fn parse_u32(s: Seq<char>) -> Option<u32> {
    let d = unsigned_digits(s);
    if d.len() > 0 && all_digits(d) && digits_value(d) <= u32::MAX {
        Some(digits_value(d) as u32)
    } else {
        None
    }
}

/// The value of a digit string never decreases as digits are appended.
pub proof fn lemma_digits_value_monotone(d: Seq<char>, j: int, k: int)
    requires
        0 <= j <= k <= d.len(),
    ensures
        digits_value(d.take(j)) <= digits_value(d.take(k)),
    decreases k - j,
{
    if j < k {
        lemma_digits_value_monotone(d, j, k - 1);
        assert(d.take(k).drop_last() =~= d.take(k - 1));
    }
}

/// The decimal representation of a number is a nonempty digit string that
/// denotes that number and does not start with `+`.
pub proof fn lemma_decimal(n: nat)
    ensures
        decimal(n).len() > 0,
        all_digits(decimal(n)),
        digits_value(decimal(n)) == n,
        decimal(n)[0] != '+',
    decreases n,
{
    let c = digit_char(n % 10);
    assert(digit_value(c) == n % 10 && is_digit(c)) by {
        assert((n % 10 + '0' as u32) < 128);
    }
    if n < 10 {
        assert(decimal(n) == seq![c]);
        assert(decimal(n).drop_last() =~= Seq::<char>::empty());
        assert(digits_value(Seq::<char>::empty()) == 0);
        assert(decimal(n).last() == c);
    } else {
        lemma_decimal(n / 10);
        let d = decimal(n);
        assert(d.drop_last() =~= decimal(n / 10));
        assert(d.last() == c);
        assert(n == (n / 10) * 10 + n % 10);
        assert(digits_value(d) == digits_value(decimal(n / 10)) * 10 + digit_value(c));
        assert forall|i: int| 0 <= i < d.len() implies is_digit(#[trigger] d[i]) by {
            if i < d.len() - 1 {
                assert(d[i] == decimal(n / 10)[i]);
            }
        }
    }
}

/// Parses the digits of an optionally signed unsigned literal, accepting values
/// up to `max`.
fn parse_unsigned(s: &Vec<char>, max: u64) -> (r: Option<u64>)
    requires
        max <= u32::MAX,
    ensures
        ({
            let d = unsigned_digits(s@);
            match r {
                Some(v) => d.len() > 0 && all_digits(d) && digits_value(d) <= max && v
                    == digits_value(d),
                None => !(d.len() > 0 && all_digits(d) && digits_value(d) <= max),
            }
        }),
{
    let n = s.len();
    let start: usize = if n > 0 && s[0] == '+' {
        1
    } else {
        0
    };
    let ghost d = unsigned_digits(s@);
    assert(d =~= s@.skip(start as int));
    if start == n {
        return None;
    }
    let mut value: u64 = 0;
    let mut i = start;
    assert(d.take(0) =~= Seq::<char>::empty());
    while i < n
        invariant
            start <= i <= n == s@.len(),
            d == s@.skip(start as int),
            d == unsigned_digits(s@),
            value <= max <= u32::MAX,
            value == digits_value(d.take(i - start)),
            all_digits(d.take(i - start)),
        decreases n - i,
    {
        let c = s[i];
        assert(d[i - start] == c);
        if !('0' <= c && c <= '9') {
            assert(!is_digit(d[i - start]));
            assert(!all_digits(d));
            return None;
        }
        let dv = (c as u32 - '0' as u32) as u64;
        assert(digit_value(c) == dv);
        assert(d.take(i - start + 1).drop_last() =~= d.take(i - start));
        assert(d.take(i - start + 1).last() == c);
        let next = value * 10 + dv;
        if next > max {
            proof {
                lemma_digits_value_monotone(d, i - start + 1, d.len() as int);
                assert(d.take(d.len() as int) =~= d);
                assert(digits_value(d.take(i - start + 1)) == next);
                assert(digits_value(d) > max);
            }
            return None;
        }
        value = next;
        assert forall|k: int| 0 <= k < d.take(i - start + 1).len() implies is_digit(
            #[trigger] d.take(i - start + 1)[k],
        ) by {
            if k < i - start {
                assert(d.take(i - start + 1)[k] == d.take(i - start)[k]);
            }
        }
        i = i + 1;
    }
    assert(d.take(n - start) =~= d);
    Some(value)
}

/// Parses a 16-bit unsigned integer as `str::parse::<u16>` does.
pub fn parse_u16_chars(s: &Vec<char>) -> (r: Option<u16>)
    ensures
        r == parse_u16(s@),
{
    match parse_unsigned(s, 65535) {
        Some(v) => Some(v as u16),
        None => None,
    }
}

/// Parses a 32-bit unsigned integer as `str::parse::<u32>` does.
pub fn parse_u32_chars(s: &Vec<char>) -> (r: Option<u32>)
    ensures
        r == parse_u32(s@),
{
    match parse_unsigned(s, 4294967295) {
        Some(v) => Some(v as u32),
        None => None,
    }
}

/// Appends the decimal representation of `n` to `out`.
pub fn push_decimal(out: &mut Vec<char>, n: u64)
    ensures
        final(out)@ == old(out)@ + decimal(n as nat),
{
    let mut digits: Vec<char> = Vec::new();
    let mut m = n;
    // digits holds the representation of the low-order part, last digit first
    assert(decimal(n as nat) =~= decimal(n as nat));
    loop
        invariant_except_break
            (digits@.len() == 0 && m == n) || (m > 0 && decimal(n as nat) == decimal(m as nat)
                + digits@.reverse()),
        ensures
            decimal(n as nat) == digits@.reverse(),
        decreases m,
    {
        let d = m % 10;
        let c = ((d as u32) + ('0' as u32)) as u8 as char;
        assert(c == digit_char(d as nat)) by {
            assert((d as u32 + '0' as u32) < 128);
        }
        let ghost before = digits@;
        let ghost was_empty = digits@.len() == 0;
        assert(decimal(n as nat) == decimal(m as nat) + before.reverse()) by {
            if was_empty {
                assert(before.reverse() =~= Seq::<char>::empty());
                assert(decimal(m as nat) + before.reverse() =~= decimal(m as nat));
            }
        }
        digits.push(c);
        assert(digits@.reverse() =~= seq![c] + before.reverse());
        if m < 10 {
            assert(decimal(m as nat) == seq![c]);
            break;
        }
        assert(decimal(m as nat) == decimal((m / 10) as nat).push(c));
        assert(decimal(m as nat) + before.reverse() =~= decimal((m / 10) as nat) + (seq![c]
            + before.reverse()));
        m = m / 10;
    }
    let mut k = digits.len();
    let ghost base = out@;
    while k > 0
        invariant
            k <= digits@.len(),
            decimal(n as nat) == digits@.reverse(),
            out@ == base + digits@.reverse().take(digits@.len() - k),
        decreases k,
    {
        k = k - 1;
        out.push(digits[k]);
        assert(digits@.reverse().take(digits@.len() - k) =~= digits@.reverse().take(
            digits@.len() - k - 1,
        ).push(digits@[k as int]));
    }
    assert(digits@.reverse().take(digits@.len() as int) =~= digits@.reverse());
}

} // verus!

verus! {

/// Reads a string of decimal digits (possibly empty, which reads as 0), giving
/// up when it is not all digits or its value exceeds `max`.
pub fn digits_number(s: &Vec<char>, max: u64) -> (r: Option<u64>)
    requires
        max <= u32::MAX,
    ensures
        match r {
            Some(v) => all_digits(s@) && digits_value(s@) <= max && v == digits_value(s@),
            None => !(all_digits(s@) && digits_value(s@) <= max),
        },
{
    let n = s.len();
    let mut value: u64 = 0;
    let mut i: usize = 0;
    assert(s@.take(0) =~= Seq::<char>::empty());
    while i < n
        invariant
            i <= n == s@.len(),
            value <= max <= u32::MAX,
            value == digits_value(s@.take(i as int)),
            all_digits(s@.take(i as int)),
        decreases n - i,
    {
        let c = s[i];
        if !('0' <= c && c <= '9') {
            assert(!is_digit(s@[i as int]));
            return None;
        }
        let dv = (c as u32 - '0' as u32) as u64;
        assert(digit_value(c) == dv);
        assert(s@.take(i + 1).drop_last() =~= s@.take(i as int));
        let next = value * 10 + dv;
        if next > max {
            proof {
                lemma_digits_value_monotone(s@, i + 1, n as int);
                assert(s@.take(n as int) =~= s@);
            }
            return None;
        }
        value = next;
        assert forall|k: int| 0 <= k < s@.take(i + 1).len() implies is_digit(
            #[trigger] s@.take(i + 1)[k],
        ) by {
            if k < i {
                assert(s@.take(i + 1)[k] == s@.take(i as int)[k]);
            }
        }
        i = i + 1;
    }
    assert(s@.take(n as int) =~= s@);
    Some(value)
}

/// The hundredths that the first two digits of a fraction denote.
pub open spec fn frac_hundredths(f: Seq<char>) -> nat {
    (if f.len() > 0 {
        digit_value(f[0]) * 10
    } else {
        0
    }) + (if f.len() > 1 {
        digit_value(f[1])
    } else {
        0
    })
}

/// The integer and fraction digits of a decimal number, split at its first `.`.
pub open spec fn decimal_parts(d: Seq<char>) -> (Seq<char>, Seq<char>) {
    match crate::text::find(d, seq!['.']) {
        Some(k) => (d.take(k), d.skip(k + 1)),
        None => (d, Seq::empty()),
    }
}

/// The value in hundredths of a decimal number: an optional `+`, digits and an
/// optional fraction after `.`, with at least one digit in all; fraction digits
/// past the second are dropped. `None` for anything else, and for integer
/// parts above `u32::MAX`.
pub open spec fn decimal_hundredths(s: Seq<char>) -> Option<u64> {
    let (ip, fp) = decimal_parts(unsigned_digits(s));
    if ip.len() + fp.len() > 0 && all_digits(ip) && all_digits(fp) && digits_value(ip)
        <= u32::MAX {
        Some((digits_value(ip) * 100 + frac_hundredths(fp)) as u64)
    } else {
        None
    }
}

/// Reads a decimal number in hundredths, as `decimal_hundredths` says.
pub fn parse_hundredths(s: &Vec<char>) -> (r: Option<u64>)
    ensures
        r == decimal_hundredths(s@),
{
    let n = s.len();
    let start: usize = if n > 0 && s[0] == '+' {
        1
    } else {
        0
    };
    let mut d: Vec<char> = Vec::new();
    let mut i = start;
    while i < n
        invariant
            start <= i <= n == s@.len(),
            d@ == s@.subrange(start as int, i as int),
        decreases n - i,
    {
        d.push(s[i]);
        assert(s@.subrange(start as int, i + 1) =~= s@.subrange(start as int, i as int).push(
            s@[i as int],
        ));
        i = i + 1;
    }
    assert(d@ =~= unsigned_digits(s@));
    let dot: Vec<char> = vec!['.'];
    assert(dot@ =~= seq!['.']);
    let mut ip: Vec<char> = Vec::new();
    let mut fp: Vec<char> = Vec::new();
    match crate::text::find_chars(&d, &dot) {
        Some(k) => {
            proof {
                crate::text::lemma_find_from(d@, dot@, 0);
            }
            assert(crate::text::match_at(d@, dot@, k as int));
            for j in 0..k
                invariant
                    k < d@.len(),
                    ip@ == d@.take(j as int),
            {
                ip.push(d[j]);
                assert(d@.take(j + 1) =~= d@.take(j as int).push(d@[j as int]));
            }
            let mut j = k + 1;
            while j < d.len()
                invariant
                    k + 1 <= j <= d@.len(),
                    fp@ == d@.subrange(k + 1, j as int),
                decreases d@.len() - j,
            {
                fp.push(d[j]);
                assert(d@.subrange(k + 1, j + 1) =~= d@.subrange(k + 1, j as int).push(
                    d@[j as int],
                ));
                j = j + 1;
            }
            assert(fp@ =~= d@.skip(k + 1));
        },
        None => {
            ip = d;
        },
    }
    assert(decimal_parts(unsigned_digits(s@)) == (ip@, fp@));
    if ip.len() + fp.len() == 0 {
        return None;
    }
    let iv = match digits_number(&ip, 4294967295) {
        Some(v) => v,
        None => {
            return None;
        },
    };
    let mut k: usize = 0;
    while k < fp.len()
        invariant
            k <= fp@.len(),
            decimal_parts(unsigned_digits(s@)).1 == fp@,
            forall|m: int| 0 <= m < k ==> is_digit(#[trigger] fp@[m]),
        decreases fp@.len() - k,
    {
        if !('0' <= fp[k] && fp[k] <= '9') {
            assert(!is_digit(fp@[k as int]));
            return None;
        }
        k = k + 1;
    }
    assert(all_digits(fp@));
    let f0: u64 = if fp.len() > 0 {
        (fp[0] as u32 - '0' as u32) as u64 * 10
    } else {
        0
    };
    let f1: u64 = if fp.len() > 1 {
        (fp[1] as u32 - '0' as u32) as u64
    } else {
        0
    };
    Some(iv * 100 + f0 + f1)
}

/// The decimal text of a value in hundredths, as a float holding it would
/// print: the integer part, then `.` and the fraction without trailing zeros,
/// if the fraction is not zero.
pub open spec fn hundredths_text(v: nat) -> Seq<char> {
    let ip = decimal(v / 100);
    let f = v % 100;
    if f == 0 {
        ip
    } else if f % 10 == 0 {
        ip + seq!['.', digit_char(f / 10)]
    } else {
        ip + seq!['.', digit_char(f / 10), digit_char(f % 10)]
    }
}

/// Writes a value in hundredths as `hundredths_text` says.
pub fn format_hundredths(v: u64) -> (r: Vec<char>)
    ensures
        r@ == hundredths_text(v as nat),
{
    let mut out: Vec<char> = Vec::new();
    push_decimal(&mut out, v / 100);
    assert(out@ =~= decimal((v / 100) as nat));
    let f = v % 100;
    if f != 0 {
        out.push('.');
        let d1 = ((f / 10) as u32 + '0' as u32) as u8 as char;
        assert(d1 == digit_char((f / 10) as nat)) by {
            assert(((f / 10) as u32 + '0' as u32) < 128);
        }
        out.push(d1);
        if f % 10 != 0 {
            let d2 = ((f % 10) as u32 + '0' as u32) as u8 as char;
            assert(d2 == digit_char((f % 10) as nat)) by {
                assert(((f % 10) as u32 + '0' as u32) < 128);
            }
            out.push(d2);
        }
    }
    out
}

} // verus!
