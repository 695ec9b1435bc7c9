use vstd::prelude::*;

verus! {

/// The port that the server listens on when none is configured.
pub const DEFAULT_PORT: u16 = 8080;

/// True when every character of `s` is an ASCII digit.
pub open spec fn all_digits(s: Seq<char>) -> bool {
    forall|i: int| 0 <= i < s.len() ==> '0' <= #[trigger] s[i] && s[i] <= '9'
}

/// The number that the decimal digits `s` write.
pub open spec fn digits_value(s: Seq<char>) -> int
    decreases s.len(),
{
    if s.len() == 0 {
        0
    } else {
        digits_value(s.drop_last()) * 10 + (s.last() as int - '0' as int)
    }
}

/// `s` without one leading `+`.
pub open spec fn unsigned_digits(s: Seq<char>) -> Seq<char> {
    if s.len() > 0 && s[0] == '+' {
        s.subrange(1, s.len() as int)
    } else {
        s
    }
}

/// The port that `s` writes in decimal, with an optional leading `+`, if it
/// is one.
pub open spec fn port_of(s: Seq<char>) -> Option<u16> {
    let d = unsigned_digits(s);
    if d.len() > 0 && all_digits(d) && digits_value(d) <= 65535 {
        Some(digits_value(d) as u16)
    } else {
        None
    }
}

proof fn lemma_digits_value_grows(s: Seq<char>, k: int)
    requires
        all_digits(s),
        0 <= k <= s.len(),
    ensures
        0 <= digits_value(s.subrange(0, k)) <= digits_value(s),
    decreases s.len(),
{
    if s.len() > 0 {
        assert(all_digits(s.drop_last()));
        if k == s.len() {
            assert(s.subrange(0, k) =~= s);
            lemma_digits_value_grows(s.drop_last(), k - 1);
        } else {
            assert(s.drop_last().subrange(0, k) =~= s.subrange(0, k));
            lemma_digits_value_grows(s.drop_last(), k);
        }
    }
}

/// The decimal digit that stands for `d`, from 0 to 9.
pub open spec fn digit_char(d: nat) -> char {
    seq!['0', '1', '2', '3', '4', '5', '6', '7', '8', '9'][d as int]
}

proof fn lemma_digit_char(d: nat)
    requires
        d < 10,
    ensures
        '0' <= digit_char(d) <= '9',
        digit_char(d) as int - '0' as int == d,
{
    assert(d == 0 || d == 1 || d == 2 || d == 3 || d == 4 || d == 5 || d == 6 || d == 7 || d
        == 8 || d == 9);
}

/// `n` written in decimal, without leading zeros.
pub open spec fn decimal(n: nat) -> Seq<char>
    decreases n,
{
    if n < 10 {
        seq![digit_char(n)]
    } else {
        decimal(n / 10).push(digit_char(n % 10))
    }
}

proof fn lemma_decimal_digits(n: nat)
    ensures
        decimal(n).len() > 0,
        '0' <= decimal(n)[0] <= '9',
        all_digits(decimal(n)),
        digits_value(decimal(n)) == n,
    decreases n,
{
    if n < 10 {
        lemma_digit_char(n);
        assert(decimal(n).drop_last() =~= Seq::<char>::empty());
        assert(digits_value(decimal(n)) == digits_value(Seq::<char>::empty()) * 10 + (n as int));
    } else {
        lemma_digit_char(n % 10);
        lemma_decimal_digits(n / 10);
        let s = decimal(n / 10);
        assert(decimal(n).drop_last() =~= s);
        assert(decimal(n).last() == digit_char(n % 10));
        assert(digits_value(decimal(n)) == digits_value(s) * 10 + (n % 10));
        assert((n / 10) * 10 + n % 10 == n);
        assert(decimal(n)[0] == s[0]);
        assert forall|i: int| 0 <= i < decimal(n).len() implies '0' <= #[trigger] decimal(n)[i]
            && decimal(n)[i] <= '9' by {
            if i < s.len() {
                assert(decimal(n)[i] == s[i]);
            }
        }
    }
}

/// Every port, written in decimal, reads back as itself.
pub proof fn port_text_round_trip(p: u16)
    ensures
        port_of(decimal(p as nat)) == Some(p),
{
    lemma_decimal_digits(p as nat);
}

/// Reads a port number written in decimal, with an optional leading `+`.
pub fn parse_port(s: &str) -> (r: Option<u16>)
    ensures
        r == port_of(s@),
{
    let n = s.unicode_len();
    let mut i: usize = 0;
    if n > 0 && s.get_char(0) == '+' {
        i = 1;
    }
    let ghost d = unsigned_digits(s@);
    assert(d =~= s@.subrange(i as int, n as int));
    if i == n {
        return None;
    }
    let mut acc: u32 = 0;
    while i < n
        invariant
            n == s@.len(),
            d == unsigned_digits(s@),
            d =~= s@.subrange((n - d.len()) as int, n as int),
            n - d.len() <= i <= n,
            acc <= 65535,
            all_digits(d.subrange(0, i - (n - d.len()))),
            acc as int == digits_value(d.subrange(0, i - (n - d.len()))),
        decreases n - i,
    {
        let c = s.get_char(i);
        let ghost k = i - (n - d.len());
        assert(d[k] == c);
        if c < '0' || c > '9' {
            assert(!all_digits(d));
            return None;
        }
        let digit = (c as u32) - ('0' as u32);
        assert(d.subrange(0, k + 1).drop_last() =~= d.subrange(0, k));
        acc = acc * 10 + digit;
        i = i + 1;
        if acc > 65535 {
            proof {
                if all_digits(d) {
                    lemma_digits_value_grows(d, k + 1);
                }
            }
            return None;
        }
    }
    assert(d.subrange(0, d.len() as int) =~= d);
    Some(acc as u16)
}

} // verus!
