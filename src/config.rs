use vstd::prelude::*;
use vstd::string::StrSliceExecFns;

verus! {

/// True of the ten ASCII decimal digits.
pub open spec fn is_digit(c: char) -> bool {
    '0' <= c && c <= '9'
}

/// The value of one decimal digit.
pub open spec fn digit_value(c: char) -> nat {
    ((c as u32) - ('0' as u32)) as nat
}

/// True when every character of `s` is a decimal digit.
pub open spec fn all_digits(s: Seq<char>) -> bool {
    forall|i: int| 0 <= i < s.len() ==> is_digit(#[trigger] s[i])
}

/// The number that the digits of `s` spell, most significant first.
pub open spec fn digits_value(s: Seq<char>) -> nat
    decreases s.len(),
{
    if s.len() == 0 {
        0
    } else {
        digits_value(s.drop_last()) * 10 + digit_value(s.last())
    }
}

/// The digits of a port text: the text without one leading `+`, if it has one.
pub open spec fn unsigned_part(s: Seq<char>) -> Seq<char> {
    if s.len() > 0 && s[0] == '+' {
        s.drop_first()
    } else {
        s
    }
}

/// The port that a text names: an optional `+` followed by at least one decimal
/// digit and nothing else, whose value fits in 16 bits.
pub open spec fn port_value(s: Seq<char>) -> Option<u16> {
    let d = unsigned_part(s);
    if d.len() > 0 && all_digits(d) && digits_value(d) <= 0xffff {
        Some(digits_value(d) as u16)
    } else {
        None
    }
}

/// Reads a port number from its decimal text.
pub fn parse_port(text: &str) -> (r: Option<u16>)
    ensures
        r == port_value(text@),
{
    let n = text.unicode_len();
    let mut start: usize = 0;
    if n > 0 && text.get_char(0) == '+' {
        start = 1;
    }
    let ghost d = unsigned_part(text@);
    assert(d == text@.subrange(start as int, n as int));
    if start == n {
        return None;
    }
    // The value read so far, held at 0x10000 once it no longer fits a port.
    let mut acc: u32 = 0;
    let mut i: usize = start;
    while i < n
        invariant
            start <= i <= n,
            n == text@.len(),
            d == text@.subrange(start as int, n as int),
            d == unsigned_part(text@),
            all_digits(d.subrange(0, i - start)),
            acc == if digits_value(d.subrange(0, i - start)) <= 0x10000 {
                digits_value(d.subrange(0, i - start))
            } else {
                0x10000
            },
        decreases n - i,
    {
        let c = text.get_char(i);
        if !('0' <= c && c <= '9') {
            assert(d[i - start] == c);
            assert(!is_digit(d[i - start]));
            return None;
        }
        let v: u32 = (c as u32) - ('0' as u32);
        let ghost prev = d.subrange(0, i - start);
        let ghost next = d.subrange(0, i + 1 - start);
        assert(next.drop_last() =~= prev);
        assert(next.last() == c);
        acc = if acc * 10 + v > 0x10000 {
            0x10000
        } else {
            acc * 10 + v
        };
        i = i + 1;
        assert(all_digits(next));
    }
    assert(d.subrange(0, n - start) =~= d);
    if acc > 0xffff {
        None
    } else {
        Some(acc as u16)
    }
}

/// The port used when no port is configured.
pub const DEFAULT_PORT: u16 = 8080;

/// Why a configured port cannot be used.
#[derive(Clone, Copy, Debug, PartialEq, Eq, Structural)]
pub enum ConfigError {
    /// The port text is not a decimal number that fits in 16 bits.
    PortNotANumber,
}

impl ConfigError {
    /// The text shown when startup stops on this error.
    pub fn message(&self) -> (r: String)
        ensures
            r@ == "PORT must be a number"@,
    {
        match self {
            ConfigError::PortNotANumber => "PORT must be a number".to_owned(),
        }
    }
}

/// The view of an optional text.
pub open spec fn text_view(var: Option<&str>) -> Option<Seq<char>> {
    match var {
        Some(s) => Some(s@),
        None => None,
    }
}

/// The port that startup uses: the default when no port text is given, else
/// the port that the text names, and an error when it names none.
pub open spec fn resolved_port(var: Option<Seq<char>>) -> Result<u16, ConfigError> {
    match var {
        None => Ok(DEFAULT_PORT),
        Some(s) => match port_value(s) {
            Some(p) => Ok(p),
            None => Err(ConfigError::PortNotANumber),
        },
    }
}

/// Decides the port from the optional value of the port setting.
pub fn resolve_port(var: Option<&str>) -> (r: Result<u16, ConfigError>)
    ensures
        r == resolved_port(text_view(var)),
{
    match var {
        None => Ok(DEFAULT_PORT),
        Some(text) => match parse_port(text) {
            Some(p) => Ok(p),
            None => Err(ConfigError::PortNotANumber),
        },
    }
}

/// The character of one decimal digit.
pub open spec fn digit_char(d: nat) -> char {
    ((d + 48) as u8) as char
}

/// The decimal text of `n`, without leading zeros.
pub open spec fn decimal_digits(n: nat) -> Seq<char>
    decreases n,
{
    if n < 10 {
        seq![digit_char(n)]
    } else {
        decimal_digits(n / 10).push(digit_char(n % 10))
    }
}

/// Relies on `String::push`: appends one character at the end.
#[verifier::external_body]
fn push_char(s: &mut String, c: char)
    ensures
        final(s)@ == old(s)@.push(c),
{
    s.push(c);
}

pub(crate) fn push_decimal(s: &mut String, n: u16)
    ensures
        final(s)@ == old(s)@ + decimal_digits(n as nat),
    decreases n,
{
    let ghost start = s@;
    if n >= 10 {
        push_decimal(s, n / 10);
    }
    let d: u8 = (n % 10) as u8;
    push_char(s, (d + 48u8) as char);
    assert(s@ =~= start + decimal_digits(n as nat));
}

/// The decimal text of a port.
pub fn port_text(port: u16) -> (r: String)
    ensures
        r@ == decimal_digits(port as nat),
{
    let mut s = String::new();
    push_decimal(&mut s, port);
    assert(s@ =~= decimal_digits(port as nat));
    s
}

proof fn lemma_decimal_digits(n: nat)
    ensures
        decimal_digits(n).len() > 0,
        is_digit(decimal_digits(n)[0]),
        all_digits(decimal_digits(n)),
        digits_value(decimal_digits(n)) == n,
    decreases n,
{
    if n >= 10 {
        lemma_decimal_digits(n / 10);
        let s = decimal_digits(n);
        assert(s.drop_last() =~= decimal_digits(n / 10));
        assert(forall|i: int| 0 <= i < s.len() - 1 ==> s[i] == decimal_digits(n / 10)[i]);
        assert(s.last() == digit_char(n % 10));
        assert(digit_value(digit_char(n % 10)) == n % 10);
        assert((n / 10) * 10 + n % 10 == n);
        assert(digits_value(s) == digits_value(s.drop_last()) * 10 + digit_value(s.last()));
        assert(digits_value(s) == (n / 10) * 10 + n % 10);
    } else {
        let s = decimal_digits(n);
        assert(s.drop_last() =~= Seq::<char>::empty());
        assert(digit_value(digit_char(n)) == n);
        assert(digits_value(s) == digits_value(s.drop_last()) * 10 + digit_value(s.last()));
        assert(digits_value(s.drop_last()) == 0);
    }
}

/// Every 16-bit port, written in decimal as the port setting, is the port that
/// startup uses.
pub proof fn lemma_port_text_round_trip(p: u16)
    ensures
        port_value(decimal_digits(p as nat)) == Some(p),
        resolved_port(Some(decimal_digits(p as nat))) == Ok::<u16, ConfigError>(p),
{
    lemma_decimal_digits(p as nat);
}

/// A port setting that holds a character other than a decimal digit, leaving
/// aside one leading `+`, is refused.
pub proof fn lemma_non_numeric_refused(s: Seq<char>, i: int)
    requires
        0 <= i < s.len(),
        !is_digit(s[i]),
        !(i == 0 && s[i] == '+'),
    ensures
        port_value(s) is None,
        resolved_port(Some(s)) == Err::<u16, ConfigError>(ConfigError::PortNotANumber),
{
    let d = unsigned_part(s);
    if s.len() > 0 && s[0] == '+' {
        assert(d[i - 1] == s[i]);
    } else {
        assert(d[i] == s[i]);
    }
}

/// A port setting of decimal digits whose value exceeds 16 bits is refused.
pub proof fn lemma_out_of_range_refused(s: Seq<char>)
    requires
        all_digits(s),
        digits_value(s) > 0xffff,
    ensures
        port_value(s) is None,
        resolved_port(Some(s)) == Err::<u16, ConfigError>(ConfigError::PortNotANumber),
{
    if s.len() > 0 && s[0] == '+' {
        assert(is_digit(s[0]));
    }
}

} // verus!
