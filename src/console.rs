//! What the machine exchanges with its console: how the accumulator is
//! rendered for OUTPUT, and how a line of text becomes a word for INPUT.
use vstd::prelude::*;
use vstd::std_specs::iter::IteratorSpec;
use vstd::string::{axiom_spec_iter, next_postcondition};

verus! {

/// The code, in the output-mode cell, of decimal rendering.
pub const DECIMAL_CODE: i16 = 10;

/// The code, in the output-mode cell, of character rendering.
pub const ASCII_CODE: i16 = 32;

/// The reserved cell that OUTPUT consults for the output mode.
pub const MODE_CELL: i16 = 0x10;

/// How OUTPUT renders the accumulator.
#[derive(Clone, Copy, Debug, PartialEq, Eq, Structural)]
pub enum OutputMode {
    /// As a signed decimal integer.
    Decimal,
    /// As one character, from the accumulator's low eight bits.
    Ascii,
}

/// The bytes of the startup flag that selects character output.
pub open spec fn ascii_flag() -> Seq<u8> {
    seq![65u8, 83u8, 67u8, 73u8, 73u8]
}

impl OutputMode {
    /// The code that stands for this mode in the output-mode cell.
    pub open spec fn spec_code(self) -> i16 {
        match self {
            OutputMode::Decimal => DECIMAL_CODE,
            OutputMode::Ascii => ASCII_CODE,
        }
    }

    /// The code that stands for this mode in the output-mode cell.
    pub fn code(&self) -> (r: i16)
        ensures
            r == self.spec_code(),
    {
        match self {
            OutputMode::Decimal => DECIMAL_CODE,
            OutputMode::Ascii => ASCII_CODE,
        }
    }

    /// The mode a startup flag selects: `ASCII` selects characters, and
    /// anything else (`DEC` among them) decimal.
    pub fn from_flag(flag: &[u8]) -> (r: OutputMode)
        ensures
            r == (if flag@ == ascii_flag() {
                OutputMode::Ascii
            } else {
                OutputMode::Decimal
            }),
    {
        if flag.len() == 5 && flag[0] == 65 && flag[1] == 83 && flag[2] == 67 && flag[3] == 73
            && flag[4] == 73 {
            assert(flag@ =~= ascii_flag());
            OutputMode::Ascii
        } else {
            OutputMode::Decimal
        }
    }
}

/// What one OUTPUT hands the console.
#[derive(Clone, Copy, Debug, PartialEq, Eq, Structural)]
pub enum Output {
    /// The accumulator, to be printed as a decimal integer.
    Decimal(i16),
    /// A byte, to be printed as the character of that code.
    Character(u8),
}

/// The character of decimal digit `d`.
pub open spec fn digit_char(d: nat) -> char {
    (48 + d) as u8 as char
}

/// The decimal digits of `n`, most significant first, without leading
/// zeros.
pub open spec fn decimal(n: nat) -> Seq<char>
    decreases n,
{
    if n < 10 {
        seq![digit_char(n)]
    } else {
        decimal(n / 10).push(digit_char(n % 10))
    }
}

/// Appends the decimal digits of `n` to `out`.
fn push_decimal(n: u32, out: &mut Vec<char>)
    ensures
        final(out)@ == old(out)@ + decimal(n as nat),
    decreases n,
{
    if n >= 10 {
        push_decimal(n / 10, out);
    }
    out.push(((48 + n % 10) as u8) as char);
    assert(n < 10 ==> old(out)@ + decimal(n as nat) =~= old(out)@.push(digit_char(n as nat)));
}

impl Output {
    /// The text the console shows: a decimal number, with `-` before a
    /// negative one, or the single character of the byte's code.
    pub open spec fn spec_text(self) -> Seq<char> {
        match self {
            Output::Decimal(v) => if v < 0 {
                seq!['-'] + decimal((-v) as nat)
            } else {
                decimal(v as nat)
            },
            Output::Character(b) => seq![b as char],
        }
    }

    /// The text the console shows for this output.
    pub fn text(&self) -> (r: Vec<char>)
        ensures
            r@ == self.spec_text(),
    {
        let mut out: Vec<char> = Vec::new();
        match self {
            Output::Decimal(v) => {
                let v = *v;
                if v < 0 {
                    out.push('-');
                    push_decimal((0 - (v as i32)) as u32, &mut out);
                } else {
                    push_decimal(v as u32, &mut out);
                }
            },
            Output::Character(b) => {
                out.push(*b as char);
            },
        }
        assert(out@ =~= self.spec_text());
        out
    }
}

/// What OUTPUT emits for accumulator `ac` when the output-mode cell holds
/// `mode_cell`: a character for the character code, a decimal number for
/// any other value.
pub open spec fn spec_render(ac: i16, mode_cell: i16) -> Output {
    if mode_cell == ASCII_CODE {
        Output::Character((ac & 0xffi16) as u8)
    } else {
        Output::Decimal(ac)
    }
}

/// Renders accumulator `ac` under the output-mode cell's value.
pub fn render(ac: i16, mode_cell: i16) -> (r: Output)
    ensures
        r == spec_render(ac, mode_cell),
{
    if mode_cell == ASCII_CODE {
        Output::Character((ac & 0xff) as u8)
    } else {
        Output::Decimal(ac)
    }
}

/// White space as Unicode defines it (the `White_Space` property): the
/// ASCII controls tab through carriage return, space, next line, no-break
/// space, ogham space mark, the spaces U+2000 to U+200A, line and
/// paragraph separators, narrow no-break space, medium mathematical space
/// and ideographic space.
pub open spec fn is_space(c: char) -> bool {
    let u = c as u32;
    (0x09 <= u && u <= 0x0D) || u == 0x20 || u == 0x85 || u == 0xA0 || u == 0x1680 || (0x2000
        <= u && u <= 0x200A) || u == 0x2028 || u == 0x2029 || u == 0x202F || u == 0x205F || u
        == 0x3000
}

/// Whether `c` is white space, as `is_space` states.
fn space(c: char) -> (r: bool)
    ensures
        r == is_space(c),
{
    let u = c as u32;
    (0x09 <= u && u <= 0x0D) || u == 0x20 || u == 0x85 || u == 0xA0 || u == 0x1680 || (0x2000
        <= u && u <= 0x200A) || u == 0x2028 || u == 0x2029 || u == 0x202F || u == 0x205F || u
        == 0x3000
}

/// An ASCII decimal digit.
pub open spec fn is_digit(c: char) -> bool {
    48 <= c as u32 && c as u32 <= 57
}

/// `s` without its leading white space.
pub open spec fn trim_start(s: Seq<char>) -> Seq<char>
    decreases s.len(),
{
    if s.len() > 0 && is_space(s[0]) {
        trim_start(s.drop_first())
    } else {
        s
    }
}

/// `s` without its trailing white space.
pub open spec fn trim_end(s: Seq<char>) -> Seq<char>
    decreases s.len(),
{
    if s.len() > 0 && is_space(s.last()) {
        trim_end(s.drop_last())
    } else {
        s
    }
}

/// Whether every character of `s` is a digit.
pub open spec fn all_digits(s: Seq<char>) -> bool {
    forall|i: int| 0 <= i < s.len() ==> is_digit(#[trigger] s[i])
}

/// The number that the digits `s` write in base ten.
pub open spec fn digits_value(s: Seq<char>) -> nat
    decreases s.len(),
{
    if s.len() == 0 {
        0
    } else {
        digits_value(s.drop_last()) * 10 + (s.last() as u32 - 48) as nat
    }
}

/// The integer that `s` writes, white space around it aside: an optional
/// sign and at least one digit. `None` for any other text.
pub open spec fn parse_integer(s: Seq<char>) -> Option<int> {
    let t = trim_end(trim_start(s));
    if t.len() > 0 && (t[0] == '-' || t[0] == '+') {
        let d = t.drop_first();
        if d.len() > 0 && all_digits(d) {
            if t[0] == '-' {
                Some(-digits_value(d))
            } else {
                Some(digits_value(d) as int)
            }
        } else {
            None
        }
    } else if t.len() > 0 && all_digits(t) {
        Some(digits_value(t) as int)
    } else {
        None
    }
}

/// The word that INPUT stores for the text `s`: the integer it writes when
/// that fits in a word, and zero for anything else.
pub open spec fn input_value(s: Seq<char>) -> i16 {
    match parse_integer(s) {
        Some(v) => if i16::MIN <= v && v <= i16::MAX {
            v as i16
        } else {
            0
        },
        None => 0,
    }
}

/// A number with every value above 32768 folded into 32769.
pub open spec fn capped(v: nat) -> nat {
    if v > 32768 {
        32769
    } else {
        v
    }
}

proof fn lemma_digits_step(s: Seq<char>, k: int, p: int)
    requires
        0 <= k <= p < s.len(),
    ensures
        digits_value(s.subrange(k, p + 1)) == digits_value(s.subrange(k, p)) * 10 + (s[p] as u32
            - 48) as nat,
{
    assert(s.subrange(k, p + 1).drop_last() =~= s.subrange(k, p));
}

/// Text whose trimmed body, past an optional sign, holds a character that
/// is no digit writes no integer.
proof fn lemma_not_a_number(s: Seq<char>, t: Seq<char>, q: int)
    requires
        trim_end(trim_start(s)) == t,
        t.len() > 0,
        ({
            let d = if t[0] == '-' || t[0] == '+' {
                t.drop_first()
            } else {
                t
            };
            0 <= q < d.len() && !is_digit(d[q])
        }),
    ensures
        parse_integer(s) is None,
        input_value(s) == 0,
{
}

/// The word that INPUT stores for the console line `line`. It never fails:
/// text that is not a number in a word's range gives zero.
pub fn parse_input(line: &str) -> (r: i16)
    ensures
        r == input_value(line@),
{
    let cs = chars_of(line);
    let s = Ghost(line@);
    let n = cs.len();
    let mut i: usize = 0;
    assert(s@.subrange(0, n as int) =~= s@);
    while i < n && space(cs[i])
        invariant
            i <= n,
            n == s@.len(),
            s@ == cs@,
            s@ == line@,
            trim_start(s@) == trim_start(s@.subrange(i as int, n as int)),
        decreases n - i,
    {
        assert(s@.subrange(i as int, n as int).drop_first() =~= s@.subrange(i as int + 1, n as int));
        i = i + 1;
    }
    let mut j: usize = n;
    while j > i && space(cs[j - 1])
        invariant
            i <= j <= n,
            n == s@.len(),
            s@ == cs@,
            s@ == line@,
            trim_start(s@) == s@.subrange(i as int, n as int),
            trim_end(trim_start(s@)) == trim_end(s@.subrange(i as int, j as int)),
        decreases j - i,
    {
        assert(s@.subrange(i as int, j as int).drop_last() =~= s@.subrange(i as int, j as int - 1));
        j = j - 1;
    }
    let t = Ghost(s@.subrange(i as int, j as int));
    assert(trim_end(trim_start(s@)) == t@);
    if i == j {
        return 0;
    }
    assert(t@[0] == cs@[i as int]);
    let negative = cs[i] == '-';
    let signed = cs[i] == '-' || cs[i] == '+';
    let k: usize = if signed {
        i + 1
    } else {
        i
    };
    assert(s@.subrange(k as int, j as int) =~= if signed {
        t@.drop_first()
    } else {
        t@
    });
    if k == j {
        return 0;
    }
    let mut acc: u32 = 0;
    let mut p: usize = k;
    while p < j
        invariant
            k <= p <= j <= n,
            n == s@.len(),
            s@ == cs@,
            s@ == line@,
            i < j,
            trim_end(trim_start(s@)) == t@,
            t@ == s@.subrange(i as int, j as int),
            t@[0] == cs@[i as int],
            negative == (cs@[i as int] == '-'),
            signed == (cs@[i as int] == '-' || cs@[i as int] == '+'),
            k == (if signed { i + 1 } else { i as int }),
            s@.subrange(k as int, j as int) == (if signed {
                t@.drop_first()
            } else {
                t@
            }),
            all_digits(s@.subrange(k as int, p as int)),
            acc as nat == capped(digits_value(s@.subrange(k as int, p as int))),
        decreases j - p,
    {
        let u = cs[p] as u32;
        if u < 48 || u > 57 {
            assert(s@.subrange(k as int, j as int)[p - k] == cs@[p as int]);
            proof {
                lemma_not_a_number(s@, t@, (p - k) as int);
            }
            return 0;
        }
        proof {
            lemma_digits_step(s@, k as int, p as int);
            assert forall|x: int| 0 <= x < p + 1 - k implies is_digit(
                #[trigger] s@.subrange(k as int, p as int + 1)[x],
            ) by {
                if x < p - k {
                    assert(s@.subrange(k as int, p as int + 1)[x] == s@.subrange(
                        k as int,
                        p as int,
                    )[x]);
                }
            }
        }
        let d = u - 48;
        if acc > 32768 {
            acc = 32769;
        } else {
            let v = acc * 10 + d;
            acc = if v > 32768 {
                32769
            } else {
                v
            };
        }
        p = p + 1;
    }
    if negative {
        if acc <= 32768 {
            (0 - (acc as i32)) as i16
        } else {
            0
        }
    } else {
        if acc <= 32767 {
            acc as i16
        } else {
            0
        }
    }
}

/// The characters of `line`, in order.
fn chars_of(line: &str) -> (r: Vec<char>)
    ensures
        r@ == line@,
{
    broadcast use axiom_spec_iter, next_postcondition;

    let mut it = line.chars();
    let mut out: Vec<char> = Vec::new();
    loop
        invariant
            it.obeys_prophetic_iter_laws(),
            out@ + it.remaining() == line@,
            it.decrease() is Some,
        ensures
            out@ == line@,
        decreases it.decrease()->0,
    {
        match it.next() {
            Some(c) => {
                assert(out@.push(c) + it.remaining() =~= line@);
                out.push(c);
            },
            None => {
                assert(out@ =~= line@);
                break;
            },
        }
    }
    out
}
} // verus!
