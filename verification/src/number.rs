//! Numbers of the configuration that are not integers, held as the text under
//! which they stand in the payload.

use vstd::prelude::*;
use vstd::string::is_ascii_spec_bytes;
use vstd::string::StringExecFns;

verus! {

pub open spec fn is_digit(c: char) -> bool {
    '0' <= c <= '9'
}

/// How many digits stand in `s` from position `from` on without a break.
pub open spec fn digit_run(s: Seq<char>, from: int) -> int
    decreases s.len() - from,
{
    if 0 <= from < s.len() && is_digit(s[from]) {
        1 + digit_run(s, from + 1)
    } else {
        0
    }
}

/// Where the integer part begins: behind a leading minus sign, if there is
/// one.
pub open spec fn integer_start(s: Seq<char>) -> int {
    if s.len() > 0 && s[0] == '-' {
        1
    } else {
        0
    }
}

pub open spec fn integer_end(s: Seq<char>) -> int {
    integer_start(s) + digit_run(s, integer_start(s))
}

pub open spec fn has_fraction(s: Seq<char>) -> bool {
    integer_end(s) < s.len() && s[integer_end(s)] == '.'
}

pub open spec fn fraction_end(s: Seq<char>) -> int {
    if has_fraction(s) {
        integer_end(s) + 1 + digit_run(s, integer_end(s) + 1)
    } else {
        integer_end(s)
    }
}

pub open spec fn has_exponent(s: Seq<char>) -> bool {
    fraction_end(s) < s.len() && (s[fraction_end(s)] == 'e' || s[fraction_end(s)] == 'E')
}

/// Where the digits of the exponent begin: behind the letter and its sign, if
/// it has one.
pub open spec fn exponent_start(s: Seq<char>) -> int {
    let sign = fraction_end(s) + 1;
    if sign < s.len() && (s[sign] == '+' || s[sign] == '-') {
        sign + 1
    } else {
        sign
    }
}

pub open spec fn exponent_end(s: Seq<char>) -> int {
    if has_exponent(s) {
        exponent_start(s) + digit_run(s, exponent_start(s))
    } else {
        fraction_end(s)
    }
}

/// Whether `s` is a number as JSON writes one: an optional minus sign; an
/// integer part of at least one digit, with no leading zero before another
/// digit; optionally a point and at least one digit; optionally `e` or `E`, an
/// optional sign and at least one digit; and nothing else.
pub open spec fn is_json_number(s: Seq<char>) -> bool {
    &&& integer_end(s) > integer_start(s)
    &&& s[integer_start(s)] == '0' ==> integer_end(s) == integer_start(s) + 1
    &&& has_fraction(s) ==> fraction_end(s) > integer_end(s) + 1
    &&& has_exponent(s) ==> exponent_end(s) > exponent_start(s)
    &&& exponent_end(s) == s.len()
}

/// The word that stands in the payload for a value that is not a number.
pub open spec fn null_token() -> Seq<char> {
    seq!['n', 'u', 'l', 'l']
}

/// Whether `s` can stand for a number in the payload: a JSON number, or
/// `null` for a value that no number expresses.
pub open spec fn is_number_token(s: Seq<char>) -> bool {
    is_json_number(s) || s == null_token()
}

/// Whether `c` can occur in a number token.
pub open spec fn is_token_char(c: char) -> bool {
    is_digit(c) || c == '-' || c == '+' || c == '.' || c == 'e' || c == 'E' || c == 'n' || c == 'u'
        || c == 'l'
}

/// A digit run stays inside the text and covers digits only.
pub proof fn lemma_digit_run(s: Seq<char>, from: int)
    requires
        0 <= from <= s.len(),
    ensures
        0 <= digit_run(s, from) <= s.len() - from,
        forall|i: int| from <= i < from + digit_run(s, from) ==> is_digit(#[trigger] s[i]),
        from + digit_run(s, from) < s.len() ==> !is_digit(s[from + digit_run(s, from)]),
    decreases s.len() - from,
{
    if from < s.len() && is_digit(s[from]) {
        lemma_digit_run(s, from + 1);
    }
}

/// Every character of a number token is one of the few that such a token is
/// written with.
pub proof fn lemma_token_chars(s: Seq<char>)
    requires
        is_number_token(s),
    ensures
        forall|i: int| 0 <= i < s.len() ==> is_token_char(#[trigger] s[i]),
{
    if is_json_number(s) {
        lemma_digit_run(s, integer_start(s));
        if has_fraction(s) {
            lemma_digit_run(s, integer_end(s) + 1);
        }
        if has_exponent(s) {
            lemma_digit_run(s, fraction_end(s));
            if exponent_start(s) <= s.len() {
                lemma_digit_run(s, exponent_start(s));
            }
        }
        assert forall|i: int| 0 <= i < s.len() implies is_token_char(#[trigger] s[i]) by {
            if i < integer_start(s) {
            } else if i < integer_end(s) {
            } else if i < fraction_end(s) {
            } else if i < exponent_start(s) {
            } else {
            }
        }
    }
}

/// What the bytes of an ASCII text are: its characters, one byte each.
pub open spec fn ascii_bytes(s: Seq<char>) -> Seq<u8> {
    Seq::new(s.len(), |i: int| s[i] as u8)
}

/// Walks over the digits that begin at `from`.
fn scan_digits(bytes: &[u8], from: usize, Ghost(s): Ghost<Seq<char>>) -> (end: usize)
    requires
        vstd::utf8::is_ascii_chars(s),
        bytes@ == ascii_bytes(s),
        from <= bytes.len(),
    ensures
        end == from + digit_run(s, from as int),
        from <= end <= bytes.len(),
{
    let mut end = from;
    while end < bytes.len() && bytes[end] >= 48 && bytes[end] <= 57
        invariant
            vstd::utf8::is_ascii_chars(s),
            bytes@ == ascii_bytes(s),
            from <= end <= bytes.len(),
            digit_run(s, from as int) == (end - from) + digit_run(s, end as int),
        decreases bytes.len() - end,
    {
        assert(bytes@[end as int] == s[end as int] as u8);
        assert(is_digit(s[end as int]));
        end = end + 1;
    }
    proof {
        if end < bytes.len() {
            assert(bytes@[end as int] == s[end as int] as u8);
            assert(!is_digit(s[end as int]));
        }
    }
    end
}

/// A number of the configuration, held as the text under which it stands in
/// the payload: a JSON number, or `null`.
#[derive(Debug, PartialEq, Eq)]
pub struct JsonNumber {
    text: String,
}

impl View for JsonNumber {
    type V = Seq<char>;

    closed spec fn view(&self) -> Seq<char> {
        self.text@
    }
}

impl JsonNumber {
    #[verifier::type_invariant]
    spec fn well_formed(self) -> bool {
        is_number_token(self.text@)
    }

    /// Whether the text is a number token. It is, of every value that the
    /// program holds.
    pub open spec fn wf(&self) -> bool {
        is_number_token(self@)
    }

    /// Takes `text` as a number if it is written as one.
    pub fn parse(text: &str) -> (parsed: Option<JsonNumber>)
        ensures
            parsed is Some <==> is_number_token(text@),
            parsed matches Some(number) ==> number@ == text@ && number.wf(),
    {
        let ghost s = text@;
        if !text.is_ascii() {
            proof {
                if is_number_token(s) {
                    lemma_token_chars(s);
                    assert forall|i: int| 0 <= i < s.len() implies '\0' <= #[trigger] s[i]
                        <= '\u{7f}' by {
                        assert(is_token_char(s[i]));
                    }
                }
            }
            return None;
        }
        let bytes = text.as_bytes();
        proof {
            is_ascii_spec_bytes(text);
            assert(bytes@ == ascii_bytes(s));
        }
        let len = bytes.len();
        if len == 4 && bytes[0] == 110 && bytes[1] == 117 && bytes[2] == 108 && bytes[3] == 108 {
            proof {
                assert(bytes@[0] == s[0] as u8);
                assert(bytes@[1] == s[1] as u8);
                assert(bytes@[2] == s[2] as u8);
                assert(bytes@[3] == s[3] as u8);
                assert(s =~= null_token());
            }
            return Some(JsonNumber { text: String::from_str(text) });
        }
        proof {
            if s == null_token() {
                assert(bytes@[0] == s[0] as u8);
                assert(bytes@[1] == s[1] as u8);
                assert(bytes@[2] == s[2] as u8);
                assert(bytes@[3] == s[3] as u8);
            }
            assert(s != null_token());
        }
        let start: usize = if len > 0 && bytes[0] == 45 {
            1
        } else {
            0
        };
        proof {
            if len > 0 {
                assert(bytes@[0] == s[0] as u8);
            }
            assert(start == integer_start(s));
        }
        let int_end = scan_digits(bytes, start, Ghost(s));
        if int_end == start {
            return None;
        }
        proof {
            assert(bytes@[start as int] == s[start as int] as u8);
        }
        if bytes[start] == 48 && int_end != start + 1 {
            return None;
        }
        let mut frac_end = int_end;
        if int_end < len && bytes[int_end] == 46 {
            frac_end = scan_digits(bytes, int_end + 1, Ghost(s));
            if frac_end == int_end + 1 {
                proof {
                    assert(bytes@[int_end as int] == s[int_end as int] as u8);
                }
                return None;
            }
        }
        proof {
            if int_end < len {
                assert(bytes@[int_end as int] == s[int_end as int] as u8);
            }
            assert(frac_end == fraction_end(s));
        }
        let mut exp_end = frac_end;
        if frac_end < len && (bytes[frac_end] == 101 || bytes[frac_end] == 69) {
            let mut exp_start = frac_end + 1;
            if exp_start < len && (bytes[exp_start] == 43 || bytes[exp_start] == 45) {
                exp_start = exp_start + 1;
            }
            proof {
                assert(bytes@[frac_end as int] == s[frac_end as int] as u8);
                if frac_end + 1 < len {
                    assert(bytes@[frac_end + 1] == s[frac_end + 1] as u8);
                }
                assert(has_exponent(s));
                assert(exp_start == exponent_start(s));
            }
            exp_end = scan_digits(bytes, exp_start, Ghost(s));
            if exp_end == exp_start {
                return None;
            }
        }
        proof {
            if frac_end < len {
                assert(bytes@[frac_end as int] == s[frac_end as int] as u8);
            }
            assert(exp_end == exponent_end(s));
        }
        if exp_end != len {
            return None;
        }
        Some(JsonNumber { text: String::from_str(text) })
    }

    /// The text under which the number stands in the payload.
    pub fn as_str(&self) -> (text: &str)
        ensures
            text@ == self@,
            self.wf(),
    {
        proof {
            use_type_invariant(self);
        }
        self.text.as_str()
    }
}

impl Clone for JsonNumber {
    fn clone(&self) -> (copy: JsonNumber)
        ensures
            copy@ == self@,
            copy.wf(),
    {
        proof {
            use_type_invariant(self);
        }
        JsonNumber { text: self.text.clone() }
    }
}

impl Default for JsonNumber {
    /// Zero, written as a number with a fraction.
    fn default() -> (number: JsonNumber)
        ensures
            number@ == seq!['0', '.', '0'],
            number.wf(),
    {
        proof {
            reveal_strlit("0.0");
            let s = "0.0"@;
            assert(s =~= seq!['0', '.', '0']);
            reveal_with_fuel(digit_run, 3);
            assert(digit_run(s, 0) == 1);
            assert(digit_run(s, 2) == 1);
            assert(is_json_number(s));
        }
        JsonNumber { text: String::from_str("0.0") }
    }
}

} // verus!
