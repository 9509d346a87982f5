//! The payload of the configuration, as a text, and what holds of it.

use crate::metadata::MetadataView;
use crate::number::is_digit;
use crate::number::is_token_char;
use crate::number::lemma_token_chars;
use vstd::prelude::*;

verus! {

pub open spec fn digit_char(d: nat) -> char {
    if d == 0 {
        '0'
    } else if d == 1 {
        '1'
    } else if d == 2 {
        '2'
    } else if d == 3 {
        '3'
    } else if d == 4 {
        '4'
    } else if d == 5 {
        '5'
    } else if d == 6 {
        '6'
    } else if d == 7 {
        '7'
    } else if d == 8 {
        '8'
    } else {
        '9'
    }
}

/// The decimal digits of `n`, without leading zeros.
pub open spec fn decimal(n: nat) -> Seq<char>
    decreases n,
{
    if n < 10 {
        seq![digit_char(n)]
    } else {
        decimal(n / 10).push(digit_char(n % 10))
    }
}

/// The hexadecimal digit for `d`, in lower case.
pub open spec fn hex_digit(d: nat) -> char {
    if d < 10 {
        digit_char(d)
    } else if d == 10 {
        'a'
    } else if d == 11 {
        'b'
    } else if d == 12 {
        'c'
    } else if d == 13 {
        'd'
    } else if d == 14 {
        'e'
    } else {
        'f'
    }
}

/// How one character stands inside a JSON string: the quote, the backslash
/// and the control characters are escaped, the five that have a short escape
/// by that, the others by their code point in four hexadecimal digits;
/// every other character stands for itself.
pub open spec fn json_escape(c: char) -> Seq<char> {
    if c == '"' {
        seq!['\\', '"']
    } else if c == '\\' {
        seq!['\\', '\\']
    } else if c == '\u{8}' {
        seq!['\\', 'b']
    } else if c == '\u{c}' {
        seq!['\\', 'f']
    } else if c == '\n' {
        seq!['\\', 'n']
    } else if c == '\r' {
        seq!['\\', 'r']
    } else if c == '\t' {
        seq!['\\', 't']
    } else if c <= '\u{1f}' {
        seq![
            '\\',
            'u',
            '0',
            '0',
            hex_digit((c as u32 / 16) as nat),
            hex_digit((c as u32 % 16) as nat),
        ]
    } else {
        seq![c]
    }
}

/// The characters of a text as they stand inside a JSON string.
pub open spec fn json_escaped(text: Seq<char>) -> Seq<char>
    decreases text.len(),
{
    if text.len() == 0 {
        Seq::empty()
    } else {
        json_escape(text[0]) + json_escaped(text.skip(1))
    }
}

/// A text as a JSON string: its characters, escaped, between double quotes.
pub open spec fn json_string(text: Seq<char>) -> Seq<char> {
    seq!['"'] + json_escaped(text) + seq!['"']
}

pub open spec fn bool_text(b: bool) -> Seq<char> {
    if b {
        "true"@
    } else {
        "false"@
    }
}

/// The payload up to the last field that is always there.
pub open spec fn wire_head(m: MetadataView) -> Seq<char> {
    "{\"enable-log\":"@ + bool_text(m.log_enable) + ",\"ctx-size\":"@ + decimal(m.ctx_size as nat)
        + ",\"n-predict\":"@ + decimal(m.n_predict as nat) + ",\"n-gpu-layers\":"@ + decimal(
        m.n_gpu_layers as nat,
    ) + ",\"batch-size\":"@ + decimal(m.batch_size as nat) + ",\"temp\":"@ + m.temp
        + ",\"repeat-penalty\":"@ + m.repeat_penalty
}

/// The payload that the backend receives: one JSON object, written without
/// spaces, with the fields in this order. The reverse prompt has a field only
/// when it is set.
pub open spec fn wire_format(m: MetadataView) -> Seq<char> {
    match m.reverse_prompt {
        None => wire_head(m) + "}"@,
        Some(prompt) => wire_head(m) + ",\"reverse-prompt\":"@ + json_string(prompt) + "}"@,
    }
}


/// Whether `c` does not occur in `s`.
pub open spec fn lacks(s: Seq<char>, c: char) -> bool {
    forall|i: int| 0 <= i < s.len() ==> s[i] != c
}

/// Whether `needle` stands in `hay` from position `at` on.
pub open spec fn occurs_at(needle: Seq<char>, hay: Seq<char>, at: int) -> bool {
    0 <= at && at + needle.len() <= hay.len() && hay.subrange(at, at + needle.len()) == needle
}

/// Whether `needle` stands somewhere in `hay`.
pub open spec fn occurs(needle: Seq<char>, hay: Seq<char>) -> bool {
    exists|at: int| occurs_at(needle, hay, at)
}

/// Whether `c` ends a value of the payload: the comma before the next field,
/// or the brace that closes the object.
pub open spec fn is_separator(c: char) -> bool {
    c == ',' || c == '}'
}

/// Whether no character of `s` ends a value.
pub open spec fn is_unbroken(s: Seq<char>) -> bool {
    forall|i: int| 0 <= i < s.len() ==> !is_separator(#[trigger] s[i])
}

/// The decimal digits of a number are digits, at least one of them.
pub proof fn lemma_decimal_digits(n: nat)
    ensures
        decimal(n).len() >= 1,
        forall|i: int| 0 <= i < decimal(n).len() ==> is_digit(#[trigger] decimal(n)[i]),
    decreases n,
{
    if n >= 10 {
        lemma_decimal_digits(n / 10);
    }
}

/// Two digits with the same character are the same digit.
pub proof fn lemma_digit_char_injective(a: nat, b: nat)
    requires
        a < 10,
        b < 10,
        digit_char(a) == digit_char(b),
    ensures
        a == b,
{
}

/// Two numbers with the same decimal digits are the same number.
pub proof fn lemma_decimal_injective(a: nat, b: nat)
    requires
        decimal(a) == decimal(b),
    ensures
        a == b,
    decreases a,
{
    lemma_decimal_digits(a / 10);
    lemma_decimal_digits(b / 10);
    if a >= 10 && b >= 10 {
        let x = decimal(a / 10);
        let y = decimal(b / 10);
        assert(decimal(a) == x.push(digit_char(a % 10)));
        assert(decimal(b) == y.push(digit_char(b % 10)));
        assert(x =~= x.push(digit_char(a % 10)).drop_last());
        assert(y =~= y.push(digit_char(b % 10)).drop_last());
        assert(x.push(digit_char(a % 10)).last() == digit_char(a % 10));
        assert(y.push(digit_char(b % 10)).last() == digit_char(b % 10));
        lemma_decimal_injective(a / 10, b / 10);
        lemma_digit_char_injective(a % 10, b % 10);
    } else if a < 10 && b < 10 {
        assert(decimal(a) == seq![digit_char(a)]);
        assert(decimal(b) == seq![digit_char(b)]);
        assert(seq![digit_char(a)][0] == digit_char(a));
        assert(seq![digit_char(b)][0] == digit_char(b));
        lemma_digit_char_injective(a, b);
    } else if a < 10 {
        assert(decimal(a) == seq![digit_char(a)]);
        assert(decimal(b) == decimal(b / 10).push(digit_char(b % 10)));
        assert(decimal(a).len() == 1);
        assert(decimal(b).len() >= 2);
    } else {
        assert(decimal(b) == seq![digit_char(b)]);
        assert(decimal(a) == decimal(a / 10).push(digit_char(a % 10)));
        assert(decimal(b).len() == 1);
        assert(decimal(a).len() >= 2);
    }
}

/// Joining texts gives the same text however the joins are grouped.
pub proof fn lemma_concat_assoc(a: Seq<char>, b: Seq<char>, c: Seq<char>)
    ensures
        (a + b) + c == a + (b + c),
{
    assert((a + b) + c =~= a + (b + c));
}

/// An escaped character is never empty, and it begins with a backslash just
/// where the character is one that is escaped.
pub proof fn lemma_json_escape_shape(c: char)
    ensures
        json_escape(c).len() == 1 || json_escape(c).len() == 2 || json_escape(c).len() == 6,
        json_escape(c).len() == 1 ==> json_escape(c)[0] == c && c != '\\',
        json_escape(c).len() > 1 ==> json_escape(c)[0] == '\\',
        json_escape(c).len() == 2 ==> json_escape(c)[1] != 'u',
        json_escape(c).len() == 6 ==> json_escape(c)[1] == 'u' && c <= '\u{1f}',
{
}

/// Two characters that are escaped alike are the same character.
pub proof fn lemma_json_escape_injective(a: char, b: char)
    requires
        json_escape(a) == json_escape(b),
    ensures
        a == b,
{
    lemma_json_escape_shape(a);
    lemma_json_escape_shape(b);
    let x = json_escape(a);
    let y = json_escape(b);
    if x.len() == 1 {
        assert(x[0] == y[0]);
    } else if x.len() == 2 {
        assert(x[1] == y[1]);
    } else {
        assert(x[4] == y[4]);
        assert(x[5] == y[5]);
        let ah = (a as u32 / 16) as nat;
        let al = (a as u32 % 16) as nat;
        let bh = (b as u32 / 16) as nat;
        let bl = (b as u32 % 16) as nat;
        assert(hex_digit(ah) == hex_digit(bh));
        assert(hex_digit(al) == hex_digit(bl));
        assert(ah < 2 && bh < 2);
        assert(al < 16 && bl < 16);
        assert(ah == bh);
        assert(al == bl);
        assert(a as u32 == b as u32);
    }
}

/// Two texts that are escaped alike are the same text.
pub proof fn lemma_json_escaped_injective(a: Seq<char>, b: Seq<char>)
    requires
        json_escaped(a) == json_escaped(b),
    ensures
        a == b,
    decreases a.len(),
{
    if a.len() == 0 {
        if b.len() > 0 {
            lemma_json_escape_shape(b[0]);
            assert(json_escaped(b).len() > 0);
        }
        assert(a =~= b);
    } else if b.len() == 0 {
        lemma_json_escape_shape(a[0]);
        assert(json_escaped(a).len() > 0);
    } else {
        let x = json_escape(a[0]);
        let y = json_escape(b[0]);
        let ra = json_escaped(a.skip(1));
        let rb = json_escaped(b.skip(1));
        let whole = json_escaped(a);
        assert(whole == x + ra);
        assert(whole == y + rb);
        lemma_json_escape_shape(a[0]);
        lemma_json_escape_shape(b[0]);
        assert(whole[0] == x[0] && whole[0] == y[0]);
        if x.len() > 1 {
            assert(y.len() > 1);
            assert(whole[1] == x[1] && whole[1] == y[1]);
        }
        assert(x.len() == y.len());
        assert(x =~= whole.take(x.len() as int));
        assert(y =~= whole.take(y.len() as int));
        assert(ra =~= whole.skip(x.len() as int));
        assert(rb =~= whole.skip(y.len() as int));
        lemma_json_escape_injective(a[0], b[0]);
        lemma_json_escaped_injective(a.skip(1), b.skip(1));
        assert(a =~= seq![a[0]] + a.skip(1));
        assert(b =~= seq![b[0]] + b.skip(1));
    }
}

/// Two texts that are written as the same JSON string are the same text.
pub proof fn lemma_json_string_injective(a: Seq<char>, b: Seq<char>)
    requires
        json_string(a) == json_string(b),
    ensures
        a == b,
{
    let quote = seq!['"'];
    assert(json_string(a) =~= quote + (json_escaped(a) + quote));
    assert(json_string(b) =~= quote + (json_escaped(b) + quote));
    lemma_cancel_prefix(quote, json_escaped(a) + quote, json_escaped(b) + quote);
    assert(json_escaped(a) =~= (json_escaped(a) + quote).drop_last());
    assert(json_escaped(b) =~= (json_escaped(b) + quote).drop_last());
    lemma_json_escaped_injective(a, b);
}

/// A text that begins with a given text and goes on in two ways goes on in
/// the same way where the whole is the same.
pub proof fn lemma_cancel_prefix(prefix: Seq<char>, x: Seq<char>, y: Seq<char>)
    requires
        prefix + x == prefix + y,
    ensures
        x == y,
{
    assert(x =~= (prefix + x).skip(prefix.len() as int));
    assert(y =~= (prefix + y).skip(prefix.len() as int));
}

/// A value is read off a text unambiguously: where two values that hold no
/// separator are each followed by a text that begins with one, and the wholes
/// are the same, the values are the same and so is what follows them.
pub proof fn lemma_split_value(x1: Seq<char>, y1: Seq<char>, x2: Seq<char>, y2: Seq<char>)
    requires
        is_unbroken(x1),
        is_unbroken(x2),
        y1.len() > 0 && is_separator(y1[0]),
        y2.len() > 0 && is_separator(y2[0]),
        x1 + y1 == x2 + y2,
    ensures
        x1 == x2,
        y1 == y2,
{
    let whole = x1 + y1;
    if x1.len() < x2.len() {
        assert(whole[x1.len() as int] == y1[0]);
        assert((x2 + y2)[x1.len() as int] == x2[x1.len() as int]);
        assert(false);
    }
    if x2.len() < x1.len() {
        assert((x2 + y2)[x2.len() as int] == y2[0]);
        assert(whole[x2.len() as int] == x1[x2.len() as int]);
        assert(false);
    }
    assert(x1 =~= whole.take(x1.len() as int));
    assert(x2 =~= (x2 + y2).take(x2.len() as int));
    assert(y1 =~= whole.skip(x1.len() as int));
    assert(y2 =~= (x2 + y2).skip(x2.len() as int));
}

/// What follows the repeat penalty in the payload.
pub open spec fn wire_tail(m: MetadataView) -> Seq<char> {
    match m.reverse_prompt {
        None => "}"@,
        Some(prompt) => ",\"reverse-prompt\":"@ + json_string(prompt) + "}"@,
    }
}

/// The payload, field by field from the front: each value is followed by the
/// rest of the payload.
proof fn lemma_wire_format_unfolds(m: MetadataView)
    ensures
        wire_format(m) == "{\"enable-log\":"@ + (bool_text(m.log_enable) + (",\"ctx-size\":"@ + (
        decimal(m.ctx_size as nat) + (",\"n-predict\":"@ + (decimal(m.n_predict as nat) + (
        ",\"n-gpu-layers\":"@ + (decimal(m.n_gpu_layers as nat) + (",\"batch-size\":"@ + (decimal(
            m.batch_size as nat,
        ) + (",\"temp\":"@ + (m.temp + (",\"repeat-penalty\":"@ + (m.repeat_penalty + wire_tail(
            m,
        )))))))))))))),
{
    let l0 = "{\"enable-log\":"@;
    let v0 = bool_text(m.log_enable);
    let l1 = ",\"ctx-size\":"@;
    let v1 = decimal(m.ctx_size as nat);
    let l2 = ",\"n-predict\":"@;
    let v2 = decimal(m.n_predict as nat);
    let l3 = ",\"n-gpu-layers\":"@;
    let v3 = decimal(m.n_gpu_layers as nat);
    let l4 = ",\"batch-size\":"@;
    let v4 = decimal(m.batch_size as nat);
    let l5 = ",\"temp\":"@;
    let v5 = m.temp;
    let l6 = ",\"repeat-penalty\":"@;
    let v6 = m.repeat_penalty;
    let t = wire_tail(m);
    let h1 = l0 + v0;
    let h2 = h1 + l1;
    let h3 = h2 + v1;
    let h4 = h3 + l2;
    let h5 = h4 + v2;
    let h6 = h5 + l3;
    let h7 = h6 + v3;
    let h8 = h7 + l4;
    let h9 = h8 + v4;
    let h10 = h9 + l5;
    let h11 = h10 + v5;
    let h12 = h11 + l6;
    let h13 = h12 + v6;
    assert(wire_head(m) == h13);
    assert(wire_format(m) == h13 + t) by {
        match m.reverse_prompt {
            None => {},
            Some(prompt) => {
                lemma_concat_assoc(h13, ",\"reverse-prompt\":"@, json_string(prompt));
                lemma_concat_assoc(h13, ",\"reverse-prompt\":"@ + json_string(prompt), "}"@);
            },
        }
    }
    let r13 = v6 + t;
    lemma_concat_assoc(h12, v6, t);
    let r12 = l6 + r13;
    lemma_concat_assoc(h11, l6, r13);
    let r11 = v5 + r12;
    lemma_concat_assoc(h10, v5, r12);
    let r10 = l5 + r11;
    lemma_concat_assoc(h9, l5, r11);
    let r9 = v4 + r10;
    lemma_concat_assoc(h8, v4, r10);
    let r8 = l4 + r9;
    lemma_concat_assoc(h7, l4, r9);
    let r7 = v3 + r8;
    lemma_concat_assoc(h6, v3, r8);
    let r6 = l3 + r7;
    lemma_concat_assoc(h5, l3, r7);
    let r5 = v2 + r6;
    lemma_concat_assoc(h4, v2, r6);
    let r4 = l2 + r5;
    lemma_concat_assoc(h3, l2, r5);
    let r3 = v1 + r4;
    lemma_concat_assoc(h2, v1, r4);
    let r2 = l1 + r3;
    lemma_concat_assoc(h1, l1, r3);
    let r1 = v0 + r2;
    lemma_concat_assoc(l0, v0, r2);
}

/// The words for the two truth values hold no separator and differ.
proof fn lemma_bool_text(b: bool)
    ensures
        is_unbroken(bool_text(b)),
        lacks(bool_text(b), 'v'),
        bool_text(b).len() == (if b {
            4int
        } else {
            5int
        }),
{
    reveal_strlit("true");
    reveal_strlit("false");
}

/// A number token holds no separator and no `v`.
proof fn lemma_token_unbroken(s: Seq<char>)
    requires
        crate::number::is_number_token(s),
    ensures
        is_unbroken(s),
        lacks(s, 'v'),
{
    lemma_token_chars(s);
    assert forall|i: int| 0 <= i < s.len() implies !is_separator(#[trigger] s[i]) by {
        assert(is_token_char(s[i]));
    }
    assert forall|i: int| 0 <= i < s.len() implies s[i] != 'v' by {
        assert(is_token_char(s[i]));
    }
}

/// The decimal digits of a number hold no separator and no `v`.
proof fn lemma_decimal_unbroken(n: nat)
    ensures
        is_unbroken(decimal(n)),
        lacks(decimal(n), 'v'),
{
    lemma_decimal_digits(n);
    assert forall|i: int| 0 <= i < decimal(n).len() implies !is_separator(
        #[trigger] decimal(n)[i],
    ) by {
        assert(is_digit(decimal(n)[i]));
    }
    assert forall|i: int| 0 <= i < decimal(n).len() implies decimal(n)[i] != 'v' by {
        assert(is_digit(decimal(n)[i]));
    }
}

/// Where the reverse prompt is unset, the payload does not name it: the
/// field is left out, not written with an empty value.
pub proof fn lemma_unset_reverse_prompt_is_absent(m: MetadataView)
    requires
        m.wf(),
        m.reverse_prompt is None,
    ensures
        !occurs("reverse-prompt"@, wire_format(m)),
{
    let needle = "reverse-prompt"@;
    let hay = wire_format(m);
    reveal_strlit("reverse-prompt");
    reveal_strlit("{\"enable-log\":");
    reveal_strlit(",\"ctx-size\":");
    reveal_strlit(",\"n-predict\":");
    reveal_strlit(",\"n-gpu-layers\":");
    reveal_strlit(",\"batch-size\":");
    reveal_strlit(",\"temp\":");
    reveal_strlit(",\"repeat-penalty\":");
    reveal_strlit("}");
    lemma_bool_text(m.log_enable);
    lemma_decimal_unbroken(m.ctx_size as nat);
    lemma_decimal_unbroken(m.n_predict as nat);
    lemma_decimal_unbroken(m.n_gpu_layers as nat);
    lemma_decimal_unbroken(m.batch_size as nat);
    lemma_token_unbroken(m.temp);
    lemma_token_unbroken(m.repeat_penalty);
    assert(lacks("{\"enable-log\":"@, 'v'));
    assert(lacks(",\"ctx-size\":"@, 'v'));
    assert(lacks(",\"n-predict\":"@, 'v'));
    assert(lacks(",\"n-gpu-layers\":"@, 'v'));
    assert(lacks(",\"batch-size\":"@, 'v'));
    assert(lacks(",\"temp\":"@, 'v'));
    assert(lacks(",\"repeat-penalty\":"@, 'v'));
    assert(lacks("}"@, 'v'));
    let a = "{\"enable-log\":"@ + bool_text(m.log_enable) + ",\"ctx-size\":"@ + decimal(
        m.ctx_size as nat,
    );
    assert(lacks(a, 'v'));
    let b = a + ",\"n-predict\":"@ + decimal(m.n_predict as nat) + ",\"n-gpu-layers\":"@ + decimal(
        m.n_gpu_layers as nat,
    );
    assert(lacks(b, 'v'));
    let c = b + ",\"batch-size\":"@ + decimal(m.batch_size as nat) + ",\"temp\":"@ + m.temp;
    assert(lacks(c, 'v'));
    assert(wire_head(m) == c + ",\"repeat-penalty\":"@ + m.repeat_penalty);
    assert(lacks(wire_head(m), 'v'));
    assert(lacks(hay, 'v'));
    if occurs(needle, hay) {
        let at = choose|at: int| occurs_at(needle, hay, at);
        assert(hay.subrange(at, at + needle.len())[2] == hay[at + 2]);
        assert(needle[2] == 'v');
        assert(false);
    }
}

/// Where the reverse prompt is set, the payload names it, behind every field
/// that is always there.
pub proof fn lemma_set_reverse_prompt_is_present(m: MetadataView)
    requires
        m.reverse_prompt is Some,
    ensures
        occurs_at(",\"reverse-prompt\":"@, wire_format(m), wire_head(m).len() as int),
        occurs(",\"reverse-prompt\":"@, wire_format(m)),
{
    let key = ",\"reverse-prompt\":"@;
    let head = wire_head(m);
    let hay = wire_format(m);
    let prompt = m.reverse_prompt->Some_0;
    assert(hay == head + key + json_string(prompt) + "}"@);
    assert(hay.subrange(head.len() as int, (head.len() + key.len()) as int) =~= key);
    assert(occurs_at(key, hay, head.len() as int));
}

/// The payload determines the configuration: two configurations with the
/// same payload agree in every field, so that reading the payload back gives
/// the configuration that was written.
pub proof fn lemma_payload_determines_fields(a: MetadataView, b: MetadataView)
    requires
        a.wf(),
        b.wf(),
        wire_format(a) == wire_format(b),
    ensures
        a.log_enable == b.log_enable,
        a.ctx_size == b.ctx_size,
        a.n_predict == b.n_predict,
        a.n_gpu_layers == b.n_gpu_layers,
        a.batch_size == b.batch_size,
        a.temp == b.temp,
        a.repeat_penalty == b.repeat_penalty,
        a.reverse_prompt == b.reverse_prompt,
        a == b,
{
    reveal_strlit("{\"enable-log\":");
    reveal_strlit(",\"ctx-size\":");
    reveal_strlit(",\"n-predict\":");
    reveal_strlit(",\"n-gpu-layers\":");
    reveal_strlit(",\"batch-size\":");
    reveal_strlit(",\"temp\":");
    reveal_strlit(",\"repeat-penalty\":");
    reveal_strlit(",\"reverse-prompt\":");
    reveal_strlit("}");
    lemma_wire_format_unfolds(a);
    lemma_wire_format_unfolds(b);
    let ta = wire_tail(a);
    let tb = wire_tail(b);
    assert(ta.len() > 0 && is_separator(ta[0])) by {
        match a.reverse_prompt {
            None => {},
            Some(p) => {
                assert(ta[0] == ",\"reverse-prompt\":"@[0]);
            },
        }
    }
    assert(tb.len() > 0 && is_separator(tb[0])) by {
        match b.reverse_prompt {
            None => {},
            Some(p) => {
                assert(tb[0] == ",\"reverse-prompt\":"@[0]);
            },
        }
    }
    let a6 = a.repeat_penalty + ta;
    let b6 = b.repeat_penalty + tb;
    let a5 = a.temp + (",\"repeat-penalty\":"@ + a6);
    let b5 = b.temp + (",\"repeat-penalty\":"@ + b6);
    let a4 = decimal(a.batch_size as nat) + (",\"temp\":"@ + a5);
    let b4 = decimal(b.batch_size as nat) + (",\"temp\":"@ + b5);
    let a3 = decimal(a.n_gpu_layers as nat) + (",\"batch-size\":"@ + a4);
    let b3 = decimal(b.n_gpu_layers as nat) + (",\"batch-size\":"@ + b4);
    let a2 = decimal(a.n_predict as nat) + (",\"n-gpu-layers\":"@ + a3);
    let b2 = decimal(b.n_predict as nat) + (",\"n-gpu-layers\":"@ + b3);
    let a1 = decimal(a.ctx_size as nat) + (",\"n-predict\":"@ + a2);
    let b1 = decimal(b.ctx_size as nat) + (",\"n-predict\":"@ + b2);
    let a0 = bool_text(a.log_enable) + (",\"ctx-size\":"@ + a1);
    let b0 = bool_text(b.log_enable) + (",\"ctx-size\":"@ + b1);

    lemma_cancel_prefix("{\"enable-log\":"@, a0, b0);
    lemma_bool_text(a.log_enable);
    lemma_bool_text(b.log_enable);
    lemma_split_value(
        bool_text(a.log_enable),
        ",\"ctx-size\":"@ + a1,
        bool_text(b.log_enable),
        ",\"ctx-size\":"@ + b1,
    );
    lemma_cancel_prefix(",\"ctx-size\":"@, a1, b1);

    lemma_decimal_unbroken(a.ctx_size as nat);
    lemma_decimal_unbroken(b.ctx_size as nat);
    lemma_split_value(
        decimal(a.ctx_size as nat),
        ",\"n-predict\":"@ + a2,
        decimal(b.ctx_size as nat),
        ",\"n-predict\":"@ + b2,
    );
    lemma_decimal_injective(a.ctx_size as nat, b.ctx_size as nat);
    lemma_cancel_prefix(",\"n-predict\":"@, a2, b2);

    lemma_decimal_unbroken(a.n_predict as nat);
    lemma_decimal_unbroken(b.n_predict as nat);
    lemma_split_value(
        decimal(a.n_predict as nat),
        ",\"n-gpu-layers\":"@ + a3,
        decimal(b.n_predict as nat),
        ",\"n-gpu-layers\":"@ + b3,
    );
    lemma_decimal_injective(a.n_predict as nat, b.n_predict as nat);
    lemma_cancel_prefix(",\"n-gpu-layers\":"@, a3, b3);

    lemma_decimal_unbroken(a.n_gpu_layers as nat);
    lemma_decimal_unbroken(b.n_gpu_layers as nat);
    lemma_split_value(
        decimal(a.n_gpu_layers as nat),
        ",\"batch-size\":"@ + a4,
        decimal(b.n_gpu_layers as nat),
        ",\"batch-size\":"@ + b4,
    );
    lemma_decimal_injective(a.n_gpu_layers as nat, b.n_gpu_layers as nat);
    lemma_cancel_prefix(",\"batch-size\":"@, a4, b4);

    lemma_decimal_unbroken(a.batch_size as nat);
    lemma_decimal_unbroken(b.batch_size as nat);
    lemma_split_value(
        decimal(a.batch_size as nat),
        ",\"temp\":"@ + a5,
        decimal(b.batch_size as nat),
        ",\"temp\":"@ + b5,
    );
    lemma_decimal_injective(a.batch_size as nat, b.batch_size as nat);
    lemma_cancel_prefix(",\"temp\":"@, a5, b5);

    lemma_token_unbroken(a.temp);
    lemma_token_unbroken(b.temp);
    lemma_split_value(a.temp, ",\"repeat-penalty\":"@ + a6, b.temp, ",\"repeat-penalty\":"@ + b6);
    lemma_cancel_prefix(",\"repeat-penalty\":"@, a6, b6);

    lemma_token_unbroken(a.repeat_penalty);
    lemma_token_unbroken(b.repeat_penalty);
    lemma_split_value(a.repeat_penalty, ta, b.repeat_penalty, tb);

    match (a.reverse_prompt, b.reverse_prompt) {
        (Some(p), Some(q)) => {
            let key = ",\"reverse-prompt\":"@;
            assert(ta =~= key + (json_string(p) + "}"@));
            assert(tb =~= key + (json_string(q) + "}"@));
            lemma_cancel_prefix(key, json_string(p) + "}"@, json_string(q) + "}"@);
            assert(json_string(p) =~= (json_string(p) + "}"@).drop_last());
            assert(json_string(q) =~= (json_string(q) + "}"@).drop_last());
            lemma_json_string_injective(p, q);
        },
        (Some(p), None) => {
            assert(ta[0] == ",\"reverse-prompt\":"@[0]);
            assert(false);
        },
        (None, Some(q)) => {
            assert(tb[0] == ",\"reverse-prompt\":"@[0]);
            assert(false);
        },
        (None, None) => {},
    }
}

} // verus!
