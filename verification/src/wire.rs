//! Text building blocks shared by the wire formats: decimal numbers, JSON
//! string literals, objects and arrays, and small string helpers.
use vstd::prelude::*;

verus! {

/// A lower-case hexadecimal digit for a value below 16.
pub open spec fn hex_digit_char(d: nat) -> char {
    if d < 10 {
        (48 + d) as char
    } else {
        (87 + d) as char
    }
}

/// How one character is written inside a JSON string literal: `"` and `\`
/// behind a backslash; backspace, tab, line feed, form feed and carriage
/// return as `\b`, `\t`, `\n`, `\f`, `\r`; the other control characters
/// below U+0020 as `\u00` and two lower-case hexadecimal digits; every other
/// character as itself.
pub open spec fn json_escape_char(c: char) -> Seq<char> {
    if c == '"' {
        seq!['\\', '"']
    } else if c == '\\' {
        seq!['\\', '\\']
    } else if c == '\x08' {
        seq!['\\', 'b']
    } else if c == '\t' {
        seq!['\\', 't']
    } else if c == '\n' {
        seq!['\\', 'n']
    } else if c == '\x0c' {
        seq!['\\', 'f']
    } else if c == '\r' {
        seq!['\\', 'r']
    } else if (c as u32) < 0x20 {
        seq!['\\', 'u', '0', '0', hex_digit_char((c as nat) / 16), hex_digit_char((c as nat) % 16)]
    } else {
        seq![c]
    }
}

/// The characters of a string, each written as in a JSON string literal.
pub open spec fn json_escape(s: Seq<char>) -> Seq<char>
    decreases s.len(),
{
    if s.len() == 0 {
        Seq::empty()
    } else {
        json_escape(s.drop_last()) + json_escape_char(s.last())
    }
}

/// A string as a JSON string literal: its characters escaped, between
/// double quotes.
pub open spec fn json_str(s: Seq<char>) -> Seq<char> {
    seq!['"'] + json_escape(s) + seq!['"']
}

/// Renders `s` as a JSON string literal by calling `serde_json::to_string`.
/// Trusted: serde_json writes a `str` between double quotes and escapes its
/// characters by the table `json_escape_char` states (`ESCAPE` and
/// `write_char_escape` in its serializer); serialising a `str` into memory
/// cannot fail, so the error arm is never taken.
#[verifier::external_body]
pub(crate) fn quote_json(s: &str) -> (r: String)
    ensures
        r@ == json_str(s@),
{
    match serde_json::to_string(s) {
        Ok(t) => t,
        Err(_) => String::new(),
    }
}

/// `<str as PartialEq>::eq`. Trusted: two string slices are equal exactly
/// when they hold the same characters.
#[verifier::external_body]
pub(crate) fn str_eq(a: &str, b: &str) -> (r: bool)
    ensures
        r == (a@ == b@),
{
    a == b
}

/// `String::push`. Trusted: the character is appended at the end.
#[verifier::external_body]
pub(crate) fn push_char(s: &mut String, c: char)
    ensures
        final(s)@ == old(s)@.push(c),
{
    s.push(c)
}

/// The character for a decimal digit.
pub open spec fn digit_char(d: nat) -> char {
    (48 + d) as char
}

/// Decimal representation of a natural number, without leading zeros.
pub open spec fn decimal(n: nat) -> Seq<char>
    decreases n,
{
    if n < 10 {
        seq![digit_char(n)]
    } else {
        decimal(n / 10).push(digit_char(n % 10))
    }
}

/// Decimal representation of an integer, with a leading `-` when negative.
pub open spec fn decimal_int(n: int) -> Seq<char> {
    if n < 0 {
        seq!['-'] + decimal((-n) as nat)
    } else {
        decimal(n as nat)
    }
}

/// `n` zero characters.
pub open spec fn zeros(n: nat) -> Seq<char> {
    Seq::new(n, |i: int| '0')
}

/// Decimal representation padded on the left with zeros to `width` characters.
pub open spec fn zero_padded(n: nat, width: nat) -> Seq<char> {
    if decimal(n).len() >= width {
        decimal(n)
    } else {
        zeros((width - decimal(n).len()) as nat) + decimal(n)
    }
}

/// Every character of a decimal representation is an ASCII digit.
pub proof fn lemma_decimal_digits(n: nat)
    ensures
        decimal(n).len() >= 1,
        forall|i: int| 0 <= i < decimal(n).len() ==> '0' <= #[trigger] decimal(n)[i] <= '9',
    decreases n,
{
    if n >= 10 {
        lemma_decimal_digits(n / 10);
        assert forall|i: int| 0 <= i < decimal(n).len() implies '0' <= #[trigger] decimal(n)[i]
            <= '9' by {
            if i < decimal(n / 10).len() {
                assert(decimal(n)[i] == decimal(n / 10)[i]);
            }
        }
    }
}

/// Numbers below `10^k` have at most `k` digits.
pub proof fn lemma_decimal_len_bound(n: nat, k: nat, p: nat)
    requires
        k >= 1,
        p == pow10(k),
        n < p,
    ensures
        decimal(n).len() <= k,
    decreases k,
{
    if n >= 10 {
        assert(k >= 2) by {
            if k == 1 {
                assert(pow10(1) == 10 * pow10(0));
            }
        }
        assert(pow10(k) == 10 * pow10((k - 1) as nat));
        lemma_decimal_len_bound(n / 10, (k - 1) as nat, pow10((k - 1) as nat));
    }
}

/// Numbers at least `10^(k-1)` have at least `k` digits.
pub proof fn lemma_decimal_len_lower(n: nat, k: nat)
    requires
        k >= 1,
        n >= pow10((k - 1) as nat),
    ensures
        decimal(n).len() >= k,
    decreases k,
{
    if k >= 2 {
        assert(pow10((k - 1) as nat) == 10 * pow10((k - 2) as nat));
        lemma_decimal_len_lower(n / 10, (k - 1) as nat);
    }
}

/// Powers of ten.
pub open spec fn pow10(k: nat) -> nat
    decreases k,
{
    if k == 0 {
        1
    } else {
        10 * pow10((k - 1) as nat)
    }
}

/// Appends the decimal representation of `n`.
pub fn push_decimal(s: &mut String, n: u64)
    ensures
        final(s)@ == old(s)@ + decimal(n as nat),
    decreases n,
{
    if n >= 10 {
        push_decimal(s, n / 10);
    }
    let d: u8 = (n % 10) as u8;
    let c = (48u8 + d) as char;
    push_char(s, c);
    proof {
        assert(c == digit_char((n % 10) as nat));
        if n >= 10 {
            assert(decimal(n as nat) == decimal((n / 10) as nat).push(digit_char((n % 10) as nat)));
        }
    }
}

/// Appends the decimal representation of a signed number.
pub fn push_decimal_i64(s: &mut String, n: i64)
    ensures
        final(s)@ == old(s)@ + decimal_int(n as int),
{
    if n < 0 {
        push_char(s, '-');
        let m: u64 = if n == i64::MIN {
            9223372036854775808u64
        } else {
            (-n) as u64
        };
        push_decimal(s, m);
    } else {
        push_decimal(s, n as u64);
    }
}

/// Appends `n` padded with leading zeros to `width` characters.
pub fn push_zero_padded(s: &mut String, n: u64, width: usize)
    ensures
        final(s)@ == old(s)@ + zero_padded(n as nat, width as nat),
{
    let ghost start = s@;
    let mut digits = String::new();
    push_decimal(&mut digits, n);
    let len = digits.as_str().unicode_len();
    if len < width {
        let pad = width - len;
        let mut i: usize = 0;
        while i < pad
            invariant
                i <= pad,
                s@ == start + zeros(i as nat),
            decreases pad - i,
        {
            push_char(s, '0');
            i += 1;
            assert(s@ =~= start + zeros(i as nat));
        }
    }
    s.append(digits.as_str());
    assert(s@ =~= start + zero_padded(n as nat, width as nat));
}

/// The text of `true` or `false`.
pub open spec fn json_bool(b: bool) -> Seq<char> {
    if b {
        "true"@
    } else {
        "false"@
    }
}

/// Renders a boolean as JSON.
pub fn render_bool(b: bool) -> (r: String)
    ensures
        r@ == json_bool(b),
{
    if b {
        "true".to_string()
    } else {
        "false".to_string()
    }
}

/// Renders an unsigned number as JSON.
pub fn render_u64(n: u64) -> (r: String)
    ensures
        r@ == decimal(n as nat),
{
    let mut s = String::new();
    push_decimal(&mut s, n);
    s
}

/// Renders a signed number as JSON.
pub fn render_i64(n: i64) -> (r: String)
    ensures
        r@ == decimal_int(n as int),
{
    let mut s = String::new();
    push_decimal_i64(&mut s, n);
    s
}

/// Renders a string as a JSON string literal.
pub fn render_str(s: &str) -> (r: String)
    ensures
        r@ == json_str(s@),
{
    quote_json(s)
}

/// Parts separated by commas.
pub open spec fn comma_join(parts: Seq<Seq<char>>) -> Seq<char>
    decreases parts.len(),
{
    if parts.len() == 0 {
        Seq::empty()
    } else if parts.len() == 1 {
        parts[0]
    } else {
        comma_join(parts.drop_last()) + seq![','] + parts.last()
    }
}

/// One `"key":value` member of a JSON object; `value` is already rendered.
pub open spec fn json_member(key: Seq<char>, value: Seq<char>) -> Seq<char> {
    json_str(key) + seq![':'] + value
}

/// The members of an object, each rendered.
pub open spec fn rendered_members(ms: Seq<(Seq<char>, Seq<char>)>) -> Seq<Seq<char>> {
    ms.map_values(|m: (Seq<char>, Seq<char>)| json_member(m.0, m.1))
}

/// A JSON object with the given members, in the given order.
pub open spec fn json_object(ms: Seq<(Seq<char>, Seq<char>)>) -> Seq<char> {
    seq!['{'] + comma_join(rendered_members(ms)) + seq!['}']
}

/// A JSON array of already rendered items.
pub open spec fn json_array(items: Seq<Seq<char>>) -> Seq<char> {
    seq!['['] + comma_join(items) + seq![']']
}

/// The texts of a list of strings.
pub open spec fn texts(v: Seq<String>) -> Seq<Seq<char>> {
    v.map_values(|s: String| s@)
}

/// The key and value texts of a list of members.
pub open spec fn member_texts(v: Seq<(String, String)>) -> Seq<(Seq<char>, Seq<char>)> {
    v.map_values(|m: (String, String)| (m.0@, m.1@))
}

/// Appends the parts, separated by commas.
pub fn push_comma_joined(out: &mut String, parts: &Vec<String>)
    ensures
        final(out)@ == old(out)@ + comma_join(texts(parts@)),
{
    let ghost start = out@;
    let ghost tv = texts(parts@);
    let mut i: usize = 0;
    while i < parts.len()
        invariant
            i <= parts.len(),
            tv == texts(parts@),
            out@ == start + comma_join(tv.take(i as int)),
        decreases parts.len() - i,
    {
        if i > 0 {
            push_char(out, ',');
        }
        out.append(parts[i].as_str());
        proof {
            let t1 = tv.take(i + 1);
            assert(t1.drop_last() =~= tv.take(i as int));
            assert(t1.last() == parts@[i as int]@);
            if i == 0 {
                assert(comma_join(tv.take(0)) =~= Seq::<char>::empty());
            }
        }
        i += 1;
        assert(out@ =~= start + comma_join(tv.take(i as int)));
    }
    assert(tv.take(parts.len() as int) =~= tv);
}

/// Renders a JSON array from already rendered items.
pub fn render_array(items: &Vec<String>) -> (r: String)
    ensures
        r@ == json_array(texts(items@)),
{
    let mut out = String::new();
    push_char(&mut out, '[');
    push_comma_joined(&mut out, items);
    push_char(&mut out, ']');
    assert(out@ =~= json_array(texts(items@)));
    out
}

/// Renders a JSON object from keys and already rendered values.
pub fn render_object(members: &Vec<(String, String)>) -> (r: String)
    ensures
        r@ == json_object(member_texts(members@)),
{
    let mut parts: Vec<String> = Vec::new();
    let mut i: usize = 0;
    while i < members.len()
        invariant
            i <= members.len(),
            parts@.len() == i,
            forall|j: int|
                0 <= j < i ==> #[trigger] parts@[j]@ == json_member(
                    members@[j].0@,
                    members@[j].1@,
                ),
        decreases members.len() - i,
    {
        let mut m = quote_json(members[i].0.as_str());
        push_char(&mut m, ':');
        m.append(members[i].1.as_str());
        parts.push(m);
        i += 1;
    }
    assert(texts(parts@) =~= rendered_members(member_texts(members@)));
    let mut out = String::new();
    push_char(&mut out, '{');
    push_comma_joined(&mut out, &parts);
    push_char(&mut out, '}');
    assert(out@ =~= json_object(member_texts(members@)));
    out
}

} // verus!
