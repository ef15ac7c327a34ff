//! The JSON text that request bodies are made of: quoted strings, decimal
//! numbers, and the escaping rules that serde_json applies to strings.
use vstd::prelude::*;

verus! {

/// Texts separated by commas.
pub open spec fn comma_separated(items: Seq<Seq<char>>) -> Seq<char>
    decreases items.len(),
{
    if items.len() == 0 {
        Seq::empty()
    } else if items.len() == 1 {
        items[0]
    } else {
        comma_separated(items.drop_last()) + seq![','] + items.last()
    }
}

/// A member of a JSON object: the quoted name, a colon, and the value's JSON
/// text.
pub open spec fn json_member(field: (Seq<char>, Seq<char>)) -> Seq<char> {
    json_quote(field.0) + seq![':'] + field.1
}

/// The members of a JSON object, one per field, in order.
pub open spec fn json_members(fields: Seq<(Seq<char>, Seq<char>)>) -> Seq<Seq<char>> {
    Seq::new(fields.len(), |i: int| json_member(fields[i]))
}

/// A compact JSON object with the given fields, each a name and the JSON text
/// of its value, in order.
pub open spec fn json_object(fields: Seq<(Seq<char>, Seq<char>)>) -> Seq<char> {
    seq!['{'] + comma_separated(json_members(fields)) + seq!['}']
}

/// A compact JSON array of the given JSON texts, in order.
pub open spec fn json_array(items: Seq<Seq<char>>) -> Seq<char> {
    seq!['['] + comma_separated(items) + seq![']']
}

/// The JSON string literals of the given texts.
pub open spec fn json_quotes(items: Seq<Seq<char>>) -> Seq<Seq<char>> {
    Seq::new(items.len(), |i: int| json_quote(items[i]))
}

/// A text that serde_json writes into a string literal unchanged: no quote, no
/// backslash, no control character.
pub open spec fn is_plain(s: Seq<char>) -> bool {
    forall|i: int| 0 <= i < s.len() ==> #[trigger] s[i] != '"' && s[i] != '\\' && (s[i] as int) >= 0x20
}

/// A plain text is its own escape.
pub proof fn lemma_plain_unescaped(s: Seq<char>)
    requires
        is_plain(s),
    ensures
        json_escape(s) == s,
        json_quote(s) == seq!['"'] + s + seq!['"'],
    decreases s.len(),
{
    if s.len() > 0 {
        let front = s.drop_last();
        assert(is_plain(front)) by {
            assert forall|i: int| 0 <= i < front.len() implies #[trigger] front[i] != '"' && front[i] != '\\'
                && (front[i] as int) >= 0x20 by {
                assert(front[i] == s[i]);
            }
        }
        lemma_plain_unescaped(front);
        let c = s[s.len() - 1];
        assert(c != '"' && c != '\\' && (c as int) >= 0x20);
        assert(escape_char(c) =~= seq![c]);
        assert(s =~= front.push(c));
        assert(json_escape(s) =~= s);
    } else {
        assert(json_escape(s) =~= s);
    }
}

/// Appending a text to a comma-separated list adds a comma and the text.
pub proof fn lemma_comma_separated_push(items: Seq<Seq<char>>, x: Seq<char>)
    ensures
        comma_separated(items.push(x)) == if items.len() == 0 {
            x
        } else {
            comma_separated(items) + seq![','] + x
        },
{
    assert(items.push(x).drop_last() =~= items);
    assert(items.push(x).last() == x);
    if items.len() == 0 {
        assert(items.push(x)[0] == x);
    }
}

/// Appending a field to an object appends its member.
pub proof fn lemma_json_members_push(fields: Seq<(Seq<char>, Seq<char>)>, field: (Seq<char>, Seq<char>))
    ensures
        json_members(fields.push(field)) == json_members(fields).push(json_member(field)),
{
    assert(json_members(fields.push(field)) =~= json_members(fields).push(json_member(field)));
}

/// A single text stands alone, and joining two nonempty lists joins their
/// texts with one comma between them: every item is kept, in order.
pub proof fn law_comma_separated_concat(a: Seq<Seq<char>>, b: Seq<Seq<char>>)
    requires
        a.len() > 0,
        b.len() > 0,
    ensures
        comma_separated(seq![a[0]]) == a[0],
        comma_separated(a + b) == comma_separated(a) + seq![','] + comma_separated(b),
    decreases b.len(),
{
    if b.len() == 1 {
        assert((a + b).drop_last() =~= a);
        assert((a + b).last() == b[0]);
    } else {
        let front = b.drop_last();
        law_comma_separated_concat(a, front);
        assert((a + b).drop_last() =~= a + front);
        assert((a + b).last() == b.last());
        assert(comma_separated(a + b) =~= comma_separated(a) + seq![','] + comma_separated(b));
    }
}

/// The members of an object and the literals of a list are taken one for
/// one, in order.
pub proof fn law_members_elementwise(fields: Seq<(Seq<char>, Seq<char>)>, items: Seq<Seq<char>>)
    ensures
        json_members(fields).len() == fields.len(),
        forall|i: int| 0 <= i < fields.len() ==> #[trigger] json_members(fields)[i] == json_member(fields[i]),
        json_quotes(items).len() == items.len(),
        forall|i: int| 0 <= i < items.len() ==> #[trigger] json_quotes(items)[i] == json_quote(items[i]),
{
}

/// An object of one field, written out.
pub proof fn lemma_json_object_1(f0: (Seq<char>, Seq<char>))
    ensures
        json_object(seq![f0]) == seq!['{'] + json_member(f0) + seq!['}'],
{
    assert(json_members(seq![f0]) =~= seq![json_member(f0)]);
    assert(json_object(seq![f0]) =~= seq!['{'] + json_member(f0) + seq!['}']);
}

/// An object of two fields, written out.
pub proof fn lemma_json_object_2(f0: (Seq<char>, Seq<char>), f1: (Seq<char>, Seq<char>))
    ensures
        json_object(seq![f0, f1])
            == seq!['{'] + json_member(f0) + seq![','] + json_member(f1) + seq!['}'],
{
    assert(seq![f0, f1] =~= seq![f0].push(f1));
    lemma_json_members_push(seq![f0], f1);
    assert(json_members(seq![f0]) =~= seq![json_member(f0)]);
    lemma_comma_separated_push(seq![json_member(f0)], json_member(f1));
    assert(json_object(seq![f0, f1])
        =~= seq!['{'] + json_member(f0) + seq![','] + json_member(f1) + seq!['}']);
}

/// An object of five fields, written out.
pub proof fn lemma_json_object_5(
    f0: (Seq<char>, Seq<char>),
    f1: (Seq<char>, Seq<char>),
    f2: (Seq<char>, Seq<char>),
    f3: (Seq<char>, Seq<char>),
    f4: (Seq<char>, Seq<char>),
)
    ensures
        json_object(seq![f0, f1, f2, f3, f4]) == (seq!['{'] + json_member(f0)) + (seq![','] + json_member(f1))
            + (seq![','] + json_member(f2)) + (seq![','] + json_member(f3)) + (seq![','] + json_member(f4))
            + seq!['}'],
{
    let s1 = seq![f0];
    let s2 = s1.push(f1);
    let s3 = s2.push(f2);
    let s4 = s3.push(f3);
    let s5 = s4.push(f4);
    assert(seq![f0, f1, f2, f3, f4] =~= s5);
    assert(json_members(s1) =~= seq![json_member(f0)]);
    lemma_json_members_push(s1, f1);
    lemma_json_members_push(s2, f2);
    lemma_json_members_push(s3, f3);
    lemma_json_members_push(s4, f4);
    lemma_comma_separated_push(json_members(s1), json_member(f1));
    lemma_comma_separated_push(json_members(s2), json_member(f2));
    lemma_comma_separated_push(json_members(s3), json_member(f3));
    lemma_comma_separated_push(json_members(s4), json_member(f4));
    assert(json_object(s5) =~= (seq!['{'] + json_member(f0)) + (seq![','] + json_member(f1))
        + (seq![','] + json_member(f2)) + (seq![','] + json_member(f3)) + (seq![','] + json_member(f4))
        + seq!['}']);
}

/// The member of a field with a plain name, written out.
pub proof fn lemma_plain_member(name: Seq<char>, value: Seq<char>)
    requires
        is_plain(name),
    ensures
        json_member((name, value)) == seq!['"'] + name + seq!['"', ':'] + value,
{
    lemma_plain_unescaped(name);
    assert(json_member((name, value)) =~= seq!['"'] + name + seq!['"', ':'] + value);
}

/// Appending a text to a list appends its string literal.
pub proof fn lemma_json_quotes_push(items: Seq<Seq<char>>, x: Seq<char>)
    ensures
        json_quotes(items.push(x)) == json_quotes(items).push(json_quote(x)),
{
    assert(json_quotes(items.push(x)) =~= json_quotes(items).push(json_quote(x)));
}

/// A digit `0..=15` written as serde_json writes it in a `\u00XX` escape
/// (lower case).
pub open spec fn hex_digit(n: int) -> char {
    if n < 10 {
        (('0' as int) + n) as char
    } else {
        (('a' as int) + n - 10) as char
    }
}

/// How one character appears inside a JSON string literal written by
/// serde_json: the quote, the backslash and the control characters below
/// U+0020 are escaped, every other character stands as it is.
pub open spec fn escape_char(c: char) -> Seq<char> {
    if c == '"' {
        seq!['\\', '"']
    } else if c == '\\' {
        seq!['\\', '\\']
    } else if c == '\u{8}' {
        seq!['\\', 'b']
    } else if c == '\t' {
        seq!['\\', 't']
    } else if c == '\n' {
        seq!['\\', 'n']
    } else if c == '\u{c}' {
        seq!['\\', 'f']
    } else if c == '\r' {
        seq!['\\', 'r']
    } else if (c as int) < 0x20 {
        seq!['\\', 'u', '0', '0', hex_digit((c as int) / 16), hex_digit((c as int) % 16)]
    } else {
        seq![c]
    }
}

/// The escaped contents of a JSON string literal, character by character.
pub open spec fn json_escape(s: Seq<char>) -> Seq<char>
    decreases s.len(),
{
    if s.len() == 0 {
        Seq::empty()
    } else {
        json_escape(s.drop_last()) + escape_char(s.last())
    }
}

/// A JSON string literal: the escaped text between two quotes.
pub open spec fn json_quote(s: Seq<char>) -> Seq<char> {
    seq!['"'] + json_escape(s) + seq!['"']
}

/// The character of a decimal digit `0..=9`.
pub open spec fn digit_char(d: int) -> char {
    (('0' as int) + d) as char
}

/// The decimal representation of a natural number, without sign or leading
/// zeros, as JSON writes an unsigned number.
pub open spec fn decimal(n: nat) -> Seq<char>
    decreases n,
{
    if n < 10 {
        seq![digit_char(n as int)]
    } else {
        decimal(n / 10).push(digit_char((n % 10) as int))
    }
}

/// A JSON string literal is read from the front: its escaped text is the
/// escape of the first character followed by that of the rest.
proof fn lemma_escape_front(s: Seq<char>)
    requires
        s.len() > 0,
    ensures
        json_escape(s) == escape_char(s[0]) + json_escape(s.drop_first()),
    decreases s.len(),
{
    if s.len() == 1 {
        assert(s.drop_last() =~= Seq::<char>::empty());
        assert(s.drop_first() =~= Seq::<char>::empty());
        assert(json_escape(s.drop_first()) =~= Seq::<char>::empty());
        assert(json_escape(s) =~= escape_char(s[0]));
    } else {
        let front = s.drop_last();
        lemma_escape_front(front);
        assert(s.drop_first().drop_last() =~= front.drop_first());
        assert(s.drop_first().last() == s.last());
        assert(front[0] == s[0]);
        assert(json_escape(s) =~= escape_char(s[0]) + json_escape(s.drop_first()));
    }
}

/// Distinct digits have distinct hex characters.
proof fn lemma_hex_digit_injective(a: int, b: int)
    requires
        0 <= a < 16,
        0 <= b < 16,
        hex_digit(a) == hex_digit(b),
    ensures
        a == b,
{
    assert(hex_digit(a) as int == if a < 10 { 48 + a } else { 87 + a });
    assert(hex_digit(b) as int == if b < 10 { 48 + b } else { 87 + b });
}

/// The escape of a character is never empty, and the character is known from
/// the front of any text that starts with its escape.
proof fn lemma_escape_char_decodes(a: char, b: char, rest_a: Seq<char>, rest_b: Seq<char>)
    requires
        escape_char(a) + rest_a == escape_char(b) + rest_b,
    ensures
        a == b,
        rest_a == rest_b,
{
    let text = escape_char(a) + rest_a;
    assert(text == escape_char(b) + rest_b);
    assert(text[0] == escape_char(a)[0]);
    assert(text[0] == escape_char(b)[0]);
    if escape_char(a).len() >= 2 && escape_char(b).len() >= 2 {
        assert(text[1] == escape_char(a)[1]);
        assert(text[1] == escape_char(b)[1]);
        if escape_char(a).len() == 6 && escape_char(b).len() == 6 {
            assert(text[4] == escape_char(a)[4] && text[4] == escape_char(b)[4]);
            assert(text[5] == escape_char(a)[5] && text[5] == escape_char(b)[5]);
            lemma_hex_digit_injective((a as int) / 16, (b as int) / 16);
            lemma_hex_digit_injective((a as int) % 16, (b as int) % 16);
            assert(a as int == b as int);
        }
    }
    assert(a == b);
    assert(rest_a =~= text.skip(escape_char(a).len() as int));
    assert(rest_b =~= text.skip(escape_char(b).len() as int));
}

/// Distinct texts have distinct escapes.
proof fn lemma_escape_injective(a: Seq<char>, b: Seq<char>)
    requires
        json_escape(a) == json_escape(b),
    ensures
        a == b,
    decreases a.len(),
{
    if a.len() == 0 || b.len() == 0 {
        if a.len() > 0 {
            lemma_escape_front(a);
            assert(escape_char(a[0]).len() >= 1);
            assert(json_escape(b) =~= Seq::<char>::empty());
        }
        if b.len() > 0 {
            lemma_escape_front(b);
            assert(escape_char(b[0]).len() >= 1);
            assert(json_escape(a) =~= Seq::<char>::empty());
        }
        assert(a =~= b);
    } else {
        lemma_escape_front(a);
        lemma_escape_front(b);
        lemma_escape_char_decodes(a[0], b[0], json_escape(a.drop_first()), json_escape(b.drop_first()));
        lemma_escape_injective(a.drop_first(), b.drop_first());
        assert(a =~= seq![a[0]] + a.drop_first());
        assert(b =~= seq![b[0]] + b.drop_first());
    }
}

/// Distinct texts have distinct JSON string literals: the text of a quoted
/// string is recovered from it.
pub proof fn law_json_quote_injective(a: Seq<char>, b: Seq<char>)
    requires
        json_quote(a) == json_quote(b),
    ensures
        a == b,
{
    assert(json_escape(a) =~= json_quote(a).subrange(1, json_quote(a).len() - 1));
    assert(json_escape(b) =~= json_quote(b).subrange(1, json_quote(b).len() - 1));
    lemma_escape_injective(a, b);
}

/// A JSON string literal ends at its closing quote: where text starts with a
/// quoted string, the string and what follows it are both determined.
pub proof fn law_json_quote_prefix_free(a: Seq<char>, b: Seq<char>, rest_a: Seq<char>, rest_b: Seq<char>)
    requires
        json_quote(a) + rest_a == json_quote(b) + rest_b,
    ensures
        a == b,
        rest_a == rest_b,
{
    let ta = json_escape(a) + (seq!['"'] + rest_a);
    let tb = json_escape(b) + (seq!['"'] + rest_b);
    assert(ta =~= (json_quote(a) + rest_a).drop_first());
    assert(tb =~= (json_quote(b) + rest_b).drop_first());
    lemma_escape_prefix_free(a, b, seq!['"'] + rest_a, seq!['"'] + rest_b);
    assert(rest_a =~= (seq!['"'] + rest_a).drop_first());
    assert(rest_b =~= (seq!['"'] + rest_b).drop_first());
}

/// The escaped text of a string followed by a quote determines the string.
proof fn lemma_escape_prefix_free(a: Seq<char>, b: Seq<char>, rest_a: Seq<char>, rest_b: Seq<char>)
    requires
        json_escape(a) + rest_a == json_escape(b) + rest_b,
        rest_a.len() > 0 && rest_a[0] == '"',
        rest_b.len() > 0 && rest_b[0] == '"',
    ensures
        a == b,
        rest_a == rest_b,
    decreases a.len(),
{
    if a.len() == 0 && b.len() == 0 {
        assert(json_escape(a) =~= Seq::<char>::empty());
        assert(json_escape(b) =~= Seq::<char>::empty());
        assert(rest_a =~= json_escape(a) + rest_a);
        assert(rest_b =~= json_escape(b) + rest_b);
    } else if a.len() == 0 {
        lemma_escape_front(b);
        assert(json_escape(a) =~= Seq::<char>::empty());
        assert((json_escape(a) + rest_a)[0] == '"');
        assert((json_escape(b) + rest_b)[0] == escape_char(b[0])[0]);
    } else if b.len() == 0 {
        lemma_escape_front(a);
        assert(json_escape(b) =~= Seq::<char>::empty());
        assert((json_escape(b) + rest_b)[0] == '"');
        assert((json_escape(a) + rest_a)[0] == escape_char(a[0])[0]);
    } else {
        lemma_escape_front(a);
        lemma_escape_front(b);
        assert(escape_char(a[0]) + (json_escape(a.drop_first()) + rest_a)
            =~= json_escape(a) + rest_a);
        assert(escape_char(b[0]) + (json_escape(b.drop_first()) + rest_b)
            =~= json_escape(b) + rest_b);
        lemma_escape_char_decodes(a[0], b[0], json_escape(a.drop_first()) + rest_a, json_escape(b.drop_first()) + rest_b);
        lemma_escape_prefix_free(a.drop_first(), b.drop_first(), rest_a, rest_b);
        assert(a =~= seq![a[0]] + a.drop_first());
        assert(b =~= seq![b[0]] + b.drop_first());
    }
}

/// Distinct numbers have distinct decimal representations.
pub proof fn law_decimal_injective(a: nat, b: nat)
    requires
        decimal(a) == decimal(b),
    ensures
        a == b,
    decreases a,
{
    let da = decimal(a);
    assert(da.last() == digit_char((a % 10) as int));
    assert(decimal(b).last() == digit_char((b % 10) as int));
    assert((a % 10) == (b % 10)) by {
        assert(digit_char((a % 10) as int) as int == 48 + a % 10);
        assert(digit_char((b % 10) as int) as int == 48 + b % 10);
    }
    if a >= 10 && b >= 10 {
        assert(decimal(a / 10) =~= da.drop_last());
        assert(decimal(b / 10) =~= decimal(b).drop_last());
        law_decimal_injective(a / 10, b / 10);
    } else if a >= 10 {
        lemma_decimal_long(a / 10);
        assert(da.len() >= 2);
    } else if b >= 10 {
        lemma_decimal_long(b / 10);
        assert(decimal(b).len() >= 2);
    }
}

/// The number that a text of decimal digits denotes.
pub open spec fn decimal_value(s: Seq<char>) -> int
    decreases s.len(),
{
    if s.len() == 0 {
        0
    } else {
        decimal_value(s.drop_last()) * 10 + (s.last() as int - '0' as int)
    }
}

/// The decimal representation of a number is made of digits and denotes the
/// number.
pub proof fn law_decimal_denotes(n: nat)
    ensures
        decimal_value(decimal(n)) == n,
        forall|i: int| 0 <= i < decimal(n).len() ==> '0' <= #[trigger] decimal(n)[i] <= '9',
    decreases n,
{
    let d = decimal(n);
    if n >= 10 {
        law_decimal_denotes(n / 10);
        assert(d.drop_last() =~= decimal(n / 10));
        assert(d.last() as int == '0' as int + n % 10);
        assert(decimal_value(d) == decimal_value(d.drop_last()) * 10 + (d.last() as int - '0' as int));
        assert(n == (n / 10) * 10 + n % 10);
        assert forall|i: int| 0 <= i < d.len() implies '0' <= #[trigger] d[i] <= '9' by {
            if i < d.len() - 1 {
                assert(d[i] == decimal(n / 10)[i]);
            }
        }
    } else {
        assert(d.drop_last() =~= Seq::<char>::empty());
        assert(d.last() as int == '0' as int + n);
        assert(decimal_value(d) == decimal_value(d.drop_last()) * 10 + (d.last() as int - '0' as int));
    }
}

/// A decimal representation is never empty.
proof fn lemma_decimal_long(n: nat)
    ensures
        decimal(n).len() >= 1,
    decreases n,
{
    if n >= 10 {
        lemma_decimal_long(n / 10);
    }
}

/// `serde_json::to_string` on a string slice. Its source (`format_escaped_str`
/// with the `ESCAPE` table and `write_char_escape` in ser.rs) writes a quote,
/// the text with the characters of `escape_char` replaced, and a quote;
/// serialising a `str` into a `Vec<u8>` cannot fail, so the error arm is
/// never taken.
#[verifier::external_body]
fn serde_json_quote(s: &str) -> (quoted: String)
    ensures
        quoted@ == json_quote(s@),
{
    match serde_json::to_string(s) {
        Ok(text) => text,
        Err(_) => String::new(),
    }
}

/// Appends the JSON string literal of `s` to `out`.
pub fn push_json_string(out: &mut String, s: &str)
    ensures
        final(out)@ == old(out)@ + json_quote(s@),
{
    let quoted = serde_json_quote(s);
    out.append(quoted.as_str());
}

/// A decimal digit as a one-character string.
fn digit_str(d: usize) -> (s: &'static str)
    requires
        d < 10,
    ensures
        s@ == seq![digit_char(d as int)],
{
    if d == 0 {
        proof { reveal_strlit("0"); }
        "0"
    } else if d == 1 {
        proof { reveal_strlit("1"); }
        "1"
    } else if d == 2 {
        proof { reveal_strlit("2"); }
        "2"
    } else if d == 3 {
        proof { reveal_strlit("3"); }
        "3"
    } else if d == 4 {
        proof { reveal_strlit("4"); }
        "4"
    } else if d == 5 {
        proof { reveal_strlit("5"); }
        "5"
    } else if d == 6 {
        proof { reveal_strlit("6"); }
        "6"
    } else if d == 7 {
        proof { reveal_strlit("7"); }
        "7"
    } else if d == 8 {
        proof { reveal_strlit("8"); }
        "8"
    } else {
        proof { reveal_strlit("9"); }
        "9"
    }
}

/// Appends the decimal representation of `n` to `out`, as a JSON number.
pub fn push_decimal(out: &mut String, n: usize)
    ensures
        final(out)@ == old(out)@ + decimal(n as nat),
    decreases n,
{
    if n >= 10 {
        push_decimal(out, n / 10);
    }
    out.append(digit_str(n % 10));
    assert(out@ =~= old(out)@ + decimal(n as nat)) by {
        if n >= 10 {
            assert(decimal(n as nat) == decimal((n / 10) as nat).push(digit_char((n % 10) as int)));
        }
    }
}

} // verus!
