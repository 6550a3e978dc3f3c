//! A small JSON document model: the shape in which configuration is
//! persisted. The printer is exact (its output is pinned by `jprint`);
//! the parser accepts standard JSON with integer numbers and returns
//! `None` on anything malformed.

use vstd::prelude::*;
use vstd::string::StrSliceExecFns;
use vstd::string::StringExecFns;

verus! {

/// A JSON value as held at run time.
#[derive(Debug)]
pub enum Json {
    Null,
    Bool(bool),
    Int(i64),
    Str(String),
    Arr(Vec<Json>),
    Obj(Vec<(String, Json)>),
}

/// The mathematical model of a JSON value.
#[verifier::ext_equal]
pub enum JVal {
    Null,
    Bool(bool),
    Int(i64),
    Str(Seq<char>),
    Arr(Seq<JVal>),
    Obj(Seq<(Seq<char>, JVal)>),
}

/// The views of a run-time value sequence.
pub open spec fn jvals_of(s: Seq<Json>) -> Seq<JVal>
    decreases s,
{
    if s.len() == 0 {
        Seq::empty()
    } else {
        jvals_of(s.drop_last()).push(s.last()@)
    }
}

/// The views of a run-time object entry list.
pub open spec fn jentries_of(s: Seq<(String, Json)>) -> Seq<(Seq<char>, JVal)>
    decreases s,
{
    if s.len() == 0 {
        Seq::empty()
    } else {
        jentries_of(s.drop_last()).push((s.last().0@, s.last().1@))
    }
}

impl View for Json {
    type V = JVal;

    open spec fn view(&self) -> JVal
        decreases self,
    {
        match self {
            Json::Null => JVal::Null,
            Json::Bool(b) => JVal::Bool(*b),
            Json::Int(i) => JVal::Int(*i),
            Json::Str(s) => JVal::Str(s@),
            Json::Arr(v) => JVal::Arr(jvals_of(v@)),
            Json::Obj(v) => JVal::Obj(jentries_of(v@)),
        }
    }
}

/// `jvals_of` is the elementwise view of the sequence.
pub proof fn lemma_jvals_of(s: Seq<Json>)
    ensures
        jvals_of(s).len() == s.len(),
        forall|i: int| 0 <= i < s.len() ==> jvals_of(s)[i] == #[trigger] s[i]@,
    decreases s,
{
    if s.len() > 0 {
        lemma_jvals_of(s.drop_last());
        let inner = jvals_of(s.drop_last());
        assert(jvals_of(s) == inner.push(s.last()@));
        assert forall|i: int| 0 <= i < s.len() implies jvals_of(s)[i] == #[trigger] s[i]@ by {
            if i < s.len() - 1 {
                assert(s.drop_last()[i] == s[i]);
                assert(inner[i] == s.drop_last()[i]@);
                assert(inner.push(s.last()@)[i] == inner[i]);
            } else {
                assert(inner.push(s.last()@)[i] == s.last()@);
                assert(s.last() == s[i]);
            }
        }
    }
}

/// `jentries_of` is the elementwise view of the sequence of entries.
pub proof fn lemma_jentries_of(s: Seq<(String, Json)>)
    ensures
        jentries_of(s).len() == s.len(),
        forall|i: int|
            0 <= i < s.len() ==> jentries_of(s)[i] == (#[trigger] s[i].0@, s[i].1@),
    decreases s,
{
    if s.len() > 0 {
        lemma_jentries_of(s.drop_last());
        let inner = jentries_of(s.drop_last());
        let tail = (s.last().0@, s.last().1@);
        assert(jentries_of(s) == inner.push(tail));
        assert forall|i: int|
            0 <= i < s.len() implies jentries_of(s)[i] == (#[trigger] s[i].0@, s[i].1@) by {
            if i < s.len() - 1 {
                assert(s.drop_last()[i] == s[i]);
                assert(inner[i] == (s.drop_last()[i].0@, s.drop_last()[i].1@));
                assert(inner.push(tail)[i] == inner[i]);
            } else {
                assert(inner.push(tail)[i] == tail);
                assert(s.last() == s[i]);
            }
        }
    }
}

/// Appends one character to a string.
///
/// Relies on `String::push`: appends exactly the given character.
#[verifier::external_body]
fn push_char(out: &mut String, c: char) -> (u: ())
    ensures
        final(out)@ == old(out)@.push(c),
{
    out.push(c)
}

/// The decimal digit `d` as a character.
pub open spec fn digit_char(d: int) -> char {
    if d == 0 { '0' } else if d == 1 { '1' } else if d == 2 { '2' } else if d == 3 { '3' }
    else if d == 4 { '4' } else if d == 5 { '5' } else if d == 6 { '6' } else if d == 7 { '7' }
    else if d == 8 { '8' } else { '9' }
}

/// The decimal rendering of a non-negative integer, without sign.
pub open spec fn dec_str_nat(n: nat) -> Seq<char>
    decreases n,
{
    if n < 10 {
        seq![digit_char(n as int)]
    } else {
        dec_str_nat(n / 10).push(digit_char((n % 10) as int))
    }
}

/// The decimal rendering of a signed integer.
pub open spec fn dec_str_i64(n: i64) -> Seq<char> {
    if n < 0 {
        seq!['-'] + dec_str_nat((-(n as int)) as nat)
    } else {
        dec_str_nat(n as nat)
    }
}

fn digit_of(d: u64) -> (c: char)
    requires
        d < 10,
    ensures
        c == digit_char(d as int),
{
    match d {
        0 => '0',
        1 => '1',
        2 => '2',
        3 => '3',
        4 => '4',
        5 => '5',
        6 => '6',
        7 => '7',
        8 => '8',
        _ => '9',
    }
}

/// Appends the decimal form of `n` to `out`.
pub fn push_u64_dec(n: u64, out: &mut String)
    ensures
        final(out)@ == old(out)@ + dec_str_nat(n as nat),
    decreases n,
{
    if n < 10 {
        push_char(out, digit_of(n));
    } else {
        push_u64_dec(n / 10, out);
        push_char(out, digit_of(n % 10));
    }
}

/// Appends the decimal form of `n` to `out`, with a sign when negative.
pub fn push_i64_dec(n: i64, out: &mut String)
    ensures
        final(out)@ == old(out)@ + dec_str_i64(n),
{
    if n < 0 {
        push_char(out, '-');
        let mag: u64 = if n == i64::MIN {
            9223372036854775808u64
        } else {
            (-n) as u64
        };
        proof {
            assert(mag as nat == (-(n as int)) as nat);
        }
        push_u64_dec(mag, out);
    } else {
        push_u64_dec(n as u64, out);
    }
}

/// The hexadecimal digit `d` as a lower-case character.
pub open spec fn hex_char(d: int) -> char {
    if d < 10 { digit_char(d) }
    else if d == 10 { 'a' } else if d == 11 { 'b' } else if d == 12 { 'c' }
    else if d == 13 { 'd' } else if d == 14 { 'e' } else { 'f' }
}

fn hex_of(d: u32) -> (c: char)
    requires
        d < 16,
    ensures
        c == hex_char(d as int),
{
    match d {
        0 => '0', 1 => '1', 2 => '2', 3 => '3', 4 => '4',
        5 => '5', 6 => '6', 7 => '7', 8 => '8', 9 => '9',
        10 => 'a', 11 => 'b', 12 => 'c', 13 => 'd', 14 => 'e',
        _ => 'f',
    }
}

/// How one character is written inside a JSON string literal.
pub open spec fn esc_char(c: char) -> Seq<char> {
    if c == '"' { seq!['\\', '"'] }
    else if c == '\\' { seq!['\\', '\\'] }
    else if c == '\n' { seq!['\\', 'n'] }
    else if c == '\r' { seq!['\\', 'r'] }
    else if c == '\t' { seq!['\\', 't'] }
    else if (c as u32) < 32 {
        seq!['\\', 'u', '0', '0', hex_char(c as u32 as int / 16), hex_char(c as u32 as int % 16)]
    } else {
        seq![c]
    }
}

/// How a whole string body is written inside a JSON string literal.
pub open spec fn esc_str(s: Seq<char>) -> Seq<char>
    decreases s,
{
    if s.len() == 0 {
        Seq::empty()
    } else {
        esc_str(s.drop_last()) + esc_char(s.last())
    }
}

/// The exact text that the printer emits for a JSON value.
pub open spec fn jprint(v: JVal) -> Seq<char>
    decreases v,
{
    match v {
        JVal::Null => seq!['n', 'u', 'l', 'l'],
        JVal::Bool(b) => if b {
            seq!['t', 'r', 'u', 'e']
        } else {
            seq!['f', 'a', 'l', 's', 'e']
        },
        JVal::Int(i) => dec_str_i64(i),
        JVal::Str(s) => seq!['"'] + esc_str(s) + seq!['"'],
        JVal::Arr(a) => seq!['['] + jprint_items(a) + seq![']'],
        JVal::Obj(o) => seq!['{'] + jprint_entries(o) + seq!['}'],
    }
}

/// The comma-separated bodies of an array.
pub open spec fn jprint_items(a: Seq<JVal>) -> Seq<char>
    decreases a,
{
    if a.len() == 0 {
        Seq::empty()
    } else if a.len() == 1 {
        jprint(a.last())
    } else {
        jprint_items(a.drop_last()) + seq![','] + jprint(a.last())
    }
}

/// The comma-separated bodies of an object.
pub open spec fn jprint_entries(o: Seq<(Seq<char>, JVal)>) -> Seq<char>
    decreases o,
{
    if o.len() == 0 {
        Seq::empty()
    } else if o.len() == 1 {
        jprint_entry(o.last())
    } else {
        jprint_entries(o.drop_last()) + seq![','] + jprint_entry(o.last())
    }
}

/// One `"key":value` pair.
pub open spec fn jprint_entry(e: (Seq<char>, JVal)) -> Seq<char>
    decreases e,
{
    seq!['"'] + esc_str(e.0) + seq!['"', ':'] + jprint(e.1)
}

/// Appends the escaped body of `s` to `out`.
#[verifier::loop_isolation(false)]
fn push_escaped(s: &String, out: &mut String)
    ensures
        final(out)@ == old(out)@ + esc_str(s@),
{
    let n = s.as_str().unicode_len();
    let mut i: usize = 0;
    while i < n
        invariant
            i <= n,
            out@ == old(out)@ + esc_str(s@.subrange(0, i as int)),
        decreases n - i,
    {
        let c = s.as_str().get_char(i);
        proof {
            assert(s@.subrange(0, i + 1).drop_last() =~= s@.subrange(0, i as int));
            assert(s@.subrange(0, i + 1).last() == c);
        }
        if c == '"' {
            push_char(out, '\\');
            push_char(out, '"');
        } else if c == '\\' {
            push_char(out, '\\');
            push_char(out, '\\');
        } else if c == '\n' {
            push_char(out, '\\');
            push_char(out, 'n');
        } else if c == '\r' {
            push_char(out, '\\');
            push_char(out, 'r');
        } else if c == '\t' {
            push_char(out, '\\');
            push_char(out, 't');
        } else if (c as u32) < 32 {
            let code = c as u32;
            push_char(out, '\\');
            push_char(out, 'u');
            push_char(out, '0');
            push_char(out, '0');
            push_char(out, hex_of(code / 16));
            push_char(out, hex_of(code % 16));
        } else {
            push_char(out, c);
        }
        i = i + 1;
    }
    proof {
        assert(s@.subrange(0, n as int) =~= s@);
    }
}

/// Appends the text form of `j` to `out`.
#[verifier::loop_isolation(false)]
#[verifier::rlimit(100)]
pub fn write_json(j: &Json, out: &mut String)
    ensures
        final(out)@ == old(out)@ + jprint(j@),
    decreases j,
{
    match j {
        Json::Null => {
            out.append("null");
            proof {
                reveal_strlit("null");
                assert("null"@ =~= seq!['n', 'u', 'l', 'l']);
            }
        },
        Json::Bool(b) => {
            if *b {
                out.append("true");
                proof {
                    reveal_strlit("true");
                    assert("true"@ =~= seq!['t', 'r', 'u', 'e']);
                }
            } else {
                out.append("false");
                proof {
                    reveal_strlit("false");
                    assert("false"@ =~= seq!['f', 'a', 'l', 's', 'e']);
                }
            }
        },
        Json::Int(i) => {
            push_i64_dec(*i, out);
        },
        Json::Str(s) => {
            push_char(out, '"');
            push_escaped(s, out);
            push_char(out, '"');
        },
        Json::Arr(v) => {
            push_char(out, '[');
            let mut i: usize = 0;
            while i < v.len()
                invariant
                    i <= v@.len(),
                    out@ == old(out)@ + seq!['['] + jprint_items(jvals_of(v@).subrange(0, i as int)),
                decreases v@.len() - i,
            {
                if i > 0 {
                    push_char(out, ',');
                }
                proof {
                    assert(decreases_to!(v@ => v@[i as int]));
                    assert(decreases_to!(*j => v@[i as int]));
                    lemma_jvals_of(v@);
                    lemma_jprint_items_snoc(jvals_of(v@).subrange(0, i as int), v@[i as int]@);
                    assert(jvals_of(v@).subrange(0, i + 1) =~= jvals_of(v@).subrange(
                        0,
                        i as int,
                    ).push(v@[i as int]@));
                }
                write_json(&v[i], out);
                i = i + 1;
            }
            push_char(out, ']');
            proof {
                lemma_jvals_of(v@);
                assert(jvals_of(v@).subrange(0, v@.len() as int) =~= jvals_of(v@));
            }
        },
        Json::Obj(v) => {
            push_char(out, '{');
            let mut i: usize = 0;
            while i < v.len()
                invariant
                    i <= v@.len(),
                    out@ == old(out)@ + seq!['{'] + jprint_entries(
                        jentries_of(v@).subrange(0, i as int),
                    ),
                decreases v@.len() - i,
            {
                if i > 0 {
                    push_char(out, ',');
                }
                proof {
                    assert(decreases_to!(v@ => v@[i as int]));
                    assert(decreases_to!(v@[i as int] => v@[i as int].1));
                    assert(decreases_to!(*j => v@[i as int].1));
                    lemma_jentries_of(v@);
                    lemma_jprint_entries_snoc(
                        jentries_of(v@).subrange(0, i as int),
                        (v@[i as int].0@, v@[i as int].1@),
                    );
                    assert(jentries_of(v@).subrange(0, i + 1) =~= jentries_of(v@).subrange(
                        0,
                        i as int,
                    ).push((v@[i as int].0@, v@[i as int].1@)));
                }
                push_char(out, '"');
                push_escaped(&v[i].0, out);
                push_char(out, '"');
                push_char(out, ':');
                write_json(&v[i].1, out);
                i = i + 1;
            }
            push_char(out, '}');
            proof {
                lemma_jentries_of(v@);
                assert(jentries_of(v@).subrange(0, v@.len() as int) =~= jentries_of(v@));
            }
        },
    }
}

pub proof fn lemma_jprint_items_snoc(a: Seq<JVal>, x: JVal)
    ensures
        jprint_items(a.push(x)) == if a.len() == 0 {
            jprint(x)
        } else {
            jprint_items(a) + seq![','] + jprint(x)
        },
{
    assert(a.push(x).drop_last() =~= a);
    assert(a.push(x).last() == x);
}

pub proof fn lemma_jprint_entries_snoc(o: Seq<(Seq<char>, JVal)>, e: (Seq<char>, JVal))
    ensures
        jprint_entries(o.push(e)) == if o.len() == 0 {
            jprint_entry(e)
        } else {
            jprint_entries(o) + seq![','] + jprint_entry(e)
        },
{
    assert(o.push(e).drop_last() =~= o);
    assert(o.push(e).last() == e);
}

/// The text form of a JSON value, as a fresh string.
pub fn json_to_string(j: &Json) -> (r: String)
    ensures
        r@ == jprint(j@),
{
    let mut out = String::new();
    write_json(j, &mut out);
    out
}

/// The character with the given code point.
pub uninterp spec fn char_of_code(c: u32) -> char;

/// Whether a code point is a Unicode scalar value.
pub open spec fn is_scalar(code: int) -> bool {
    0 <= code <= 0x10ffff && !(0xd800 <= code <= 0xdfff)
}

/// Turns a code point back into a character.
///
/// Relies on `char::from_u32`: `Some` exactly when the value is a Unicode
/// scalar value (at most 0x10FFFF and not a surrogate), and the returned
/// character has that code point.
#[verifier::external_body]
fn char_from_u32(c: u32) -> (r: Option<char>)
    ensures
        r is Some <==> is_scalar(c as int),
        r matches Some(ch) ==> ch == char_of_code(c) && ch as u32 == c,
{
    char::from_u32(c)
}

pub open spec fn is_json_ws(c: char) -> bool {
    c == ' ' || c == '\t' || c == '\n' || c == '\r'
}

/// The first position at or after `pos` that holds no blank, tab or line
/// break.
pub open spec fn sp_ws(s: Seq<char>, pos: int) -> int
    decreases s.len() - pos,
        when 0 <= pos <= s.len()
{
    if pos < s.len() && is_json_ws(s[pos]) {
        sp_ws(s, pos + 1)
    } else {
        pos
    }
}

/// Advances past blanks, tabs and line breaks, as `sp_ws` says.
#[verifier::loop_isolation(false)]
fn skip_ws(s: &str, n: usize, pos: usize) -> (p: usize)
    requires
        n == s@.len(),
        pos <= n,
    ensures
        pos <= p <= n,
        p == sp_ws(s@, pos as int),
{
    let mut p = pos;
    while p < n
        invariant
            pos <= p <= n,
            sp_ws(s@, pos as int) == sp_ws(s@, p as int),
        decreases n - p,
    {
        let c = s.get_char(p);
        if c == ' ' || c == '\t' || c == '\n' || c == '\r' {
            p = p + 1;
        } else {
            return p;
        }
    }
    p
}

/// The position just past `kw` when `kw` stands at `pos`.
pub open spec fn sp_kw(s: Seq<char>, pos: int, kw: Seq<char>) -> Option<int> {
    if pos + kw.len() <= s.len() && s.subrange(pos, pos + kw.len() as int) == kw {
        Some(pos + kw.len() as int)
    } else {
        None
    }
}

/// Consumes the given keyword if it stands at `pos`, as `sp_kw` says.
#[verifier::loop_isolation(false)]
fn match_keyword(s: &str, n: usize, pos: usize, kw: &str) -> (r: Option<usize>)
    requires
        n == s@.len(),
        pos <= n,
    ensures
        match r {
            Some(p) => pos <= p <= n && sp_kw(s@, pos as int, kw@) == Some(p as int),
            None => sp_kw(s@, pos as int, kw@) is None,
        },
{
    let k = kw.unicode_len();
    let mut i: usize = 0;
    while i < k
        invariant
            0 <= i <= k,
            k == kw@.len(),
            pos + i <= n,
            forall|j: int| 0 <= j < i ==> s@[pos + j] == kw@[j],
        decreases k - i,
    {
        if pos + i >= n {
            return None;
        }
        if s.get_char(pos + i) != kw.get_char(i) {
            proof {
                if pos + kw@.len() <= s@.len() {
                    let sub = s@.subrange(pos as int, pos + kw@.len() as int);
                    assert(sub[i as int] == s@[pos + i]);
                    assert(sub != kw@);
                }
            }
            return None;
        }
        i = i + 1;
    }
    proof {
        assert(s@.subrange(pos as int, pos + kw@.len() as int) =~= kw@);
    }
    Some(pos + k)
}

/// The value of a hexadecimal digit, or 16 for any other character.
pub open spec fn sp_hex(c: char) -> int {
    if c == '0' { 0 } else if c == '1' { 1 } else if c == '2' { 2 } else if c == '3' { 3 }
    else if c == '4' { 4 } else if c == '5' { 5 } else if c == '6' { 6 } else if c == '7' { 7 }
    else if c == '8' { 8 } else if c == '9' { 9 }
    else if c == 'a' || c == 'A' { 10 } else if c == 'b' || c == 'B' { 11 }
    else if c == 'c' || c == 'C' { 12 } else if c == 'd' || c == 'D' { 13 }
    else if c == 'e' || c == 'E' { 14 } else if c == 'f' || c == 'F' { 15 }
    else { 16 }
}

fn hex_val(c: char) -> (r: Option<u32>)
    ensures
        r matches Some(v) ==> v < 16 && v == sp_hex(c),
        r is None ==> sp_hex(c) == 16,
{
    match c {
        '0' => Some(0), '1' => Some(1), '2' => Some(2), '3' => Some(3),
        '4' => Some(4), '5' => Some(5), '6' => Some(6), '7' => Some(7),
        '8' => Some(8), '9' => Some(9),
        'a' | 'A' => Some(10), 'b' | 'B' => Some(11), 'c' | 'C' => Some(12),
        'd' | 'D' => Some(13), 'e' | 'E' => Some(14), 'f' | 'F' => Some(15),
        _ => None,
    }
}

/// Prefixes the text of a string-body result.
pub open spec fn glue_str(prefix: Seq<char>, r: Option<(Seq<char>, int)>) -> Option<
    (Seq<char>, int),
> {
    match r {
        Some(t) => Some((prefix + t.0, t.1)),
        None => None,
    }
}

proof fn lemma_glue_push(prefix: Seq<char>, c: char, r: Option<(Seq<char>, int)>)
    ensures
        glue_str(prefix, glue_str(seq![c], r)) == glue_str(prefix.push(c), r),
{
    match r {
        Some(t) => {
            assert(prefix + (seq![c] + t.0) =~= prefix.push(c) + t.0);
        },
        None => {},
    }
}

/// The text a string body at `pos` holds and the position just past its
/// closing quote, or `None` when the body is unterminated or carries an
/// escape the grammar does not know.
pub open spec fn sp_str_body(s: Seq<char>, pos: int) -> Option<(Seq<char>, int)>
    decreases s.len() - pos,
        when 0 <= pos <= s.len()
{
    if pos >= s.len() {
        None
    } else {
        let c = s[pos];
        if c == '"' {
            Some((Seq::empty(), pos + 1))
        } else if c == '\\' {
            if pos + 1 >= s.len() {
                None
            } else {
                let e = s[pos + 1];
                if e == '"' { glue_str(seq!['"'], sp_str_body(s, pos + 2)) }
                else if e == '\\' { glue_str(seq!['\\'], sp_str_body(s, pos + 2)) }
                else if e == '/' { glue_str(seq!['/'], sp_str_body(s, pos + 2)) }
                else if e == 'n' { glue_str(seq!['\n'], sp_str_body(s, pos + 2)) }
                else if e == 'r' { glue_str(seq!['\r'], sp_str_body(s, pos + 2)) }
                else if e == 't' { glue_str(seq!['\t'], sp_str_body(s, pos + 2)) }
                else if e == 'b' { glue_str(seq!['\u{8}'], sp_str_body(s, pos + 2)) }
                else if e == 'f' { glue_str(seq!['\u{c}'], sp_str_body(s, pos + 2)) }
                else if e == 'u' {
                    if s.len() - pos < 6 {
                        None
                    } else {
                        let h0 = sp_hex(s[pos + 2]);
                        let h1 = sp_hex(s[pos + 3]);
                        let h2 = sp_hex(s[pos + 4]);
                        let h3 = sp_hex(s[pos + 5]);
                        if h0 == 16 || h1 == 16 || h2 == 16 || h3 == 16 {
                            None
                        } else {
                            let code = ((h0 * 16 + h1) * 16 + h2) * 16 + h3;
                            if is_scalar(code) {
                                glue_str(
                                    seq![char_of_code(code as u32)],
                                    sp_str_body(s, pos + 6),
                                )
                            } else {
                                None
                            }
                        }
                    }
                } else {
                    None
                }
            }
        } else {
            glue_str(seq![c], sp_str_body(s, pos + 1))
        }
    }
}

/// Reads a string body after its opening quote, as `sp_str_body` says:
/// the text and the position just past the closing quote.
#[verifier::loop_isolation(false)]
fn parse_string_body(s: &str, n: usize, pos: usize) -> (r: Option<(String, usize)>)
    requires
        n == s@.len(),
        pos <= n,
    ensures
        match r {
            Some(t) => pos < t.1 <= n && sp_str_body(s@, pos as int) == Some((t.0@, t.1 as int)),
            None => sp_str_body(s@, pos as int) is None,
        },
{
    let mut out = String::new();
    let mut p = pos;
    while p < n
        invariant
            pos <= p <= n,
            glue_str(out@, sp_str_body(s@, p as int)) == sp_str_body(s@, pos as int),
        decreases n - p,
    {
        let c = s.get_char(p);
        if c == '"' {
            proof {
                assert(out@ + Seq::<char>::empty() =~= out@);
            }
            return Some((out, p + 1));
        } else if c == '\\' {
            if p + 1 >= n {
                return None;
            }
            let e = s.get_char(p + 1);
            if e == '"' {
                proof {
                    lemma_glue_push(out@, '"', sp_str_body(s@, p as int + 2));
                }
                push_char(&mut out, '"');
                p = p + 2;
            } else if e == '\\' {
                proof {
                    lemma_glue_push(out@, '\\', sp_str_body(s@, p as int + 2));
                }
                push_char(&mut out, '\\');
                p = p + 2;
            } else if e == '/' {
                proof {
                    lemma_glue_push(out@, '/', sp_str_body(s@, p as int + 2));
                }
                push_char(&mut out, '/');
                p = p + 2;
            } else if e == 'n' {
                proof {
                    lemma_glue_push(out@, '\n', sp_str_body(s@, p as int + 2));
                }
                push_char(&mut out, '\n');
                p = p + 2;
            } else if e == 'r' {
                proof {
                    lemma_glue_push(out@, '\r', sp_str_body(s@, p as int + 2));
                }
                push_char(&mut out, '\r');
                p = p + 2;
            } else if e == 't' {
                proof {
                    lemma_glue_push(out@, '\t', sp_str_body(s@, p as int + 2));
                }
                push_char(&mut out, '\t');
                p = p + 2;
            } else if e == 'b' {
                proof {
                    lemma_glue_push(out@, '\u{8}', sp_str_body(s@, p as int + 2));
                }
                push_char(&mut out, '\u{8}');
                p = p + 2;
            } else if e == 'f' {
                proof {
                    lemma_glue_push(out@, '\u{c}', sp_str_body(s@, p as int + 2));
                }
                push_char(&mut out, '\u{c}');
                p = p + 2;
            } else if e == 'u' {
                if n - p < 6 {
                    return None;
                }
                let h0 = match hex_val(s.get_char(p + 2)) {
                    Some(v) => v,
                    None => {
                        return None;
                    },
                };
                let h1 = match hex_val(s.get_char(p + 3)) {
                    Some(v) => v,
                    None => {
                        return None;
                    },
                };
                let h2 = match hex_val(s.get_char(p + 4)) {
                    Some(v) => v,
                    None => {
                        return None;
                    },
                };
                let h3 = match hex_val(s.get_char(p + 5)) {
                    Some(v) => v,
                    None => {
                        return None;
                    },
                };
                let code: u32 = ((h0 * 16 + h1) * 16 + h2) * 16 + h3;
                match char_from_u32(code) {
                    Some(ch) => {
                        proof {
                            lemma_glue_push(out@, ch, sp_str_body(s@, p as int + 6));
                        }
                        push_char(&mut out, ch);
                        p = p + 6;
                    },
                    None => {
                        return None;
                    },
                }
            } else {
                return None;
            }
        } else {
            proof {
                lemma_glue_push(out@, c, sp_str_body(s@, p as int + 1));
            }
            push_char(&mut out, c);
            p = p + 1;
        }
    }
    None
}

/// The value of a decimal digit, or 10 for any other character.
pub open spec fn digit_val(c: char) -> int {
    if c == '0' { 0 } else if c == '1' { 1 } else if c == '2' { 2 } else if c == '3' { 3 }
    else if c == '4' { 4 } else if c == '5' { 5 } else if c == '6' { 6 } else if c == '7' { 7 }
    else if c == '8' { 8 } else if c == '9' { 9 } else { 10 }
}

/// A digit run read from `pos` into an accumulator: its final value, how
/// many digits it took, and the position just past it. `None` when the run
/// would leave the signed 64-bit range or exceed nineteen digits.
pub open spec fn sp_digits(s: Seq<char>, pos: int, acc: int, digits: int) -> Option<
    (int, int, int),
>
    decreases s.len() - pos,
        when 0 <= pos <= s.len() && 0 <= acc && 0 <= digits
{
    if pos < s.len() && digit_val(s[pos]) < 10 {
        let d = digit_val(s[pos]);
        if acc > (0x7fff_ffff_ffff_ffff - d) / 10 {
            None
        } else if digits + 1 > 19 {
            None
        } else {
            sp_digits(s, pos + 1, acc * 10 + d, digits + 1)
        }
    } else {
        Some((acc, digits, pos))
    }
}

/// The integer written at `pos` (an optional minus sign and decimal
/// digits) and the position just past it. `None` when no digit stands
/// there, the value leaves the signed 64-bit range, or a fractional part
/// or exponent follows — the document schema never holds a float.
pub open spec fn sp_int(s: Seq<char>, pos: int) -> Option<(i64, int)> {
    let neg = pos < s.len() && s[pos] == '-';
    let p1 = if neg { pos + 1 } else { pos };
    match sp_digits(s, p1, 0, 0) {
        None => None,
        Some((acc, digits, p2)) => {
            if digits == 0 {
                None
            } else if p2 < s.len() && (s[p2] == '.' || s[p2] == 'e' || s[p2] == 'E') {
                None
            } else if neg {
                Some(((-acc) as i64, p2))
            } else {
                Some((acc as i64, p2))
            }
        },
    }
}

/// Reads an integer, as `sp_int` says.
#[verifier::loop_isolation(false)]
fn parse_int(s: &str, n: usize, pos: usize) -> (r: Option<(i64, usize)>)
    requires
        n == s@.len(),
        pos <= n,
    ensures
        match r {
            Some(t) => pos < t.1 <= n && sp_int(s@, pos as int) == Some((t.0, t.1 as int)),
            None => sp_int(s@, pos as int) is None,
        },
{
    let mut p = pos;
    let mut neg = false;
    if p < n && s.get_char(p) == '-' {
        neg = true;
        p = p + 1;
    }
    let ghost p1 = p as int;
    let mut acc: u64 = 0;
    let mut digits: u64 = 0;
    while p < n
        invariant
            pos <= p <= n,
            p1 <= p,
            acc <= 0x7fff_ffff_ffff_ffffu64,
            digits <= 19,
            digits > 0 ==> p > p1,
            sp_digits(s@, p1, 0, 0) == sp_digits(s@, p as int, acc as int, digits as int),
        decreases n - p,
    {
        let c = s.get_char(p);
        let d: u64 = match c {
            '0' => 0, '1' => 1, '2' => 2, '3' => 3, '4' => 4,
            '5' => 5, '6' => 6, '7' => 7, '8' => 8, '9' => 9,
            _ => 10,
        };
        proof {
            assert(d as int == digit_val(s@[p as int]));
        }
        if d == 10 {
            break;
        }
        if acc > (0x7fff_ffff_ffff_ffffu64 - d) / 10 {
            return None;
        }
        acc = acc * 10 + d;
        digits = digits + 1;
        if digits > 19 {
            return None;
        }
        p = p + 1;
    }
    if digits == 0 {
        return None;
    }
    if p < n {
        let c = s.get_char(p);
        if c == '.' || c == 'e' || c == 'E' {
            return None;
        }
    }
    let v: i64 = if neg {
        -(acc as i64)
    } else {
        acc as i64
    };
    Some((v, p))
}

/// The JSON value written at `pos` and the position just past it, or
/// `None` on malformed text. The position guards mirror bounds the reader
/// always meets; they only make the recursion visibly well-founded.
pub open spec fn sp_value(s: Seq<char>, pos: int) -> Option<(JVal, int)>
    decreases s.len() - pos, 2int,
        when 0 <= pos <= s.len()
{
    if pos >= s.len() {
        None
    } else {
        let c = s[pos];
        if c == 'n' {
            match sp_kw(s, pos, "null"@) {
                Some(p) => Some((JVal::Null, p)),
                None => None,
            }
        } else if c == 't' {
            match sp_kw(s, pos, "true"@) {
                Some(p) => Some((JVal::Bool(true), p)),
                None => None,
            }
        } else if c == 'f' {
            match sp_kw(s, pos, "false"@) {
                Some(p) => Some((JVal::Bool(false), p)),
                None => None,
            }
        } else if c == '"' {
            match sp_str_body(s, pos + 1) {
                Some(t) => Some((JVal::Str(t.0), t.1)),
                None => None,
            }
        } else if c == '[' {
            let p = sp_ws(s, pos + 1);
            if p < s.len() && s[p] == ']' {
                Some((JVal::Arr(Seq::empty()), p + 1))
            } else if p <= pos || p > s.len() {
                None
            } else {
                sp_items(s, p, Seq::empty())
            }
        } else if c == '{' {
            let p = sp_ws(s, pos + 1);
            if p < s.len() && s[p] == '}' {
                Some((JVal::Obj(Seq::empty()), p + 1))
            } else if p <= pos || p > s.len() {
                None
            } else {
                sp_entries(s, p, Seq::empty())
            }
        } else {
            match sp_int(s, pos) {
                Some(t) => Some((JVal::Int(t.0), t.1)),
                None => None,
            }
        }
    }
}

/// The rest of an array body, read element by element from `pos` onto the
/// elements already read.
pub open spec fn sp_items(s: Seq<char>, pos: int, acc: Seq<JVal>) -> Option<(JVal, int)>
    decreases s.len() - pos, 3int,
        when 0 <= pos <= s.len()
{
    match sp_value(s, pos) {
        None => None,
        Some((item, p2)) => {
            if p2 <= pos || p2 > s.len() {
                None
            } else {
                let p3 = sp_ws(s, p2);
                if p3 < s.len() && s[p3] == ',' {
                    let p4 = sp_ws(s, p3 + 1);
                    if p4 >= s.len() || p4 <= pos {
                        None
                    } else {
                        sp_items(s, p4, acc.push(item))
                    }
                } else if p3 < s.len() && s[p3] == ']' {
                    Some((JVal::Arr(acc.push(item)), p3 + 1))
                } else {
                    None
                }
            }
        },
    }
}

/// The rest of an object body, read entry by entry from `pos` onto the
/// entries already read.
pub open spec fn sp_entries(s: Seq<char>, pos: int, acc: Seq<(Seq<char>, JVal)>) -> Option<
    (JVal, int),
>
    decreases s.len() - pos, 3int,
        when 0 <= pos <= s.len()
{
    if pos >= s.len() || s[pos] != '"' {
        None
    } else {
        match sp_str_body(s, pos + 1) {
            None => None,
            Some((key, pk)) => {
                if pk < 0 || pk > s.len() {
                    None
                } else {
                    let pc = sp_ws(s, pk);
                    if pc >= s.len() || s[pc] != ':' {
                        None
                    } else {
                        let pv = sp_ws(s, pc + 1);
                        if pv < pos || pv > s.len() {
                            None
                        } else {
                            match sp_value(s, pv) {
                                None => None,
                                Some((item, p2)) => {
                                    if p2 <= pos || p2 > s.len() {
                                        None
                                    } else {
                                        let p3 = sp_ws(s, p2);
                                        if p3 < s.len() && s[p3] == ',' {
                                            let p4 = sp_ws(s, p3 + 1);
                                            if p4 >= s.len() || p4 <= pos {
                                                None
                                            } else {
                                                sp_entries(s, p4, acc.push((key, item)))
                                            }
                                        } else if p3 < s.len() && s[p3] == '}' {
                                            Some((JVal::Obj(acc.push((key, item))), p3 + 1))
                                        } else {
                                            None
                                        }
                                    }
                                },
                            }
                        }
                    }
                }
            },
        }
    }
}

/// Reads one JSON value starting at `pos`, as `sp_value` says: the value
/// and the position just past it, or `None` on malformed text.
#[verifier::loop_isolation(false)]
#[verifier::rlimit(100)]
pub fn parse_value(s: &str, n: usize, pos: usize) -> (r: Option<(Json, usize)>)
    requires
        n == s@.len(),
        pos <= n,
    ensures
        match r {
            Some(t) => pos < t.1 <= n && sp_value(s@, pos as int) == Some((t.0@, t.1 as int)),
            None => sp_value(s@, pos as int) is None,
        },
    decreases n - pos,
{
    if pos >= n {
        return None;
    }
    let c = s.get_char(pos);
    if c == 'n' {
        proof {
            reveal_strlit("null");
            assert("null"@.len() == 4);
        }
        match match_keyword(s, n, pos, "null") {
            Some(p) => Some((Json::Null, p)),
            None => None,
        }
    } else if c == 't' {
        proof {
            reveal_strlit("true");
            assert("true"@.len() == 4);
        }
        match match_keyword(s, n, pos, "true") {
            Some(p) => Some((Json::Bool(true), p)),
            None => None,
        }
    } else if c == 'f' {
        proof {
            reveal_strlit("false");
            assert("false"@.len() == 5);
        }
        match match_keyword(s, n, pos, "false") {
            Some(p) => Some((Json::Bool(false), p)),
            None => None,
        }
    } else if c == '"' {
        match parse_string_body(s, n, pos + 1) {
            Some((text, p)) => Some((Json::Str(text), p)),
            None => None,
        }
    } else if c == '[' {
        let mut items: Vec<Json> = Vec::new();
        let mut p = skip_ws(s, n, pos + 1);
        if p < n && s.get_char(p) == ']' {
            proof {
                assert(jvals_of(items@) =~= Seq::<JVal>::empty());
            }
            return Some((Json::Arr(items), p + 1));
        }
        proof {
            assert(sp_value(s@, pos as int) == sp_items(s@, p as int, jvals_of(items@)));
        }
        loop
            invariant
                pos < p <= n,
                n == s@.len(),
                sp_value(s@, pos as int) == sp_items(s@, p as int, jvals_of(items@)),
            decreases n - p,
        {
            match parse_value(s, n, p) {
                Some((item, p2)) => {
                    let ghost pre = items@;
                    let ghost pit = p as int;
                    items.push(item);
                    proof {
                        assert(items@.drop_last() =~= pre);
                        assert(jvals_of(items@) == jvals_of(pre).push(item@));
                    }
                    p = skip_ws(s, n, p2);
                    if p < n && s.get_char(p) == ',' {
                        p = skip_ws(s, n, p + 1);
                        if p >= n {
                            return None;
                        }
                    } else if p < n && s.get_char(p) == ']' {
                        return Some((Json::Arr(items), p + 1));
                    } else {
                        return None;
                    }
                },
                None => {
                    return None;
                },
            }
        }
    } else if c == '{' {
        let mut entries: Vec<(String, Json)> = Vec::new();
        let mut p = skip_ws(s, n, pos + 1);
        if p < n && s.get_char(p) == '}' {
            proof {
                assert(jentries_of(entries@) =~= Seq::<(Seq<char>, JVal)>::empty());
            }
            return Some((Json::Obj(entries), p + 1));
        }
        proof {
            assert(sp_value(s@, pos as int) == sp_entries(s@, p as int, jentries_of(entries@)));
        }
        loop
            invariant
                pos < p <= n,
                n == s@.len(),
                sp_value(s@, pos as int) == sp_entries(s@, p as int, jentries_of(entries@)),
            decreases n - p,
        {
            if p >= n || s.get_char(p) != '"' {
                return None;
            }
            match parse_string_body(s, n, p + 1) {
                Some((key, pk)) => {
                    let pc = skip_ws(s, n, pk);
                    if pc >= n || s.get_char(pc) != ':' {
                        return None;
                    }
                    let pv = skip_ws(s, n, pc + 1);
                    match parse_value(s, n, pv) {
                        Some((item, p2)) => {
                            let ghost pre = entries@;
                            entries.push((key, item));
                            proof {
                                assert(entries@.drop_last() =~= pre);
                                assert(jentries_of(entries@) == jentries_of(pre).push(
                                    (entries@.last().0@, entries@.last().1@),
                                ));
                            }
                            p = skip_ws(s, n, p2);
                            if p < n && s.get_char(p) == ',' {
                                p = skip_ws(s, n, p + 1);
                                if p >= n {
                                    return None;
                                }
                            } else if p < n && s.get_char(p) == '}' {
                                return Some((Json::Obj(entries), p + 1));
                            } else {
                                return None;
                            }
                        },
                        None => {
                            return None;
                        },
                    }
                },
                None => {
                    return None;
                },
            }
        }
    } else {
        match parse_int(s, n, pos) {
            Some((v, p)) => Some((Json::Int(v), p)),
            None => None,
        }
    }
}

/// Whether two JSON values are the same value.
#[verifier::loop_isolation(false)]
pub fn json_eq(a: &Json, b: &Json) -> (r: bool)
    ensures
        r == (a@ == b@),
    decreases a,
{
    match (a, b) {
        (Json::Null, Json::Null) => true,
        (Json::Bool(x), Json::Bool(y)) => x == y,
        (Json::Int(x), Json::Int(y)) => x == y,
        (Json::Str(x), Json::Str(y)) => crate::strutil::str_eq(x.as_str(), y.as_str()),
        (Json::Arr(x), Json::Arr(y)) => {
            proof {
                lemma_jvals_of(x@);
                lemma_jvals_of(y@);
            }
            if x.len() != y.len() {
                return false;
            }
            let mut i: usize = 0;
            while i < x.len()
                invariant
                    i <= x@.len(),
                    forall|k: int| 0 <= k < i ==> jvals_of(x@)[k] == jvals_of(y@)[k],
                decreases x@.len() - i,
            {
                proof {
                    assert(decreases_to!(x@ => x@[i as int]));
                    assert(decreases_to!(*a => x@[i as int]));
                }
                if !json_eq(&x[i], &y[i]) {
                    proof {
                        assert(jvals_of(x@)[i as int] != jvals_of(y@)[i as int]);
                    }
                    return false;
                }
                i = i + 1;
            }
            proof {
                assert(jvals_of(x@) =~= jvals_of(y@));
            }
            true
        },
        (Json::Obj(x), Json::Obj(y)) => {
            proof {
                lemma_jentries_of(x@);
                lemma_jentries_of(y@);
            }
            if x.len() != y.len() {
                return false;
            }
            let mut i: usize = 0;
            while i < x.len()
                invariant
                    i <= x@.len(),
                    forall|k: int| 0 <= k < i ==> jentries_of(x@)[k] == jentries_of(y@)[k],
                decreases x@.len() - i,
            {
                proof {
                    assert(decreases_to!(x@ => x@[i as int]));
                    assert(decreases_to!(x@[i as int] => x@[i as int].1));
                    assert(decreases_to!(*a => x@[i as int].1));
                }
                if !crate::strutil::str_eq(x[i].0.as_str(), y[i].0.as_str()) {
                    proof {
                        assert(jentries_of(x@)[i as int].0 != jentries_of(y@)[i as int].0);
                    }
                    return false;
                }
                if !json_eq(&x[i].1, &y[i].1) {
                    proof {
                        assert(jentries_of(x@)[i as int].1 != jentries_of(y@)[i as int].1);
                    }
                    return false;
                }
                i = i + 1;
            }
            proof {
                assert(jentries_of(x@) =~= jentries_of(y@));
            }
            true
        },
        _ => {
            proof {
                assert(a@ != b@);
            }
            false
        },
    }
}

/// The value a whole document's text holds: one JSON value with nothing
/// but blank space around it, or `None` on anything else.
pub open spec fn sp_json(s: Seq<char>) -> Option<JVal> {
    let p = sp_ws(s, 0);
    if p < 0 || p > s.len() {
        None
    } else {
        match sp_value(s, p) {
            Some((j, p2)) => {
                if p2 < 0 || p2 > s.len() {
                    None
                } else {
                    if sp_ws(s, p2) == s.len() {
                        Some(j)
                    } else {
                        None
                    }
                }
            },
            None => None,
        }
    }
}

/// Reads a whole JSON document, as `sp_json` says: `None` when the text is
/// malformed or holds anything besides one value and surrounding blank
/// space.
pub fn parse_json(s: &str) -> (r: Option<Json>)
    ensures
        match r {
            Some(j) => sp_json(s@) == Some(j@),
            None => sp_json(s@) is None,
        },
{
    let n = s.unicode_len();
    let p = skip_ws(s, n, 0);
    match parse_value(s, n, p) {
        Some((j, p2)) => {
            let p3 = skip_ws(s, n, p2);
            if p3 == n {
                Some(j)
            } else {
                None
            }
        },
        None => None,
    }
}

} // verus!
