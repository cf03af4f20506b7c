//! The result encoder: serializes token strings, numeric ids and an optional
//! diagnostic trace into one self-describing JSON payload.
//!
//! The payload text is pinned down exactly by [`payload`], so encoding is
//! deterministic by construction: stable field order, no discretionary
//! whitespace, and a fixed escaping scheme for string content.

use vstd::prelude::*;
use vstd::string::StrSliceExecFns;
use vstd::string::StringExecFns;
use crate::text::push_char;

verus! {

/// The lower-case hexadecimal digit for a value below 16.
pub open spec fn hex_digit(n: int) -> char {
    if n == 0 { '0' }
    else if n == 1 { '1' }
    else if n == 2 { '2' }
    else if n == 3 { '3' }
    else if n == 4 { '4' }
    else if n == 5 { '5' }
    else if n == 6 { '6' }
    else if n == 7 { '7' }
    else if n == 8 { '8' }
    else if n == 9 { '9' }
    else if n == 10 { 'a' }
    else if n == 11 { 'b' }
    else if n == 12 { 'c' }
    else if n == 13 { 'd' }
    else if n == 14 { 'e' }
    else { 'f' }
}

/// How one character appears inside a JSON string literal: quotes and
/// backslashes are escaped, control characters take the `\u00XX` form, and
/// every other character stands as itself.
pub open spec fn escape_char(c: char) -> Seq<char> {
    if c == '"' {
        seq!['\\', '"']
    } else if c == '\\' {
        seq!['\\', '\\']
    } else if (c as u32) < 32 {
        seq!['\\', 'u', '0', '0', hex_digit(c as u32 as int / 16), hex_digit(c as u32 as int % 16)]
    } else {
        seq![c]
    }
}

/// A whole character sequence escaped for use inside a JSON string literal.
pub open spec fn escape_str(s: Seq<char>) -> Seq<char>
    decreases s.len(),
{
    if s.len() == 0 {
        Seq::empty()
    } else {
        escape_str(s.drop_last()) + escape_char(s.last())
    }
}

/// A JSON string literal: the escaped content between double quotes.
pub open spec fn quoted(s: Seq<char>) -> Seq<char> {
    seq!['"'] + escape_str(s) + seq!['"']
}

/// The decimal digit for a value below 10.
pub open spec fn dec_digit(n: int) -> char {
    if n == 0 { '0' }
    else if n == 1 { '1' }
    else if n == 2 { '2' }
    else if n == 3 { '3' }
    else if n == 4 { '4' }
    else if n == 5 { '5' }
    else if n == 6 { '6' }
    else if n == 7 { '7' }
    else if n == 8 { '8' }
    else { '9' }
}

/// Decimal digits of `n`, most significant first, empty for zero.
pub open spec fn dec_rec(n: int) -> Seq<char>
    decreases n,
{
    if n <= 0 {
        Seq::empty()
    } else {
        dec_rec(n / 10) + seq![dec_digit(n % 10)]
    }
}

/// The canonical decimal rendering of a non-negative number.
pub open spec fn dec_str(n: int) -> Seq<char> {
    if n == 0 {
        seq!['0']
    } else {
        dec_rec(n)
    }
}

/// Comma-separated JSON string literals.
pub open spec fn string_items(elems: Seq<Seq<char>>) -> Seq<char>
    decreases elems.len(),
{
    if elems.len() == 0 {
        Seq::empty()
    } else if elems.len() == 1 {
        quoted(elems[0])
    } else {
        string_items(elems.drop_last()) + seq![','] + quoted(elems.last())
    }
}

/// A JSON array of string literals.
pub open spec fn string_array(elems: Seq<Seq<char>>) -> Seq<char> {
    seq!['['] + string_items(elems) + seq![']']
}

/// Comma-separated decimal numbers.
pub open spec fn id_items(ids: Seq<u32>) -> Seq<char>
    decreases ids.len(),
{
    if ids.len() == 0 {
        Seq::empty()
    } else if ids.len() == 1 {
        dec_str(ids[0] as int)
    } else {
        id_items(ids.drop_last()) + seq![','] + dec_str(ids.last() as int)
    }
}

/// A JSON array of decimal numbers.
pub open spec fn id_array(ids: Seq<u32>) -> Seq<char> {
    seq!['['] + id_items(ids) + seq![']']
}

/// The complete payload: the ordered token strings, the ordered ids, and,
/// when diagnostics are requested, the resolution trace.
pub open spec fn payload(tokens: Seq<Seq<char>>, ids: Seq<u32>, trace: Option<Seq<Seq<char>>>) -> Seq<char> {
    "{\"tokens\":"@ + string_array(tokens)
        + ",\"ids\":"@ + id_array(ids)
        + (match trace {
            Some(t) => ",\"debug_logs\":"@ + string_array(t),
            None => Seq::<char>::empty(),
        })
        + "}"@
}

/// The hexadecimal digit as executable code.
fn hex_digit_exec(n: u32) -> (c: char)
    requires
        n < 16,
    ensures
        c == hex_digit(n as int),
{
    if n == 0 { '0' }
    else if n == 1 { '1' }
    else if n == 2 { '2' }
    else if n == 3 { '3' }
    else if n == 4 { '4' }
    else if n == 5 { '5' }
    else if n == 6 { '6' }
    else if n == 7 { '7' }
    else if n == 8 { '8' }
    else if n == 9 { '9' }
    else if n == 10 { 'a' }
    else if n == 11 { 'b' }
    else if n == 12 { 'c' }
    else if n == 13 { 'd' }
    else if n == 14 { 'e' }
    else { 'f' }
}

/// The decimal digit as executable code.
fn dec_digit_exec(n: u32) -> (c: char)
    requires
        n < 10,
    ensures
        c == dec_digit(n as int),
{
    if n == 0 { '0' }
    else if n == 1 { '1' }
    else if n == 2 { '2' }
    else if n == 3 { '3' }
    else if n == 4 { '4' }
    else if n == 5 { '5' }
    else if n == 6 { '6' }
    else if n == 7 { '7' }
    else if n == 8 { '8' }
    else { '9' }
}

/// Appends the escaped form of `s` to `out`.
fn escape_into(out: &mut String, s: &str)
    ensures
        final(out)@ == old(out)@ + escape_str(s@),
{
    let n = s.unicode_len();
    let mut i: usize = 0;
    while i < n
        invariant
            i <= n,
            n == s@.len(),
            out@ == old(out)@ + escape_str(s@.take(i as int)),
        decreases n - i,
    {
        let c = s.get_char(i);
        if c == '"' {
            push_char(out, '\\');
            push_char(out, '"');
        } else if c == '\\' {
            push_char(out, '\\');
            push_char(out, '\\');
        } else if (c as u32) < 32 {
            push_char(out, '\\');
            push_char(out, 'u');
            push_char(out, '0');
            push_char(out, '0');
            push_char(out, hex_digit_exec(c as u32 / 16));
            push_char(out, hex_digit_exec(c as u32 % 16));
        } else {
            push_char(out, c);
        }
        proof {
            assert(s@.take(i + 1).drop_last() =~= s@.take(i as int));
            assert(s@.take(i + 1).last() == s@[i as int]);
            assert(out@ =~= old(out)@ + escape_str(s@.take(i + 1)));
        }
        i = i + 1;
    }
    proof {
        assert(s@.take(n as int) =~= s@);
    }
}

/// Appends the digits of a positive number, most significant first.
fn dec_pos_into(out: &mut String, n: u32)
    ensures
        final(out)@ == old(out)@ + dec_rec(n as int),
    decreases n,
{
    if n == 0 {
        proof {
            assert(old(out)@ + dec_rec(0) =~= old(out)@);
        }
        return;
    }
    assert(n / 10 < n) by (nonlinear_arith)
        requires n >= 1,
    ;
    dec_pos_into(out, n / 10);
    let d = dec_digit_exec(n % 10);
    push_char(out, d);
}

/// Appends the decimal rendering of `n`.
fn dec_into(out: &mut String, n: u32)
    ensures
        final(out)@ == old(out)@ + dec_str(n as int),
{
    if n == 0 {
        push_char(out, '0');
        proof {
            assert(seq!['0'] =~= dec_str(0));
        }
    } else {
        dec_pos_into(out, n);
    }
}

/// Appends a JSON array of string literals built from `elems`.
fn string_array_into(out: &mut String, elems: &Vec<String>)
    ensures
        final(out)@ == old(out)@ + string_array(elems.deep_view()),
{
    let ghost dv = elems.deep_view();
    push_char(out, '[');
    let mut i: usize = 0;
    while i < elems.len()
        invariant
            i <= elems.len(),
            dv == elems.deep_view(),
            dv.len() == elems@.len(),
            forall|k: int| 0 <= k < dv.len() ==> dv[k] == elems@[k]@,
            out@ == old(out)@ + seq!['['] + string_items(dv.take(i as int)),
        decreases elems.len() - i,
    {
        if i > 0 {
            push_char(out, ',');
        }
        push_char(out, '"');
        escape_into(out, elems[i].as_str());
        push_char(out, '"');
        proof {
            assert(dv.take(i + 1).drop_last() =~= dv.take(i as int));
            assert(dv.take(i + 1).last() == dv[i as int]);
            if i == 0 {
                assert(dv.take(1).len() == 1);
                assert(dv.take(1)[0] == dv[0]);
                assert(out@ =~= old(out)@ + seq!['['] + string_items(dv.take(i + 1)));
            } else {
                assert(out@ =~= old(out)@ + seq!['['] + string_items(dv.take(i + 1)));
            }
        }
        i = i + 1;
    }
    push_char(out, ']');
    proof {
        assert(dv.take(elems@.len() as int) =~= dv);
        assert(out@ =~= old(out)@ + string_array(dv));
    }
}

/// Appends a JSON array of decimal numbers built from `ids`.
fn id_array_into(out: &mut String, ids: &Vec<u32>)
    ensures
        final(out)@ == old(out)@ + id_array(ids@),
{
    push_char(out, '[');
    let mut i: usize = 0;
    while i < ids.len()
        invariant
            i <= ids@.len(),
            out@ == old(out)@ + seq!['['] + id_items(ids@.take(i as int)),
        decreases ids@.len() - i,
    {
        if i > 0 {
            push_char(out, ',');
        }
        dec_into(out, ids[i]);
        proof {
            assert(ids@.take(i + 1).drop_last() =~= ids@.take(i as int));
            assert(ids@.take(i + 1).last() == ids@[i as int]);
            if i == 0 {
                assert(ids@.take(1).len() == 1);
                assert(ids@.take(1)[0] == ids@[0]);
            }
            assert(out@ =~= old(out)@ + seq!['['] + id_items(ids@.take(i + 1)));
        }
        i = i + 1;
    }
    push_char(out, ']');
    proof {
        assert(ids@.take(ids@.len() as int) =~= ids@);
        assert(out@ =~= old(out)@ + id_array(ids@));
    }
}

/// Serializes tokens, ids and the optional diagnostic trace into the single
/// structured payload; the token and id sequences must be parallel.
pub fn encode_payload(tokens: &Vec<String>, ids: &Vec<u32>, trace: Option<&Vec<String>>) -> (r: String)
    requires
        tokens@.len() == ids@.len(),
    ensures
        r@ == payload(
            tokens.deep_view(),
            ids@,
            match trace {
                Some(t) => Some(t.deep_view()),
                None => None,
            },
        ),
{
    let mut out = String::new();
    out.append("{\"tokens\":");
    string_array_into(&mut out, tokens);
    out.append(",\"ids\":");
    id_array_into(&mut out, ids);
    match trace {
        Some(t) => {
            out.append(",\"debug_logs\":");
            string_array_into(&mut out, t);
        },
        None => {},
    }
    out.append("}");
    proof {
        assert(out@ =~= payload(
            tokens.deep_view(),
            ids@,
            match trace {
                Some(t) => Some(t.deep_view()),
                None => None,
            },
        ));
    }
    out
}

/// No character of `s` is the NUL character.
pub open spec fn nul_free(s: Seq<char>) -> bool {
    forall|i: int| 0 <= i < s.len() ==> s[i] != '\0'
}

proof fn lemma_nul_free_concat(a: Seq<char>, b: Seq<char>)
    requires
        nul_free(a),
        nul_free(b),
    ensures
        nul_free(a + b),
{
    assert forall|i: int| 0 <= i < (a + b).len() implies (a + b)[i] != '\0' by {
        if i < a.len() {
            assert((a + b)[i] == a[i]);
        } else {
            assert((a + b)[i] == b[i - a.len()]);
        }
    }
}

proof fn lemma_escape_str_nul_free(s: Seq<char>)
    ensures
        nul_free(escape_str(s)),
    decreases s.len(),
{
    if s.len() == 0 {
    } else {
        lemma_escape_str_nul_free(s.drop_last());
        assert(nul_free(escape_char(s.last())));
        lemma_nul_free_concat(escape_str(s.drop_last()), escape_char(s.last()));
    }
}

proof fn lemma_quoted_nul_free(s: Seq<char>)
    ensures
        nul_free(quoted(s)),
{
    lemma_escape_str_nul_free(s);
    lemma_nul_free_concat(seq!['"'], escape_str(s));
    lemma_nul_free_concat(seq!['"'] + escape_str(s), seq!['"']);
}

proof fn lemma_string_items_nul_free(elems: Seq<Seq<char>>)
    ensures
        nul_free(string_items(elems)),
    decreases elems.len(),
{
    if elems.len() == 0 {
    } else if elems.len() == 1 {
        lemma_quoted_nul_free(elems[0]);
    } else {
        lemma_string_items_nul_free(elems.drop_last());
        lemma_quoted_nul_free(elems.last());
        lemma_nul_free_concat(string_items(elems.drop_last()), seq![',']);
        lemma_nul_free_concat(string_items(elems.drop_last()) + seq![','], quoted(elems.last()));
    }
}

proof fn lemma_string_array_nul_free(elems: Seq<Seq<char>>)
    ensures
        nul_free(string_array(elems)),
{
    lemma_string_items_nul_free(elems);
    lemma_nul_free_concat(seq!['['], string_items(elems));
    lemma_nul_free_concat(seq!['['] + string_items(elems), seq![']']);
}

proof fn lemma_dec_rec_nul_free(n: int)
    ensures
        nul_free(dec_rec(n)),
    decreases n,
{
    if n <= 0 {
    } else {
        lemma_dec_rec_nul_free(n / 10);
        lemma_nul_free_concat(dec_rec(n / 10), seq![dec_digit(n % 10)]);
    }
}

proof fn lemma_dec_str_nul_free(n: int)
    ensures
        nul_free(dec_str(n)),
{
    lemma_dec_rec_nul_free(n);
}

proof fn lemma_id_items_nul_free(ids: Seq<u32>)
    ensures
        nul_free(id_items(ids)),
    decreases ids.len(),
{
    if ids.len() == 0 {
    } else if ids.len() == 1 {
        lemma_dec_str_nul_free(ids[0] as int);
    } else {
        lemma_id_items_nul_free(ids.drop_last());
        lemma_dec_str_nul_free(ids.last() as int);
        lemma_nul_free_concat(id_items(ids.drop_last()), seq![',']);
        lemma_nul_free_concat(id_items(ids.drop_last()) + seq![','], dec_str(ids.last() as int));
    }
}

proof fn lemma_id_array_nul_free(ids: Seq<u32>)
    ensures
        nul_free(id_array(ids)),
{
    lemma_id_items_nul_free(ids);
    lemma_nul_free_concat(seq!['['], id_items(ids));
    lemma_nul_free_concat(seq!['['] + id_items(ids), seq![']']);
}

/// Law: the payload can always be handed across the boundary as a
/// NUL-terminated text buffer — escaping leaves no NUL character in it, so
/// output construction never fails on a successful tokenization.
pub proof fn lemma_payload_nul_free(
    tokens: Seq<Seq<char>>,
    ids: Seq<u32>,
    trace: Option<Seq<Seq<char>>>,
)
    ensures
        nul_free(payload(tokens, ids, trace)),
{
    reveal_strlit("{\"tokens\":");
    reveal_strlit(",\"ids\":");
    reveal_strlit(",\"debug_logs\":");
    reveal_strlit("}");
    assert(nul_free("{\"tokens\":"@));
    assert(nul_free(",\"ids\":"@));
    assert(nul_free(",\"debug_logs\":"@));
    assert(nul_free("}"@));
    lemma_string_array_nul_free(tokens);
    lemma_id_array_nul_free(ids);
    let head = "{\"tokens\":"@ + string_array(tokens);
    lemma_nul_free_concat("{\"tokens\":"@, string_array(tokens));
    lemma_nul_free_concat(head, ",\"ids\":"@);
    lemma_nul_free_concat(head + ",\"ids\":"@, id_array(ids));
    let mid = head + ",\"ids\":"@ + id_array(ids);
    let tail = match trace {
        Some(t) => ",\"debug_logs\":"@ + string_array(t),
        None => Seq::<char>::empty(),
    };
    match trace {
        Some(t) => {
            lemma_string_array_nul_free(t);
            lemma_nul_free_concat(",\"debug_logs\":"@, string_array(t));
        },
        None => {},
    }
    lemma_nul_free_concat(mid, tail);
    lemma_nul_free_concat(mid + tail, "}"@);
}

/// Law: the encoder is deterministic — two payloads built from the same
/// tokens, ids and trace are byte-identical.
pub proof fn lemma_payload_deterministic(
    tokens: Seq<Seq<char>>,
    ids: Seq<u32>,
    trace: Option<Seq<Seq<char>>>,
    p1: Seq<char>,
    p2: Seq<char>,
)
    requires
        p1 == payload(tokens, ids, trace),
        p2 == payload(tokens, ids, trace),
    ensures
        p1 == p2,
{
}

} // verus!
