use vstd::prelude::*;

use crate::avalanche_request::{ForecastView, ProblemView};
use crate::codec::{
    enc_forecast, enc_problem, enc_problems_inner, enc_string, enc_u32, esc_char, esc_seq,
    hex_char, wf_forecast,
};
use crate::datetime::{
    date_time_text, digit_char, lemma_date_time_round_trip, spec_parse_date_time, valid_date_time,
    ForecastDateTime,
};
use crate::digit_val;
use crate::is_digit;

verus! {

/// Take an expected literal off the front of a text.
pub open spec fn dec_lit(s: Seq<char>, lit: Seq<char>) -> Option<Seq<char>> {
    if s.len() >= lit.len() && s.take(lit.len() as int) == lit {
        Some(s.skip(lit.len() as int))
    } else {
        None
    }
}

/// A literal followed by anything decodes to that anything.
pub proof fn lemma_dec_lit(lit: Seq<char>, r: Seq<char>)
    ensures
        dec_lit(lit + r, lit) == Some(r),
{
    assert((lit + r).take(lit.len() as int) =~= lit);
    assert((lit + r).skip(lit.len() as int) =~= r);
}

/// Length of the leading run of decimal digits.
pub open spec fn digit_run_len(s: Seq<char>) -> nat
    decreases s.len(),
{
    if s.len() == 0 || !is_digit(s[0]) {
        0
    } else {
        1 + digit_run_len(s.drop_first())
    }
}

/// Numeric value of a digit text, most significant first.
pub open spec fn val_of_digits(d: Seq<char>) -> int
    decreases d.len(),
{
    if d.len() == 0 {
        0
    } else {
        val_of_digits(d.drop_last()) * 10 + digit_val(d.last())
    }
}

/// Take a decimal number off the front of a text: the maximal digit run,
/// read as a base-ten value, when there is one and it fits.
pub open spec fn dec_u32(s: Seq<char>) -> Option<(u32, Seq<char>)> {
    let k = digit_run_len(s);
    if k == 0 {
        None
    } else if val_of_digits(s.take(k as int)) > u32::MAX {
        None
    } else {
        Some((val_of_digits(s.take(k as int)) as u32, s.skip(k as int)))
    }
}

/// The digits of a number are digits, and there is at least one.
pub proof fn lemma_enc_u32_digits(n: u32)
    ensures
        enc_u32(n).len() >= 1,
        forall|i: int| 0 <= i < enc_u32(n).len() ==> is_digit(#[trigger] enc_u32(n)[i]),
    decreases n,
{
    if n < 10 {
    } else {
        lemma_enc_u32_digits(n / 10);
    }
}

/// A digit text followed by a non-digit has exactly that digit run.
pub proof fn lemma_digit_run_of(a: Seq<char>, r: Seq<char>)
    requires
        forall|i: int| 0 <= i < a.len() ==> is_digit(#[trigger] a[i]),
        r.len() == 0 || !is_digit(r[0]),
    ensures
        digit_run_len(a + r) == a.len(),
    decreases a.len(),
{
    if a.len() == 0 {
        assert(a + r =~= r);
    } else {
        assert((a + r)[0] == a[0]);
        assert((a + r).drop_first() =~= a.drop_first() + r);
        lemma_digit_run_of(a.drop_first(), r);
    }
}

/// Reading the digits of a number gives the number back.
pub proof fn lemma_val_of_enc(n: u32)
    ensures
        val_of_digits(enc_u32(n)) == n,
    decreases n,
{
    if n < 10 {
        let d = enc_u32(n);
        assert(d == seq![digit_char(n as int)]);
        assert(d.drop_last() =~= Seq::<char>::empty());
        assert(val_of_digits(Seq::<char>::empty()) == 0);
        assert(d.last() == digit_char(n as int));
        assert(digit_val(digit_char(n as int)) == n);
    } else {
        lemma_val_of_enc(n / 10);
        assert(enc_u32(n).drop_last() =~= enc_u32(n / 10));
        assert(enc_u32(n).last() == digit_char((n % 10) as int));
        assert(digit_val(digit_char((n % 10) as int)) == n % 10);
        assert(val_of_digits(enc_u32(n)) == val_of_digits(enc_u32(n / 10)) * 10 + digit_val(
            digit_char((n % 10) as int),
        ));
        assert((n / 10) * 10 + n % 10 == n);
    }
}

/// A number's digits followed by a non-digit decode to that number.
pub proof fn lemma_dec_u32(n: u32, r: Seq<char>)
    requires
        r.len() == 0 || !is_digit(r[0]),
    ensures
        dec_u32(enc_u32(n) + r) == Some((n, r)),
{
    lemma_enc_u32_digits(n);
    lemma_digit_run_of(enc_u32(n), r);
    lemma_val_of_enc(n);
    assert((enc_u32(n) + r).take(enc_u32(n).len() as int) =~= enc_u32(n));
    assert((enc_u32(n) + r).skip(enc_u32(n).len() as int) =~= r);
}

/// Take a canonical `YYYY-MM-DDTHH:MM:SS` timestamp off the front.
pub open spec fn dec_date_time(s: Seq<char>) -> Option<(ForecastDateTime, Seq<char>)> {
    if s.len() >= 19 {
        match spec_parse_date_time(s.take(19), 'T') {
            Some(dt) => Some((dt, s.skip(19))),
            None => None,
        }
    } else {
        None
    }
}

/// A valid timestamp's text decodes to that timestamp.
pub proof fn lemma_dec_date_time(dt: ForecastDateTime, r: Seq<char>)
    requires
        valid_date_time(dt),
    ensures
        dec_date_time(date_time_text(dt, 'T') + r) == Some((dt, r)),
{
    lemma_date_time_round_trip(dt, 'T');
    assert((date_time_text(dt, 'T') + r).take(19) =~= date_time_text(dt, 'T'));
    assert((date_time_text(dt, 'T') + r).skip(19) =~= r);
}

/// Lowercase hexadecimal digit test.
pub open spec fn is_hex_lower(c: char) -> bool {
    is_digit(c) || ('a' <= c && c <= 'f')
}

/// Value of a lowercase hexadecimal digit.
pub open spec fn hex_val(c: char) -> int {
    if is_digit(c) {
        digit_val(c)
    } else {
        c as int - 87
    }
}

/// Take a string body off the front, up to an unescaped closing quote,
/// undoing the canonical escapes.
pub open spec fn dec_str_body(s: Seq<char>) -> Option<(Seq<char>, Seq<char>)>
    decreases s.len(),
{
    if s.len() == 0 {
        None
    } else if s[0] == '"' {
        Some((Seq::empty(), s.drop_first()))
    } else if s[0] == '\\' {
        if s.len() >= 2 && (s[1] == '"' || s[1] == '\\' || s[1] == 'n' || s[1] == 'r' || s[1]
            == 't') {
            let c = if s[1] == '"' {
                '"'
            } else if s[1] == '\\' {
                '\\'
            } else if s[1] == 'n' {
                '\n'
            } else if s[1] == 'r' {
                '\r'
            } else {
                '\t'
            };
            match dec_str_body(s.skip(2)) {
                Some((b, r)) => Some((seq![c] + b, r)),
                None => None,
            }
        } else if s.len() >= 6 && s[1] == 'u' && s[2] == '0' && s[3] == '0' && is_hex_lower(s[4])
            && is_hex_lower(s[5]) && hex_val(s[4]) * 16 + hex_val(s[5]) < 32 && hex_val(s[4]) * 16
            + hex_val(s[5]) != 9 && hex_val(s[4]) * 16 + hex_val(s[5]) != 10 && hex_val(s[4]) * 16
            + hex_val(s[5]) != 13 {
            match dec_str_body(s.skip(6)) {
                Some((b, r)) => Some((seq![(hex_val(s[4]) * 16 + hex_val(s[5])) as char] + b, r)),
                None => None,
            }
        } else {
            None
        }
    } else if s[0] as int >= 32 {
        match dec_str_body(s.drop_first()) {
            Some((b, r)) => Some((seq![s[0]] + b, r)),
            None => None,
        }
    } else {
        None
    }
}

/// An escaped text, closing quote and remainder decode to the text and the
/// remainder.
pub proof fn lemma_dec_str_body(b: Seq<char>, r: Seq<char>)
    ensures
        dec_str_body(esc_seq(b) + seq!['"'] + r) == Some((b, r)),
    decreases b.len(),
{
    if b.len() == 0 {
        assert(esc_seq(b) + seq!['"'] + r =~= seq!['"'] + r);
        assert((seq!['"'] + r)[0] == '"');
        assert((seq!['"'] + r).drop_first() =~= r);
        assert(Seq::<char>::empty() =~= b);
    } else {
        let c = b[0];
        let e = esc_char(c);
        let s = esc_seq(b) + seq!['"'] + r;
        let tail = esc_seq(b.drop_first()) + seq!['"'] + r;
        assert(esc_seq(b) == esc_char(c) + esc_seq(b.drop_first()));
        assert(s =~= e + tail);
        assert(forall|i: int| 0 <= i < e.len() ==> s[i] == e[i]);
        lemma_dec_str_body(b.drop_first(), r);
        if c == '"' || c == '\\' || c == '\n' || c == '\r' || c == '\t' {
            assert(s[0] == '\\');
            assert(s.len() >= 2);
            assert(s.skip(2) =~= tail);
            assert(seq![c] + b.drop_first() =~= b);
        } else if (c as int) < 32 {
            assert(s[0] == '\\' && s[1] == 'u' && s[2] == '0' && s[3] == '0');
            assert(s[4] == hex_char(c as int / 16));
            assert(s[5] == hex_char(c as int % 16));
            lemma_hex_recover(c);
            assert(s.skip(6) =~= tail);
            assert(seq![(hex_val(s[4]) * 16 + hex_val(s[5])) as char] + b.drop_first() =~= b);
        } else {
            assert(e =~= seq![c]);
            assert(s[0] == c);
            assert(s[0] != '"' && s[0] != '\\' && s[0] as int >= 32);
            assert(s.drop_first() =~= tail);
            assert(seq![c] + b.drop_first() =~= b);
        }
    }
}

/// The two lowercase hex digits of a control character recover it.
pub proof fn lemma_hex_recover(c: char)
    requires
        (c as int) < 32,
        c != '\n' && c != '\r' && c != '\t',
    ensures
        is_hex_lower(hex_char(c as int / 16)),
        is_hex_lower(hex_char(c as int % 16)),
        hex_val(hex_char(c as int / 16)) == c as int / 16,
        hex_val(hex_char(c as int % 16)) == c as int % 16,
        hex_val(hex_char(c as int / 16)) * 16 + hex_val(hex_char(c as int % 16)) == c as int,
        ((hex_val(hex_char(c as int / 16)) * 16 + hex_val(hex_char(c as int % 16))) as char) == c,
        hex_val(hex_char(c as int / 16)) * 16 + hex_val(hex_char(c as int % 16)) != 9,
        hex_val(hex_char(c as int / 16)) * 16 + hex_val(hex_char(c as int % 16)) != 10,
        hex_val(hex_char(c as int / 16)) * 16 + hex_val(hex_char(c as int % 16)) != 13,
{
}

/// Take a JSON string value off the front.
pub open spec fn dec_string(s: Seq<char>) -> Option<(Seq<char>, Seq<char>)> {
    if s.len() >= 1 && s[0] == '"' {
        dec_str_body(s.drop_first())
    } else {
        None
    }
}

/// A canonical string value decodes to its text.
pub proof fn lemma_dec_string(b: Seq<char>, r: Seq<char>)
    ensures
        dec_string(enc_string(b) + r) == Some((b, r)),
{
    let s = enc_string(b) + r;
    assert(s[0] == '"');
    assert(s.drop_first() =~= esc_seq(b) + seq!['"'] + r);
    lemma_dec_str_body(b, r);
}

/// An expected literal followed by a number.
pub open spec fn dec_field_u32(s: Seq<char>, lit: Seq<char>) -> Option<(u32, Seq<char>)> {
    match dec_lit(s, lit) {
        None => None,
        Some(s1) => dec_u32(s1),
    }
}

/// Take one canonical problem object off the front.
pub open spec fn dec_problem(s: Seq<char>) -> Option<(ProblemView, Seq<char>)> {
    match dec_lit(s, "{\"additional_notes\":"@) {
        None => None,
        Some(s1) => match dec_string(s1) {
            None => None,
            Some((notes, s2)) => match dec_field_u32(s2, ",\"aspects\":"@) {
                None => None,
                Some((aspects, s4)) => match dec_field_u32(s4, ",\"elevations\":"@) {
                    None => None,
                    Some((elevations, s6)) => dec_problem_tail(notes, aspects, elevations, s6),
                },
            },
        },
    }
}

/// The enumerated codes and closing brace of a problem object.
pub open spec fn dec_problem_tail(
    notes: Seq<char>,
    aspects: u32,
    elevations: u32,
    s: Seq<char>,
) -> Option<(ProblemView, Seq<char>)> {
    match dec_field_u32(s, ",\"problem_type\":"@) {
        None => None,
        Some((problem_type, s8)) => match dec_field_u32(s8, ",\"likelihood\":"@) {
            None => None,
            Some((likelihood, s10)) => match dec_field_u32(s10, ",\"size\":"@) {
                None => None,
                Some((size, s12)) => match dec_lit(s12, "}"@) {
                    None => None,
                    Some(s13) => Some(
                        (
                            ProblemView {
                                additional_notes: notes,
                                aspects,
                                elevations,
                                problem_type,
                                likelihood,
                                size,
                            },
                            s13,
                        ),
                    ),
                },
            },
        },
    }
}

/// Concatenation associates.
pub proof fn lemma_assoc(a: Seq<char>, b: Seq<char>, c: Seq<char>)
    ensures
        (a + b) + c == a + (b + c),
{
    assert((a + b) + c =~= a + (b + c));
}

/// A canonical problem object decodes to its record.
#[verifier::rlimit(100)]
pub proof fn lemma_dec_problem(pv: ProblemView, r: Seq<char>)
    ensures
        dec_problem(enc_problem(pv) + r) == Some((pv, r)),
{
    reveal_strlit(",\"aspects\":");
    reveal_strlit(",\"elevations\":");
    reveal_strlit(",\"problem_type\":");
    reveal_strlit(",\"likelihood\":");
    reveal_strlit(",\"size\":");
    reveal_strlit("}");
    let s = enc_problem(pv) + r;
    let t14 = r;
    let t13 = "}"@ + t14;
    let t12 = enc_u32(pv.size) + t13;
    let t11 = ",\"size\":"@ + t12;
    let t10 = enc_u32(pv.likelihood) + t11;
    let t9 = ",\"likelihood\":"@ + t10;
    let t8 = enc_u32(pv.problem_type) + t9;
    let t7 = ",\"problem_type\":"@ + t8;
    let t6 = enc_u32(pv.elevations) + t7;
    let t5 = ",\"elevations\":"@ + t6;
    let t4 = enc_u32(pv.aspects) + t5;
    let t3 = ",\"aspects\":"@ + t4;
    let t2 = enc_string(pv.additional_notes) + t3;
    let t1 = "{\"additional_notes\":"@ + t2;
    assert(s == "{\"additional_notes\":"@ + enc_string(pv.additional_notes) + ",\"aspects\":"@ + enc_u32(pv.aspects) + ",\"elevations\":"@ + enc_u32(pv.elevations) + ",\"problem_type\":"@ + enc_u32(pv.problem_type) + ",\"likelihood\":"@ + enc_u32(pv.likelihood) + ",\"size\":"@ + enc_u32(pv.size) + "}"@ + t14);
    lemma_assoc("{\"additional_notes\":"@ + enc_string(pv.additional_notes) + ",\"aspects\":"@ + enc_u32(pv.aspects) + ",\"elevations\":"@ + enc_u32(pv.elevations) + ",\"problem_type\":"@ + enc_u32(pv.problem_type) + ",\"likelihood\":"@ + enc_u32(pv.likelihood) + ",\"size\":"@ + enc_u32(pv.size), "}"@, t14);
    assert(s == "{\"additional_notes\":"@ + enc_string(pv.additional_notes) + ",\"aspects\":"@ + enc_u32(pv.aspects) + ",\"elevations\":"@ + enc_u32(pv.elevations) + ",\"problem_type\":"@ + enc_u32(pv.problem_type) + ",\"likelihood\":"@ + enc_u32(pv.likelihood) + ",\"size\":"@ + enc_u32(pv.size) + t13);
    lemma_assoc("{\"additional_notes\":"@ + enc_string(pv.additional_notes) + ",\"aspects\":"@ + enc_u32(pv.aspects) + ",\"elevations\":"@ + enc_u32(pv.elevations) + ",\"problem_type\":"@ + enc_u32(pv.problem_type) + ",\"likelihood\":"@ + enc_u32(pv.likelihood) + ",\"size\":"@, enc_u32(pv.size), t13);
    assert(s == "{\"additional_notes\":"@ + enc_string(pv.additional_notes) + ",\"aspects\":"@ + enc_u32(pv.aspects) + ",\"elevations\":"@ + enc_u32(pv.elevations) + ",\"problem_type\":"@ + enc_u32(pv.problem_type) + ",\"likelihood\":"@ + enc_u32(pv.likelihood) + ",\"size\":"@ + t12);
    lemma_assoc("{\"additional_notes\":"@ + enc_string(pv.additional_notes) + ",\"aspects\":"@ + enc_u32(pv.aspects) + ",\"elevations\":"@ + enc_u32(pv.elevations) + ",\"problem_type\":"@ + enc_u32(pv.problem_type) + ",\"likelihood\":"@ + enc_u32(pv.likelihood), ",\"size\":"@, t12);
    assert(s == "{\"additional_notes\":"@ + enc_string(pv.additional_notes) + ",\"aspects\":"@ + enc_u32(pv.aspects) + ",\"elevations\":"@ + enc_u32(pv.elevations) + ",\"problem_type\":"@ + enc_u32(pv.problem_type) + ",\"likelihood\":"@ + enc_u32(pv.likelihood) + t11);
    lemma_assoc("{\"additional_notes\":"@ + enc_string(pv.additional_notes) + ",\"aspects\":"@ + enc_u32(pv.aspects) + ",\"elevations\":"@ + enc_u32(pv.elevations) + ",\"problem_type\":"@ + enc_u32(pv.problem_type) + ",\"likelihood\":"@, enc_u32(pv.likelihood), t11);
    assert(s == "{\"additional_notes\":"@ + enc_string(pv.additional_notes) + ",\"aspects\":"@ + enc_u32(pv.aspects) + ",\"elevations\":"@ + enc_u32(pv.elevations) + ",\"problem_type\":"@ + enc_u32(pv.problem_type) + ",\"likelihood\":"@ + t10);
    lemma_assoc("{\"additional_notes\":"@ + enc_string(pv.additional_notes) + ",\"aspects\":"@ + enc_u32(pv.aspects) + ",\"elevations\":"@ + enc_u32(pv.elevations) + ",\"problem_type\":"@ + enc_u32(pv.problem_type), ",\"likelihood\":"@, t10);
    assert(s == "{\"additional_notes\":"@ + enc_string(pv.additional_notes) + ",\"aspects\":"@ + enc_u32(pv.aspects) + ",\"elevations\":"@ + enc_u32(pv.elevations) + ",\"problem_type\":"@ + enc_u32(pv.problem_type) + t9);
    lemma_assoc("{\"additional_notes\":"@ + enc_string(pv.additional_notes) + ",\"aspects\":"@ + enc_u32(pv.aspects) + ",\"elevations\":"@ + enc_u32(pv.elevations) + ",\"problem_type\":"@, enc_u32(pv.problem_type), t9);
    assert(s == "{\"additional_notes\":"@ + enc_string(pv.additional_notes) + ",\"aspects\":"@ + enc_u32(pv.aspects) + ",\"elevations\":"@ + enc_u32(pv.elevations) + ",\"problem_type\":"@ + t8);
    lemma_assoc("{\"additional_notes\":"@ + enc_string(pv.additional_notes) + ",\"aspects\":"@ + enc_u32(pv.aspects) + ",\"elevations\":"@ + enc_u32(pv.elevations), ",\"problem_type\":"@, t8);
    assert(s == "{\"additional_notes\":"@ + enc_string(pv.additional_notes) + ",\"aspects\":"@ + enc_u32(pv.aspects) + ",\"elevations\":"@ + enc_u32(pv.elevations) + t7);
    lemma_assoc("{\"additional_notes\":"@ + enc_string(pv.additional_notes) + ",\"aspects\":"@ + enc_u32(pv.aspects) + ",\"elevations\":"@, enc_u32(pv.elevations), t7);
    assert(s == "{\"additional_notes\":"@ + enc_string(pv.additional_notes) + ",\"aspects\":"@ + enc_u32(pv.aspects) + ",\"elevations\":"@ + t6);
    lemma_assoc("{\"additional_notes\":"@ + enc_string(pv.additional_notes) + ",\"aspects\":"@ + enc_u32(pv.aspects), ",\"elevations\":"@, t6);
    assert(s == "{\"additional_notes\":"@ + enc_string(pv.additional_notes) + ",\"aspects\":"@ + enc_u32(pv.aspects) + t5);
    lemma_assoc("{\"additional_notes\":"@ + enc_string(pv.additional_notes) + ",\"aspects\":"@, enc_u32(pv.aspects), t5);
    assert(s == "{\"additional_notes\":"@ + enc_string(pv.additional_notes) + ",\"aspects\":"@ + t4);
    lemma_assoc("{\"additional_notes\":"@ + enc_string(pv.additional_notes), ",\"aspects\":"@, t4);
    assert(s == "{\"additional_notes\":"@ + enc_string(pv.additional_notes) + t3);
    lemma_assoc("{\"additional_notes\":"@, enc_string(pv.additional_notes), t3);
    assert(s == "{\"additional_notes\":"@ + t2);
    lemma_dec_lit("{\"additional_notes\":"@, t2);
    lemma_dec_string(pv.additional_notes, t3);
    assert(t3[0] == ',');
    lemma_dec_lit(",\"aspects\":"@, t4);
    lemma_dec_u32(pv.aspects, t5);
    assert(t5[0] == ',');
    lemma_dec_lit(",\"elevations\":"@, t6);
    lemma_dec_u32(pv.elevations, t7);
    assert(t7[0] == ',');
    lemma_dec_lit(",\"problem_type\":"@, t8);
    lemma_dec_u32(pv.problem_type, t9);
    assert(t9[0] == ',');
    lemma_dec_lit(",\"likelihood\":"@, t10);
    lemma_dec_u32(pv.likelihood, t11);
    assert(t11[0] == ',');
    lemma_dec_lit(",\"size\":"@, t12);
    lemma_dec_u32(pv.size, t13);
    assert(t13[0] == '}');
    lemma_dec_lit("}"@, r);
}

/// Take a comma-separated run of problem objects and the closing bracket
/// off the front.
pub open spec fn dec_problems_rest(s: Seq<char>) -> Option<(Seq<ProblemView>, Seq<char>)>
    decreases s.len(),
{
    match dec_problem(s) {
        None => None,
        Some((pv, r)) => if r.len() >= 1 && r[0] == ',' && r.len() < s.len() {
            match dec_problems_rest(r.skip(1)) {
                Some((ps, r2)) => Some((seq![pv] + ps, r2)),
                None => None,
            }
        } else if r.len() >= 1 && r[0] == ']' {
            Some((seq![pv], r.skip(1)))
        } else {
            None
        },
    }
}

/// Take a whole problem array body (after its opening bracket) off the
/// front.
pub open spec fn dec_problem_list(s: Seq<char>) -> Option<(Seq<ProblemView>, Seq<char>)> {
    if s.len() >= 1 && s[0] == ']' {
        Some((Seq::empty(), s.skip(1)))
    } else {
        dec_problems_rest(s)
    }
}

/// The joined problem objects, read from the front.
pub proof fn lemma_enc_inner_front(ps: Seq<ProblemView>)
    requires
        ps.len() >= 2,
    ensures
        enc_problems_inner(ps) == enc_problem(ps[0]) + ","@ + enc_problems_inner(ps.drop_first()),
    decreases ps.len(),
{
    if ps.len() == 2 {
        assert(ps.drop_last().len() == 1);
        assert(ps.drop_last()[0] == ps[0]);
        assert(ps.drop_first().len() == 1);
        assert(ps.drop_first()[0] == ps[1]);
        assert(ps.last() == ps[1]);
        assert(enc_problems_inner(ps.drop_last()) == enc_problem(ps[0]));
        assert(enc_problems_inner(ps.drop_first()) == enc_problem(ps[1]));
        assert(enc_problems_inner(ps) == enc_problems_inner(ps.drop_last()) + ","@ + enc_problem(
            ps.last(),
        ));
    } else {
        lemma_enc_inner_front(ps.drop_last());
        assert(enc_problems_inner(ps) == enc_problems_inner(ps.drop_last()) + ","@ + enc_problem(
            ps.last(),
        ));
        assert(ps.drop_last()[0] == ps[0]);
        assert(ps.drop_last().drop_first() =~= ps.drop_first().drop_last());
        assert(ps.drop_first().len() >= 2);
        assert(ps.drop_first().last() == ps.last());
        assert(ps.drop_first().last() == ps.last());
        assert(enc_problems_inner(ps.drop_first()) == enc_problems_inner(
            ps.drop_first().drop_last(),
        ) + ","@ + enc_problem(ps.drop_first().last()));
        assert((enc_problem(ps[0]) + ","@ + (enc_problems_inner(ps.drop_first().drop_last())
            + ","@ + enc_problem(ps.last()))) =~= ((enc_problem(ps[0]) + ","@
            + enc_problems_inner(ps.drop_first().drop_last())) + ","@ + enc_problem(ps.last())));
    }
}

/// A problem object's text opens with a brace.
pub proof fn lemma_enc_problem_first(pv: ProblemView)
    ensures
        enc_problem(pv).len() >= 1,
        enc_problem(pv)[0] == '{',
{
    reveal_strlit("{\"additional_notes\":");
}

/// A joined problem run's text opens with a brace.
pub proof fn lemma_inner_first(ps: Seq<ProblemView>)
    requires
        ps.len() >= 1,
    ensures
        enc_problems_inner(ps).len() >= 1,
        enc_problems_inner(ps)[0] == '{',
    decreases ps.len(),
{
    if ps.len() == 1 {
        lemma_enc_problem_first(ps[0]);
    } else {
        lemma_enc_inner_front(ps);
        lemma_enc_problem_first(ps[0]);
        assert(enc_problems_inner(ps) == (enc_problem(ps[0]) + ","@) + enc_problems_inner(
            ps.drop_first(),
        ));
        assert(enc_problems_inner(ps)[0] == enc_problem(ps[0])[0]);
    }
}

/// A canonical problem array body decodes to its records.
#[verifier::rlimit(100)]
pub proof fn lemma_dec_problem_list(ps: Seq<ProblemView>, r: Seq<char>)
    ensures
        dec_problem_list(enc_problems_inner(ps) + seq![']'] + r) == Some((ps, r)),
    decreases ps.len(),
{
    reveal_strlit(",");
    let s = enc_problems_inner(ps) + seq![']'] + r;
    if ps.len() == 0 {
        assert(s =~= seq![']'] + r);
        assert(s[0] == ']');
        assert(s.skip(1) =~= r);
        assert(Seq::<ProblemView>::empty() =~= ps);
    } else if ps.len() == 1 {
        let e = enc_problem(ps[0]);
        let rest = seq![']'] + r;
        lemma_assoc(e, seq![']'], r);
        assert(s == e + rest);
        lemma_dec_problem(ps[0], rest);
        lemma_enc_problem_first(ps[0]);
        assert(s[0] == '{');
        assert(rest[0] == ']');
        assert(rest.skip(1) =~= r);
        assert(seq![ps[0]] =~= ps);
        assert(dec_problems_rest(s) == Some((ps, r)));
    } else {
        lemma_enc_inner_front(ps);
        let e = enc_problem(ps[0]);
        let innerdf = enc_problems_inner(ps.drop_first());
        assert(enc_problems_inner(ps) == (e + ","@) + innerdf);
        let z = innerdf + (seq![']'] + r);
        let rest = ","@ + z;
        lemma_assoc((e + ","@) + innerdf, seq![']'], r);
        lemma_assoc(e + ","@, innerdf, seq![']'] + r);
        lemma_assoc(e, ","@, z);
        assert(s == e + rest);
        lemma_dec_problem(ps[0], rest);
        lemma_enc_problem_first(ps[0]);
        lemma_inner_first(ps.drop_first());
        assert(s[0] == '{');
        assert(rest[0] == ',');
        assert(rest.len() < s.len());
        assert(rest.skip(1) =~= z);
        lemma_dec_problem_list(ps.drop_first(), r);
        lemma_assoc(innerdf, seq![']'], r);
        assert(z == (innerdf + seq![']']) + r);
        assert(z[0] == '{');
        assert(dec_problem_list(z) == Some((ps.drop_first(), r)));
        assert(dec_problems_rest(z) == Some((ps.drop_first(), r)));
        assert(seq![ps[0]] + ps.drop_first() =~= ps);
        assert(dec_problems_rest(s) == Some((ps, r)));
    }
}

/// Take one canonical forecast object off the front.
pub open spec fn dec_forecast(s: Seq<char>) -> Option<(ForecastView, Seq<char>)> {
    match dec_lit(s, "{\"zone_id\":"@) {
        None => None,
        Some(s1) => match dec_u32(s1) {
            None => None,
            Some((zone_id, s2)) => match dec_lit(s2, ",\"forecast_date\":\""@) {
                None => None,
                Some(s3) => match dec_date_time(s3) {
                    None => None,
                    Some((forecast_date, s4)) => match dec_lit(s4, "\",\"bottom_line\":"@) {
                        None => None,
                        Some(s5) => match dec_string(s5) {
                            None => None,
                            Some((bottom_line, s6)) => dec_forecast_tail(
                                zone_id,
                                forecast_date,
                                bottom_line,
                                s6,
                            ),
                        },
                    },
                },
            },
        },
    }
}

/// The danger fields, problem array and closing brace of a forecast
/// object.
pub open spec fn dec_forecast_tail(
    zone_id: u32,
    forecast_date: ForecastDateTime,
    bottom_line: Seq<char>,
    s: Seq<char>,
) -> Option<(ForecastView, Seq<char>)> {
    match dec_field_u32(s, ",\"overall_danger\":"@) {
        None => None,
        Some((overall_danger, s8)) => match dec_field_u32(s8, ",\"danger_above_treeline\":"@) {
            None => None,
            Some((above, s10)) => match dec_field_u32(s10, ",\"danger_at_treeline\":"@) {
                None => None,
                Some((at, s12)) => match dec_field_u32(s12, ",\"danger_below_treeling\":"@) {
                    None => None,
                    Some((below, s14)) => match dec_lit(s14, ",\"avalanche_problems\":["@) {
                        None => None,
                        Some(s15) => match dec_problem_list(s15) {
                            None => None,
                            Some((problems, s16)) => match dec_lit(s16, "}"@) {
                                None => None,
                                Some(s17) => Some(
                                    (
                                        ForecastView {
                                            zone_id,
                                            forecast_date,
                                            bottom_line,
                                            overall_danger,
                                            danger_above_treeline: above,
                                            danger_at_treeline: at,
                                            danger_below_treeling: below,
                                            avalanche_problems: problems,
                                        },
                                        s17,
                                    ),
                                ),
                            },
                        },
                    },
                },
            },
        },
    }
}

/// A canonical forecast object decodes to its record.
#[verifier::rlimit(100)]
pub proof fn lemma_dec_forecast(fv: ForecastView, r: Seq<char>)
    requires
        wf_forecast(fv),
    ensures
        dec_forecast(enc_forecast(fv) + r) == Some((fv, r)),
{
    reveal_strlit(",\"forecast_date\":\"");
    reveal_strlit("\",\"bottom_line\":");
    reveal_strlit(",\"overall_danger\":");
    reveal_strlit(",\"danger_above_treeline\":");
    reveal_strlit(",\"danger_at_treeline\":");
    reveal_strlit(",\"danger_below_treeling\":");
    reveal_strlit(",\"avalanche_problems\":[");
    reveal_strlit("]}");
    reveal_strlit("}");
    let s = enc_forecast(fv) + r;
    let t18 = r;
    let t17 = "]}"@ + t18;
    let t16 = enc_problems_inner(fv.avalanche_problems) + t17;
    let t15 = ",\"avalanche_problems\":["@ + t16;
    let t14 = enc_u32(fv.danger_below_treeling) + t15;
    let t13 = ",\"danger_below_treeling\":"@ + t14;
    let t12 = enc_u32(fv.danger_at_treeline) + t13;
    let t11 = ",\"danger_at_treeline\":"@ + t12;
    let t10 = enc_u32(fv.danger_above_treeline) + t11;
    let t9 = ",\"danger_above_treeline\":"@ + t10;
    let t8 = enc_u32(fv.overall_danger) + t9;
    let t7 = ",\"overall_danger\":"@ + t8;
    let t6 = enc_string(fv.bottom_line) + t7;
    let t5 = "\",\"bottom_line\":"@ + t6;
    let t4 = date_time_text(fv.forecast_date, 'T') + t5;
    let t3 = ",\"forecast_date\":\""@ + t4;
    let t2 = enc_u32(fv.zone_id) + t3;
    let t1 = "{\"zone_id\":"@ + t2;
    assert(s == "{\"zone_id\":"@ + enc_u32(fv.zone_id) + ",\"forecast_date\":\""@ + date_time_text(fv.forecast_date, 'T') + "\",\"bottom_line\":"@ + enc_string(fv.bottom_line) + ",\"overall_danger\":"@ + enc_u32(fv.overall_danger) + ",\"danger_above_treeline\":"@ + enc_u32(fv.danger_above_treeline) + ",\"danger_at_treeline\":"@ + enc_u32(fv.danger_at_treeline) + ",\"danger_below_treeling\":"@ + enc_u32(fv.danger_below_treeling) + ",\"avalanche_problems\":["@ + enc_problems_inner(fv.avalanche_problems) + "]}"@ + t18);
    lemma_assoc("{\"zone_id\":"@ + enc_u32(fv.zone_id) + ",\"forecast_date\":\""@ + date_time_text(fv.forecast_date, 'T') + "\",\"bottom_line\":"@ + enc_string(fv.bottom_line) + ",\"overall_danger\":"@ + enc_u32(fv.overall_danger) + ",\"danger_above_treeline\":"@ + enc_u32(fv.danger_above_treeline) + ",\"danger_at_treeline\":"@ + enc_u32(fv.danger_at_treeline) + ",\"danger_below_treeling\":"@ + enc_u32(fv.danger_below_treeling) + ",\"avalanche_problems\":["@ + enc_problems_inner(fv.avalanche_problems), "]}"@, t18);
    assert(s == "{\"zone_id\":"@ + enc_u32(fv.zone_id) + ",\"forecast_date\":\""@ + date_time_text(fv.forecast_date, 'T') + "\",\"bottom_line\":"@ + enc_string(fv.bottom_line) + ",\"overall_danger\":"@ + enc_u32(fv.overall_danger) + ",\"danger_above_treeline\":"@ + enc_u32(fv.danger_above_treeline) + ",\"danger_at_treeline\":"@ + enc_u32(fv.danger_at_treeline) + ",\"danger_below_treeling\":"@ + enc_u32(fv.danger_below_treeling) + ",\"avalanche_problems\":["@ + enc_problems_inner(fv.avalanche_problems) + t17);
    lemma_assoc("{\"zone_id\":"@ + enc_u32(fv.zone_id) + ",\"forecast_date\":\""@ + date_time_text(fv.forecast_date, 'T') + "\",\"bottom_line\":"@ + enc_string(fv.bottom_line) + ",\"overall_danger\":"@ + enc_u32(fv.overall_danger) + ",\"danger_above_treeline\":"@ + enc_u32(fv.danger_above_treeline) + ",\"danger_at_treeline\":"@ + enc_u32(fv.danger_at_treeline) + ",\"danger_below_treeling\":"@ + enc_u32(fv.danger_below_treeling) + ",\"avalanche_problems\":["@, enc_problems_inner(fv.avalanche_problems), t17);
    assert(s == "{\"zone_id\":"@ + enc_u32(fv.zone_id) + ",\"forecast_date\":\""@ + date_time_text(fv.forecast_date, 'T') + "\",\"bottom_line\":"@ + enc_string(fv.bottom_line) + ",\"overall_danger\":"@ + enc_u32(fv.overall_danger) + ",\"danger_above_treeline\":"@ + enc_u32(fv.danger_above_treeline) + ",\"danger_at_treeline\":"@ + enc_u32(fv.danger_at_treeline) + ",\"danger_below_treeling\":"@ + enc_u32(fv.danger_below_treeling) + ",\"avalanche_problems\":["@ + t16);
    lemma_assoc("{\"zone_id\":"@ + enc_u32(fv.zone_id) + ",\"forecast_date\":\""@ + date_time_text(fv.forecast_date, 'T') + "\",\"bottom_line\":"@ + enc_string(fv.bottom_line) + ",\"overall_danger\":"@ + enc_u32(fv.overall_danger) + ",\"danger_above_treeline\":"@ + enc_u32(fv.danger_above_treeline) + ",\"danger_at_treeline\":"@ + enc_u32(fv.danger_at_treeline) + ",\"danger_below_treeling\":"@ + enc_u32(fv.danger_below_treeling), ",\"avalanche_problems\":["@, t16);
    assert(s == "{\"zone_id\":"@ + enc_u32(fv.zone_id) + ",\"forecast_date\":\""@ + date_time_text(fv.forecast_date, 'T') + "\",\"bottom_line\":"@ + enc_string(fv.bottom_line) + ",\"overall_danger\":"@ + enc_u32(fv.overall_danger) + ",\"danger_above_treeline\":"@ + enc_u32(fv.danger_above_treeline) + ",\"danger_at_treeline\":"@ + enc_u32(fv.danger_at_treeline) + ",\"danger_below_treeling\":"@ + enc_u32(fv.danger_below_treeling) + t15);
    lemma_assoc("{\"zone_id\":"@ + enc_u32(fv.zone_id) + ",\"forecast_date\":\""@ + date_time_text(fv.forecast_date, 'T') + "\",\"bottom_line\":"@ + enc_string(fv.bottom_line) + ",\"overall_danger\":"@ + enc_u32(fv.overall_danger) + ",\"danger_above_treeline\":"@ + enc_u32(fv.danger_above_treeline) + ",\"danger_at_treeline\":"@ + enc_u32(fv.danger_at_treeline) + ",\"danger_below_treeling\":"@, enc_u32(fv.danger_below_treeling), t15);
    assert(s == "{\"zone_id\":"@ + enc_u32(fv.zone_id) + ",\"forecast_date\":\""@ + date_time_text(fv.forecast_date, 'T') + "\",\"bottom_line\":"@ + enc_string(fv.bottom_line) + ",\"overall_danger\":"@ + enc_u32(fv.overall_danger) + ",\"danger_above_treeline\":"@ + enc_u32(fv.danger_above_treeline) + ",\"danger_at_treeline\":"@ + enc_u32(fv.danger_at_treeline) + ",\"danger_below_treeling\":"@ + t14);
    lemma_assoc("{\"zone_id\":"@ + enc_u32(fv.zone_id) + ",\"forecast_date\":\""@ + date_time_text(fv.forecast_date, 'T') + "\",\"bottom_line\":"@ + enc_string(fv.bottom_line) + ",\"overall_danger\":"@ + enc_u32(fv.overall_danger) + ",\"danger_above_treeline\":"@ + enc_u32(fv.danger_above_treeline) + ",\"danger_at_treeline\":"@ + enc_u32(fv.danger_at_treeline), ",\"danger_below_treeling\":"@, t14);
    assert(s == "{\"zone_id\":"@ + enc_u32(fv.zone_id) + ",\"forecast_date\":\""@ + date_time_text(fv.forecast_date, 'T') + "\",\"bottom_line\":"@ + enc_string(fv.bottom_line) + ",\"overall_danger\":"@ + enc_u32(fv.overall_danger) + ",\"danger_above_treeline\":"@ + enc_u32(fv.danger_above_treeline) + ",\"danger_at_treeline\":"@ + enc_u32(fv.danger_at_treeline) + t13);
    lemma_assoc("{\"zone_id\":"@ + enc_u32(fv.zone_id) + ",\"forecast_date\":\""@ + date_time_text(fv.forecast_date, 'T') + "\",\"bottom_line\":"@ + enc_string(fv.bottom_line) + ",\"overall_danger\":"@ + enc_u32(fv.overall_danger) + ",\"danger_above_treeline\":"@ + enc_u32(fv.danger_above_treeline) + ",\"danger_at_treeline\":"@, enc_u32(fv.danger_at_treeline), t13);
    assert(s == "{\"zone_id\":"@ + enc_u32(fv.zone_id) + ",\"forecast_date\":\""@ + date_time_text(fv.forecast_date, 'T') + "\",\"bottom_line\":"@ + enc_string(fv.bottom_line) + ",\"overall_danger\":"@ + enc_u32(fv.overall_danger) + ",\"danger_above_treeline\":"@ + enc_u32(fv.danger_above_treeline) + ",\"danger_at_treeline\":"@ + t12);
    lemma_assoc("{\"zone_id\":"@ + enc_u32(fv.zone_id) + ",\"forecast_date\":\""@ + date_time_text(fv.forecast_date, 'T') + "\",\"bottom_line\":"@ + enc_string(fv.bottom_line) + ",\"overall_danger\":"@ + enc_u32(fv.overall_danger) + ",\"danger_above_treeline\":"@ + enc_u32(fv.danger_above_treeline), ",\"danger_at_treeline\":"@, t12);
    assert(s == "{\"zone_id\":"@ + enc_u32(fv.zone_id) + ",\"forecast_date\":\""@ + date_time_text(fv.forecast_date, 'T') + "\",\"bottom_line\":"@ + enc_string(fv.bottom_line) + ",\"overall_danger\":"@ + enc_u32(fv.overall_danger) + ",\"danger_above_treeline\":"@ + enc_u32(fv.danger_above_treeline) + t11);
    lemma_assoc("{\"zone_id\":"@ + enc_u32(fv.zone_id) + ",\"forecast_date\":\""@ + date_time_text(fv.forecast_date, 'T') + "\",\"bottom_line\":"@ + enc_string(fv.bottom_line) + ",\"overall_danger\":"@ + enc_u32(fv.overall_danger) + ",\"danger_above_treeline\":"@, enc_u32(fv.danger_above_treeline), t11);
    assert(s == "{\"zone_id\":"@ + enc_u32(fv.zone_id) + ",\"forecast_date\":\""@ + date_time_text(fv.forecast_date, 'T') + "\",\"bottom_line\":"@ + enc_string(fv.bottom_line) + ",\"overall_danger\":"@ + enc_u32(fv.overall_danger) + ",\"danger_above_treeline\":"@ + t10);
    lemma_assoc("{\"zone_id\":"@ + enc_u32(fv.zone_id) + ",\"forecast_date\":\""@ + date_time_text(fv.forecast_date, 'T') + "\",\"bottom_line\":"@ + enc_string(fv.bottom_line) + ",\"overall_danger\":"@ + enc_u32(fv.overall_danger), ",\"danger_above_treeline\":"@, t10);
    assert(s == "{\"zone_id\":"@ + enc_u32(fv.zone_id) + ",\"forecast_date\":\""@ + date_time_text(fv.forecast_date, 'T') + "\",\"bottom_line\":"@ + enc_string(fv.bottom_line) + ",\"overall_danger\":"@ + enc_u32(fv.overall_danger) + t9);
    lemma_assoc("{\"zone_id\":"@ + enc_u32(fv.zone_id) + ",\"forecast_date\":\""@ + date_time_text(fv.forecast_date, 'T') + "\",\"bottom_line\":"@ + enc_string(fv.bottom_line) + ",\"overall_danger\":"@, enc_u32(fv.overall_danger), t9);
    assert(s == "{\"zone_id\":"@ + enc_u32(fv.zone_id) + ",\"forecast_date\":\""@ + date_time_text(fv.forecast_date, 'T') + "\",\"bottom_line\":"@ + enc_string(fv.bottom_line) + ",\"overall_danger\":"@ + t8);
    lemma_assoc("{\"zone_id\":"@ + enc_u32(fv.zone_id) + ",\"forecast_date\":\""@ + date_time_text(fv.forecast_date, 'T') + "\",\"bottom_line\":"@ + enc_string(fv.bottom_line), ",\"overall_danger\":"@, t8);
    assert(s == "{\"zone_id\":"@ + enc_u32(fv.zone_id) + ",\"forecast_date\":\""@ + date_time_text(fv.forecast_date, 'T') + "\",\"bottom_line\":"@ + enc_string(fv.bottom_line) + t7);
    lemma_assoc("{\"zone_id\":"@ + enc_u32(fv.zone_id) + ",\"forecast_date\":\""@ + date_time_text(fv.forecast_date, 'T') + "\",\"bottom_line\":"@, enc_string(fv.bottom_line), t7);
    assert(s == "{\"zone_id\":"@ + enc_u32(fv.zone_id) + ",\"forecast_date\":\""@ + date_time_text(fv.forecast_date, 'T') + "\",\"bottom_line\":"@ + t6);
    lemma_assoc("{\"zone_id\":"@ + enc_u32(fv.zone_id) + ",\"forecast_date\":\""@ + date_time_text(fv.forecast_date, 'T'), "\",\"bottom_line\":"@, t6);
    assert(s == "{\"zone_id\":"@ + enc_u32(fv.zone_id) + ",\"forecast_date\":\""@ + date_time_text(fv.forecast_date, 'T') + t5);
    lemma_assoc("{\"zone_id\":"@ + enc_u32(fv.zone_id) + ",\"forecast_date\":\""@, date_time_text(fv.forecast_date, 'T'), t5);
    assert(s == "{\"zone_id\":"@ + enc_u32(fv.zone_id) + ",\"forecast_date\":\""@ + t4);
    lemma_assoc("{\"zone_id\":"@ + enc_u32(fv.zone_id), ",\"forecast_date\":\""@, t4);
    assert(s == "{\"zone_id\":"@ + enc_u32(fv.zone_id) + t3);
    lemma_assoc("{\"zone_id\":"@, enc_u32(fv.zone_id), t3);
    assert(s == "{\"zone_id\":"@ + t2);
    assert(t17 =~= seq![']'] + ("}"@ + r));
    lemma_dec_lit("{\"zone_id\":"@, t2);
    lemma_dec_u32(fv.zone_id, t3);
    assert(t3[0] == ',');
    lemma_dec_lit(",\"forecast_date\":\""@, t4);
    lemma_dec_date_time(fv.forecast_date, t5);
    lemma_dec_lit("\",\"bottom_line\":"@, t6);
    lemma_dec_string(fv.bottom_line, t7);
    assert(t7[0] == ',');
    lemma_dec_lit(",\"overall_danger\":"@, t8);
    lemma_dec_u32(fv.overall_danger, t9);
    assert(t9[0] == ',');
    lemma_dec_lit(",\"danger_above_treeline\":"@, t10);
    lemma_dec_u32(fv.danger_above_treeline, t11);
    assert(t11[0] == ',');
    lemma_dec_lit(",\"danger_at_treeline\":"@, t12);
    lemma_dec_u32(fv.danger_at_treeline, t13);
    assert(t13[0] == ',');
    lemma_dec_lit(",\"danger_below_treeling\":"@, t14);
    lemma_dec_u32(fv.danger_below_treeling, t15);
    assert(t15[0] == ',');
    lemma_dec_lit(",\"avalanche_problems\":["@, t16);
    lemma_dec_problem_list(fv.avalanche_problems, "}"@ + r);
    assert(t16 == (enc_problems_inner(fv.avalanche_problems) + seq![']']) + ("}"@ + r)) by {
        lemma_assoc(enc_problems_inner(fv.avalanche_problems), seq![']'], "}"@ + r);
    }
    lemma_dec_lit("}"@, r);
}

/// Law: decoding the canonical JSON of a forecast reproduces every field
/// value — the encoding is lossless.
pub proof fn lemma_codec_round_trip(fv: ForecastView)
    requires
        wf_forecast(fv),
    ensures
        dec_forecast(enc_forecast(fv)) == Some((fv, Seq::<char>::empty())),
{
    lemma_dec_forecast(fv, Seq::empty());
    assert(enc_forecast(fv) + Seq::<char>::empty() =~= enc_forecast(fv));
}

/// Law: two forecasts with the same canonical JSON are the same record.
pub proof fn lemma_encode_lossless(f1: ForecastView, f2: ForecastView)
    requires
        wf_forecast(f1),
        wf_forecast(f2),
        enc_forecast(f1) == enc_forecast(f2),
    ensures
        f1 == f2,
{
    lemma_codec_round_trip(f1);
    lemma_codec_round_trip(f2);
}

} // verus!
