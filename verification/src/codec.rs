use vstd::prelude::*;

use crate::avalanche_request::{AvalanchePostRequest, AvalancheProblem, ForecastView, ProblemView};
use crate::datetime::{date_time_text, digit_char, push_date_time, valid_date_time};
use crate::text::chars_to_string;

verus! {

/// Lowercase hexadecimal digit character.
pub open spec fn hex_char(d: int) -> char {
    if d < 10 {
        digit_char(d)
    } else {
        ((87 + d) as u8) as char
    }
}

/// JSON escape of one character: quote, backslash and the named control
/// characters get two-character escapes, other control characters a
/// `\u00xx` escape, everything else stands as itself.
pub open spec fn esc_char(c: char) -> Seq<char> {
    if c == '"' {
        seq!['\\', '"']
    } else if c == '\\' {
        seq!['\\', '\\']
    } else if c == '\n' {
        seq!['\\', 'n']
    } else if c == '\r' {
        seq!['\\', 'r']
    } else if c == '\t' {
        seq!['\\', 't']
    } else if (c as int) < 32 {
        seq!['\\', 'u', '0', '0', hex_char(c as int / 16), hex_char(c as int % 16)]
    } else {
        seq![c]
    }
}

/// JSON escape of a whole text.
pub open spec fn esc_seq(s: Seq<char>) -> Seq<char>
    decreases s.len(),
{
    if s.len() == 0 {
        Seq::empty()
    } else {
        esc_char(s[0]) + esc_seq(s.drop_first())
    }
}

/// Escaping one more character appends its escape.
pub proof fn lemma_esc_push(s: Seq<char>, c: char)
    ensures
        esc_seq(s.push(c)) == esc_seq(s) + esc_char(c),
    decreases s.len(),
{
    if s.len() == 0 {
        assert(s.push(c).drop_first() =~= Seq::<char>::empty());
        assert(s.push(c)[0] == c);
        assert(esc_seq(Seq::<char>::empty()) == Seq::<char>::empty());
        assert(esc_seq(s.push(c)) == esc_char(c) + Seq::<char>::empty());
        assert(esc_char(c) + Seq::<char>::empty() =~= esc_char(c));
        assert(esc_seq(s) == Seq::<char>::empty());
        assert(Seq::<char>::empty() + esc_char(c) =~= esc_char(c));
    } else {
        lemma_esc_push(s.drop_first(), c);
        assert(s.push(c).drop_first() =~= s.drop_first().push(c));
        assert(s.push(c)[0] == s[0]);
        assert((esc_char(s[0]) + (esc_seq(s.drop_first()) + esc_char(c))) =~= (esc_char(s[0])
            + esc_seq(s.drop_first())) + esc_char(c));
    }
}

/// A JSON string value: the escaped text between quotes.
pub open spec fn enc_string(s: Seq<char>) -> Seq<char> {
    seq!['"'] + esc_seq(s) + seq!['"']
}

/// A JSON number: the decimal digits of an unsigned integer, no leading
/// zeros.
pub open spec fn enc_u32(n: u32) -> Seq<char>
    decreases n,
{
    if n < 10 {
        seq![digit_char(n as int)]
    } else {
        enc_u32(n / 10).push(digit_char((n % 10) as int))
    }
}

/// The canonical JSON object of one problem record, fields in declaration
/// order.
pub open spec fn enc_problem(p: ProblemView) -> Seq<char> {
    "{\"additional_notes\":"@ + enc_string(p.additional_notes) + ",\"aspects\":"@ + enc_u32(
        p.aspects,
    ) + ",\"elevations\":"@ + enc_u32(p.elevations) + ",\"problem_type\":"@ + enc_u32(
        p.problem_type,
    ) + ",\"likelihood\":"@ + enc_u32(p.likelihood) + ",\"size\":"@ + enc_u32(p.size) + "}"@
}

/// The problem objects joined by commas.
pub open spec fn enc_problems_inner(ps: Seq<ProblemView>) -> Seq<char>
    decreases ps.len(),
{
    if ps.len() == 0 {
        Seq::empty()
    } else if ps.len() == 1 {
        enc_problem(ps[0])
    } else {
        enc_problems_inner(ps.drop_last()) + ","@ + enc_problem(ps.last())
    }
}

/// A forecast may be encoded when its timestamp names a real date-time.
pub open spec fn wf_forecast(fv: ForecastView) -> bool {
    valid_date_time(fv.forecast_date)
}

/// The canonical JSON object of one forecast, fields in declaration order;
/// the timestamp is rendered `YYYY-MM-DDTHH:MM:SS`.
pub open spec fn enc_forecast(fv: ForecastView) -> Seq<char> {
    "{\"zone_id\":"@ + enc_u32(fv.zone_id) + ",\"forecast_date\":\""@ + date_time_text(
        fv.forecast_date,
        'T',
    ) + "\",\"bottom_line\":"@ + enc_string(fv.bottom_line) + ",\"overall_danger\":"@ + enc_u32(
        fv.overall_danger,
    ) + ",\"danger_above_treeline\":"@ + enc_u32(fv.danger_above_treeline)
        + ",\"danger_at_treeline\":"@ + enc_u32(fv.danger_at_treeline)
        + ",\"danger_below_treeling\":"@ + enc_u32(fv.danger_below_treeling)
        + ",\"avalanche_problems\":["@ + enc_problems_inner(fv.avalanche_problems) + "]}"@
}

/// The forecast objects joined by commas.
pub open spec fn enc_forecasts_inner(fs: Seq<ForecastView>) -> Seq<char>
    decreases fs.len(),
{
    if fs.len() == 0 {
        Seq::empty()
    } else if fs.len() == 1 {
        enc_forecast(fs[0])
    } else {
        enc_forecasts_inner(fs.drop_last()) + ","@ + enc_forecast(fs.last())
    }
}

/// The canonical JSON array POSTed downstream.
pub open spec fn enc_forecast_list(fs: Seq<ForecastView>) -> Seq<char> {
    "["@ + enc_forecasts_inner(fs) + "]"@
}

/// The views of a vector of forecasts.
pub open spec fn forecast_views(fs: Seq<AvalanchePostRequest>) -> Seq<ForecastView> {
    fs.map_values(|f: AvalanchePostRequest| f@)
}

/// Append a literal.
pub fn push_lit(out: &mut Vec<char>, s: &str)
    ensures
        final(out)@ == old(out)@ + s@,
{
    let n = s.unicode_len();
    let mut i: usize = 0;
    proof {
        assert(out@ =~= old(out)@ + s@.take(0));
    }
    while i < n
        invariant
            n == s@.len(),
            i <= n,
            out@ == old(out)@ + s@.take(i as int),
        decreases n - i,
    {
        out.push(s.get_char(i));
        proof {
            assert(old(out)@ + s@.take(i + 1) =~= (old(out)@ + s@.take(i as int)).push(
                s@[i as int],
            ));
        }
        i = i + 1;
    }
    proof {
        assert(s@.take(n as int) =~= s@);
    }
}

/// Append the decimal digits of a number, exact against `enc_u32`.
pub fn push_u32(out: &mut Vec<char>, n: u32)
    ensures
        final(out)@ == old(out)@ + enc_u32(n),
    decreases n,
{
    if n < 10 {
        out.push(crate::datetime::char_of_digit(n));
    } else {
        push_u32(out, n / 10);
        out.push(crate::datetime::char_of_digit(n % 10));
        proof {
            assert(old(out)@ + enc_u32(n) =~= (old(out)@ + enc_u32(n / 10)).push(
                digit_char((n % 10) as int),
            ));
        }
    }
}

/// Lowercase hexadecimal digit, exact against `hex_char`.
pub fn char_of_hex(d: u32) -> (r: char)
    requires
        d < 16,
    ensures
        r == hex_char(d as int),
{
    if d < 10 {
        crate::datetime::char_of_digit(d)
    } else {
        (87 + d as u8) as char
    }
}

/// Append one JSON string value, exact against `enc_string`.
pub fn push_string(out: &mut Vec<char>, s: &str)
    ensures
        final(out)@ == old(out)@ + enc_string(s@),
{
    out.push('"');
    let n = s.unicode_len();
    let mut i: usize = 0;
    proof {
        assert(esc_seq(s@.take(0)) =~= Seq::<char>::empty());
        assert(out@ =~= old(out)@ + seq!['"'] + esc_seq(s@.take(0)));
    }
    while i < n
        invariant
            n == s@.len(),
            i <= n,
            out@ == old(out)@ + seq!['"'] + esc_seq(s@.take(i as int)),
        decreases n - i,
    {
        let c = s.get_char(i);
        let ghost pre = out@;
        if c == '"' {
            out.push('\\');
            out.push('"');
        } else if c == '\\' {
            out.push('\\');
            out.push('\\');
        } else if c == '\n' {
            out.push('\\');
            out.push('n');
        } else if c == '\r' {
            out.push('\\');
            out.push('r');
        } else if c == '\t' {
            out.push('\\');
            out.push('t');
        } else if (c as u32) < 32 {
            out.push('\\');
            out.push('u');
            out.push('0');
            out.push('0');
            out.push(char_of_hex((c as u32) / 16));
            out.push(char_of_hex((c as u32) % 16));
        } else {
            out.push(c);
        }
        proof {
            assert(out@ =~= pre + esc_char(s@[i as int]));
            lemma_esc_push(s@.take(i as int), s@[i as int]);
            assert(s@.take(i + 1) =~= s@.take(i as int).push(s@[i as int]));
            assert(out@ =~= old(out)@ + seq!['"'] + esc_seq(s@.take(i + 1)));
        }
        i = i + 1;
    }
    out.push('"');
    proof {
        assert(s@.take(n as int) =~= s@);
        assert(out@ =~= old(out)@ + enc_string(s@));
    }
}

/// Append one problem object, exact against `enc_problem`.
pub fn push_problem(out: &mut Vec<char>, p: &AvalancheProblem)
    ensures
        final(out)@ == old(out)@ + enc_problem(p@),
{
    push_lit(out, "{\"additional_notes\":");
    push_string(out, p.additional_notes.as_str());
    push_lit(out, ",\"aspects\":");
    push_u32(out, p.aspects);
    push_lit(out, ",\"elevations\":");
    push_u32(out, p.elevations);
    push_lit(out, ",\"problem_type\":");
    push_u32(out, p.problem_type);
    push_lit(out, ",\"likelihood\":");
    push_u32(out, p.likelihood);
    push_lit(out, ",\"size\":");
    push_u32(out, p.size);
    push_lit(out, "}");
    proof {
        assert(final(out)@ =~= old(out)@ + enc_problem(p@));
    }
}

/// Append one forecast object, exact against `enc_forecast`.
#[verifier::rlimit(100)]
pub fn push_forecast(out: &mut Vec<char>, f: &AvalanchePostRequest)
    requires
        wf_forecast(f@),
    ensures
        final(out)@ == old(out)@ + enc_forecast(f@),
{
    push_lit(out, "{\"zone_id\":");
    push_u32(out, f.zone_id);
    push_lit(out, ",\"forecast_date\":\"");
    push_date_time(out, &f.forecast_date, 'T');
    push_lit(out, "\",\"bottom_line\":");
    push_string(out, f.bottom_line.as_str());
    push_lit(out, ",\"overall_danger\":");
    push_u32(out, f.overall_danger);
    push_lit(out, ",\"danger_above_treeline\":");
    push_u32(out, f.danger_above_treeline);
    push_lit(out, ",\"danger_at_treeline\":");
    push_u32(out, f.danger_at_treeline);
    push_lit(out, ",\"danger_below_treeling\":");
    push_u32(out, f.danger_below_treeling);
    push_lit(out, ",\"avalanche_problems\":[");
    let ghost views = f.avalanche_problems@.map_values(|p: AvalancheProblem| p@);
    let ghost mid = out@;
    let mut i: usize = 0;
    proof {
        assert(views.take(0) =~= Seq::<ProblemView>::empty());
        assert(out@ =~= mid + enc_problems_inner(views.take(0)));
    }
    while i < f.avalanche_problems.len()
        invariant
            views == f.avalanche_problems@.map_values(|p: AvalancheProblem| p@),
            views.len() == f.avalanche_problems@.len(),
            i <= f.avalanche_problems.len(),
            out@ == mid + enc_problems_inner(views.take(i as int)),
        decreases f.avalanche_problems.len() - i,
    {
        if i > 0 {
            push_lit(out, ",");
        }
        push_problem(out, &f.avalanche_problems[i]);
        proof {
            assert(views.take(i + 1).drop_last() =~= views.take(i as int));
            assert(views.take(i + 1).last() == views[i as int]);
            assert(views[i as int] == f.avalanche_problems@[i as int]@);
            if i > 0 {
                assert(out@ =~= mid + enc_problems_inner(views.take(i + 1)));
            } else {
                assert(out@ =~= mid + enc_problems_inner(views.take(i + 1)));
            }
        }
        i = i + 1;
    }
    push_lit(out, "]}");
    proof {
        assert(views.take(views.len() as int) =~= views);
        assert(final(out)@ =~= old(out)@ + enc_forecast(f@));
    }
}

/// Encode the canonical forecasts as one JSON array, exact against
/// `enc_forecast_list`.
pub fn encode_forecasts(fs: &Vec<AvalanchePostRequest>) -> (r: Vec<char>)
    requires
        forall|i: int|
            0 <= i < fs@.len() ==> wf_forecast(#[trigger] fs@[i]@),
    ensures
        r@ == enc_forecast_list(forecast_views(fs@)),
{
    let mut out: Vec<char> = Vec::new();
    push_lit(&mut out, "[");
    let ghost views = forecast_views(fs@);
    let ghost mid = out@;
    let mut i: usize = 0;
    proof {
        assert(views.take(0) =~= Seq::<ForecastView>::empty());
        assert(out@ =~= mid + enc_forecasts_inner(views.take(0)));
    }
    while i < fs.len()
        invariant
            views == forecast_views(fs@),
            views.len() == fs@.len(),
            i <= fs.len(),
            forall|k: int|
                0 <= k < fs@.len() ==> wf_forecast(#[trigger] fs@[k]@),
            out@ == mid + enc_forecasts_inner(views.take(i as int)),
        decreases fs.len() - i,
    {
        if i > 0 {
            push_lit(&mut out, ",");
        }
        push_forecast(&mut out, &fs[i]);
        proof {
            assert(views.take(i + 1).drop_last() =~= views.take(i as int));
            assert(views.take(i + 1).last() == views[i as int]);
            assert(views[i as int] == fs@[i as int]@);
            assert(out@ =~= mid + enc_forecasts_inner(views.take(i + 1)));
        }
        i = i + 1;
    }
    push_lit(&mut out, "]");
    proof {
        assert(views.take(views.len() as int) =~= views);
        assert(out@ =~= enc_forecast_list(views));
    }
    out
}

/// The JSON body the publisher POSTs downstream: the canonical array as one
/// string.
pub fn build_post_body(fs: &Vec<AvalanchePostRequest>) -> (r: String)
    requires
        forall|i: int|
            0 <= i < fs@.len() ==> wf_forecast(#[trigger] fs@[i]@),
    ensures
        r@ == enc_forecast_list(forecast_views(fs@)),
{
    let chars = encode_forecasts(fs);
    chars_to_string(&chars)
}

} // verus!
