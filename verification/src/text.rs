use vstd::prelude::*;

verus! {

/// Whitespace characters recognized when normalizing upstream labels and
/// splitting location descriptors.
pub open spec fn is_ws(c: char) -> bool {
    c == ' ' || c == '\t' || c == '\n' || c == '\r'
}

/// ASCII lowercasing of one character; other characters pass unchanged.
pub open spec fn lower_char(c: char) -> char {
    if 'A' <= c && c <= 'Z' {
        ((c as u8) + 32) as char
    } else {
        c
    }
}

/// Label normalization: drop whitespace, lowercase the rest.
pub open spec fn norm_text(s: Seq<char>) -> Seq<char>
    decreases s.len(),
{
    if s.len() == 0 {
        Seq::empty()
    } else if is_ws(s.last()) {
        norm_text(s.drop_last())
    } else {
        norm_text(s.drop_last()).push(lower_char(s.last()))
    }
}

/// Length of the leading run of non-whitespace characters.
pub open spec fn word_len(s: Seq<char>) -> nat
    decreases s.len(),
{
    if s.len() == 0 || is_ws(s[0]) {
        0
    } else {
        1 + word_len(s.drop_first())
    }
}

/// The leading word is never longer than the descriptor itself.
pub proof fn lemma_word_len_le(s: Seq<char>)
    ensures
        word_len(s) <= s.len(),
    decreases s.len(),
{
    if s.len() == 0 || is_ws(s[0]) {
    } else {
        lemma_word_len_le(s.drop_first());
    }
}

/// The whitespace-separated tokens of a descriptor, in order.
pub open spec fn tokens_of(s: Seq<char>) -> Seq<Seq<char>>
    decreases s.len(),
    via tokens_of_dec
{
    if s.len() == 0 {
        Seq::empty()
    } else if is_ws(s[0]) {
        tokens_of(s.drop_first())
    } else {
        seq![s.take(word_len(s) as int)] + tokens_of(s.skip(word_len(s) as int))
    }
}

#[via_fn]
proof fn tokens_of_dec(s: Seq<char>) {
    lemma_word_len_le(s);
}

/// Executable whitespace test, exact against the spec.
pub fn char_is_ws(c: char) -> (r: bool)
    ensures
        r == is_ws(c),
{
    c == ' ' || c == '\t' || c == '\n' || c == '\r'
}

/// Executable ASCII lowercasing, exact against the spec.
pub fn char_lower(c: char) -> (r: char)
    ensures
        r == lower_char(c),
{
    if 'A' <= c && c <= 'Z' {
        ((c as u8) + 32) as char
    } else {
        c
    }
}

/// The characters of a string, in order.
pub fn str_chars(s: &str) -> (r: Vec<char>)
    ensures
        r@ == s@,
{
    let n = s.unicode_len();
    let mut r: Vec<char> = Vec::new();
    let mut i: usize = 0;
    while i < n
        invariant
            n == s@.len(),
            i <= n,
            r@ == s@.take(i as int),
        decreases n - i,
    {
        r.push(s.get_char(i));
        proof {
            assert(s@.take(i + 1 as int) =~= s@.take(i as int).push(s@[i as int]));
        }
        i = i + 1;
    }
    proof {
        assert(s@.take(n as int) =~= s@);
    }
    r
}

/// Whether a character vector spells exactly the given string.
pub fn chars_eq_str(a: &Vec<char>, b: &str) -> (r: bool)
    ensures
        r == (a@ == b@),
{
    let n = b.unicode_len();
    if a.len() != n {
        return false;
    }
    let mut i: usize = 0;
    while i < n
        invariant
            n == b@.len(),
            a@.len() == n,
            i <= n,
            forall|j: int| 0 <= j < i ==> a@[j] == b@[j],
        decreases n - i,
    {
        if a[i] != b.get_char(i) {
            return false;
        }
        i = i + 1;
    }
    proof {
        assert(a@ =~= b@);
    }
    true
}

/// Normalize a label: strip whitespace and lowercase, as `norm_text` says.
pub fn normalize_label(s: &str) -> (r: Vec<char>)
    ensures
        r@ == norm_text(s@),
{
    let n = s.unicode_len();
    let mut r: Vec<char> = Vec::new();
    let mut i: usize = 0;
    while i < n
        invariant
            n == s@.len(),
            i <= n,
            r@ == norm_text(s@.take(i as int)),
        decreases n - i,
    {
        let c = s.get_char(i);
        proof {
            assert(s@.take(i + 1 as int).drop_last() =~= s@.take(i as int));
            assert(s@.take(i + 1 as int).last() == s@[i as int]);
        }
        if !char_is_ws(c) {
            r.push(char_lower(c));
        }
        i = i + 1;
    }
    proof {
        assert(s@.take(n as int) =~= s@);
    }
    r
}

/// Split a descriptor into its whitespace-separated tokens, as `tokens_of`
/// says.
pub fn split_tokens(s: &str) -> (r: Vec<Vec<char>>)
    ensures
        r.deep_view() == tokens_of(s@),
{
    let n = s.unicode_len();
    let mut r: Vec<Vec<char>> = Vec::new();
    let mut i: usize = 0;
    proof {
        assert(s@.skip(0) =~= s@);
        assert(r.deep_view() =~= Seq::<Seq<char>>::empty());
        assert(r.deep_view() + tokens_of(s@) =~= tokens_of(s@));
    }
    while i < n
        invariant
            n == s@.len(),
            i <= n,
            tokens_of(s@) == r.deep_view() + tokens_of(s@.skip(i as int)),
        decreases n - i,
    {
        let c = s.get_char(i);
        if char_is_ws(c) {
            proof {
                assert(s@.skip(i as int).drop_first() =~= s@.skip(i + 1 as int));
            }
            i = i + 1;
        } else {
            let ghost start = i as int;
            let ghost tail = s@.skip(start);
            let mut word: Vec<char> = Vec::new();
            word.push(c);
            let mut j: usize = i + 1;
            proof {
                assert(tail.drop_first() =~= s@.skip(start + 1));
                assert(word@ =~= tail.take(j - start));
            }
            while j < n && !char_is_ws(s.get_char(j))
                invariant
                    n == s@.len(),
                    0 <= start < j <= n,
                    tail == s@.skip(start),
                    tail.len() == n - start,
                    word@ == tail.take(j - start),
                    word_len(tail) == (j - start) + word_len(s@.skip(j as int)),
                decreases n - j,
            {
                word.push(s.get_char(j));
                proof {
                    let t2 = s@.skip(j as int);
                    assert(t2[0] == s@[j as int]);
                    assert(t2.drop_first() =~= s@.skip(j + 1 as int));
                    assert(tail[j - start] == s@[j as int]);
                    assert(tail.take(j + 1 - start) =~= tail.take(j - start).push(
                        s@[j as int],
                    ));
                }
                j = j + 1;
            }
            proof {
                let t2 = s@.skip(j as int);
                if j < n {
                    assert(t2[0] == s@[j as int]);
                    assert(word_len(t2) == 0);
                } else {
                    assert(t2 =~= Seq::<char>::empty());
                    assert(word_len(t2) == 0);
                }
                assert(word_len(tail) == j - start);
                assert(tokens_of(tail) == seq![tail.take(j - start)] + tokens_of(
                    tail.skip(j - start),
                ));
                assert(tail.skip(j - start) =~= s@.skip(j as int));
            }
            let ghost dv0 = r.deep_view();
            proof {
                assert(word.deep_view() =~= word@);
            }
            r.push(word);
            proof {
                assert(r.deep_view() =~= dv0.push(tail.take(j - start)));
                assert((dv0 + seq![tail.take(j - start)]) =~= r.deep_view());
                assert((dv0 + (seq![tail.take(j - start)] + tokens_of(s@.skip(j as int)))) =~= (
                r.deep_view() + tokens_of(s@.skip(j as int))));
            }
            i = j;
        }
    }
    proof {
        assert(s@.skip(n as int) =~= Seq::<char>::empty());
        assert(r.deep_view() + tokens_of(s@.skip(n as int)) =~= r.deep_view());
    }
    r
}

/// Relies on `core::iter::Iterator::collect` for `String`: the collected
/// string holds exactly the vector's characters, in order.
#[verifier::external_body]
pub fn chars_to_string(v: &Vec<char>) -> (s: String)
    ensures
        s@ == v@,
{
    v.iter().collect()
}

} // verus!
