//! Twitterify a phrase.

use crate::util::{
    chars_of,
    eq_ignore_ascii_case,
    push_str,
    string_from_chars,
};
use vstd::prelude::*;

verus! {

/// Whether two texts are equal without case, as `unicase::eq` decides: ASCII
/// texts compare with ASCII case ignored, others by Unicode case folding.
pub uninterp spec fn unicase_eq_spec(a: Seq<char>, b: Seq<char>) -> bool;

/// All characters of `s` are ASCII.
pub open spec fn all_ascii(s: Seq<char>) -> bool {
    forall|i: int| 0 <= i < s.len() ==> (s[i] as u32) < 128
}

/// Compare two texts without case with `unicase::eq`.
///
/// The result is named by [`unicase_eq_spec`]; the one fact stated of it is
/// what the crate's source shows for two ASCII texts: their ASCII letters are
/// compared without case.
#[verifier::external_body]
fn unicase_eq(a: &str, b: &str) -> (res: bool)
    ensures
        res == unicase_eq_spec(a@, b@),
        all_ascii(a@) && all_ascii(b@) ==> (res == eq_ignore_ascii_case(a@, b@)),
{
    unicase::eq(a, b)
}

/// The known phrases and their fixed answers, in the order they are tried.
pub open spec fn known_phrases() -> Seq<(Seq<char>, Seq<char>)> {
    seq![
        ("you are wrong"@, "wrong but go off"@),
        ("your wrong"@, "wrong but go off"@),
        ("you're wrong"@, "wrong but go off"@),
        ("i agree"@, "PERIOD QUEEN 👑"@),
    ]
}

/// The first known phrase at or after `k` that `input` matches without case.
pub open spec fn known_index_from(input: Seq<char>, k: int) -> Option<int>
    decreases 4 - k,
{
    if k >= 4 || k < 0 {
        None
    } else if unicase_eq_spec(input, known_phrases()[k].0) {
        Some(k)
    } else {
        known_index_from(input, k + 1)
    }
}

/// The first known phrase at or after `k` that an ASCII `input` matches,
/// ASCII letters compared without case.
pub open spec fn ascii_known_index_from(input: Seq<char>, k: int) -> Option<int>
    decreases 4 - k,
{
    if k >= 4 || k < 0 {
        None
    } else if eq_ignore_ascii_case(input, known_phrases()[k].0) {
        Some(k)
    } else {
        ascii_known_index_from(input, k + 1)
    }
}

fn known_phrase(i: usize) -> (res: (&'static str, &'static str))
    requires
        i < 4,
    ensures
        res.0@ == known_phrases()[i as int].0,
        res.1@ == known_phrases()[i as int].1,
        all_ascii(res.0@),
{
    if i == 0 {
        proof {
            reveal_strlit("you are wrong");
        }
        ("you are wrong", "wrong but go off")
    } else if i == 1 {
        proof {
            reveal_strlit("your wrong");
        }
        ("your wrong", "wrong but go off")
    } else if i == 2 {
        proof {
            reveal_strlit("you're wrong");
        }
        ("you're wrong", "wrong but go off")
    } else {
        proof {
            reveal_strlit("i agree");
        }
        ("i agree", "PERIOD QUEEN 👑")
    }
}

/// The index of the known phrase that `input` is, compared without case.
pub fn known_phrase_index(input: &str) -> (res: Option<usize>)
    ensures
        match res {
            Some(i) => i < 4 && known_index_from(input@, 0) == Some(i as int),
            None => known_index_from(input@, 0) is None,
        },
        all_ascii(input@) ==> match res {
            Some(i) => ascii_known_index_from(input@, 0) == Some(i as int),
            None => ascii_known_index_from(input@, 0) is None,
        },
{
    let mut i: usize = 0;
    while i < 4
        invariant
            0 <= i <= 4,
            known_index_from(input@, 0) == known_index_from(input@, i as int),
            all_ascii(input@) ==> ascii_known_index_from(input@, 0) == ascii_known_index_from(
                input@,
                i as int,
            ),
        decreases 4 - i,
    {
        let (phrase, _answer) = known_phrase(i);
        if unicase_eq(input, phrase) {
            return Some(i);
        }
        i = i + 1;
    }
    None
}

/// The index of the first space in `s`, or its length if it has none.
pub open spec fn first_space(s: Seq<char>) -> int
    decreases s.len(),
{
    if s.len() == 0 {
        0
    } else if s[0] == ' ' {
        0
    } else {
        1 + first_space(s.skip(1))
    }
}

/// A word in twitter speak.
pub open spec fn twitter_word(w: Seq<char>) -> Seq<char> {
    if w == "sweetie"@ {
        "sweaty"@
    } else if w == "sister"@ {
        "sis"@
    } else {
        w
    }
}

/// The words of `s`, split at each space, each in twitter speak and each
/// followed by a space.
pub open spec fn twitter_words(s: Seq<char>) -> Seq<char>
    decreases s.len(),
{
    let k = first_space(s);
    if 0 <= k < s.len() {
        twitter_word(s.take(k)) + seq![' '] + twitter_words(s.skip(k + 1))
    } else {
        twitter_word(s) + seq![' ']
    }
}

/// Twitterify a phrase that is not a known phrase: its words in twitter
/// speak, then `PERIODOT` if it ends with a period, else a nail-polish emoji.
pub open spec fn twitterify_words(s: Seq<char>) -> Seq<char> {
    twitter_words(s) + if s.len() > 0 && s.last() == '.' {
        "PERIODOT"@
    } else {
        seq!['💅']
    }
}

/// The twitterified form of `s`.
pub open spec fn twitterify(s: Seq<char>) -> Seq<char> {
    match known_index_from(s, 0) {
        Some(i) => known_phrases()[i].1,
        None => twitterify_words(s),
    }
}

/// The twitterified form of an ASCII `s`: the known phrases are matched
/// with ASCII letters compared without case.
pub open spec fn twitterify_ascii(s: Seq<char>) -> Seq<char> {
    match ascii_known_index_from(s, 0) {
        Some(i) => known_phrases()[i].1,
        None => twitterify_words(s),
    }
}

/// The first space of `s` is at `k` when none comes before `k` and `s[k]`
/// is a space, or `k` is the length.
pub proof fn lemma_first_space_at(s: Seq<char>, k: int)
    requires
        0 <= k <= s.len(),
        forall|j: int| 0 <= j < k ==> s[j] != ' ',
        k < s.len() ==> s[k] == ' ',
    ensures
        first_space(s) == k,
    decreases s.len(),
{
    if k > 0 {
        assert forall|j: int| 0 <= j < k - 1 implies s.skip(1)[j] != ' ' by {
            assert(s.skip(1)[j] == s[j + 1]);
        }
        lemma_first_space_at(s.skip(1), k - 1);
    }
}

fn slice_is(v: &Vec<char>, start: usize, end: usize, lit: &str) -> (res: bool)
    requires
        start <= end <= v.len(),
    ensures
        res == (v@.subrange(start as int, end as int) == lit@),
{
    let l = chars_of(lit);
    if end - start != l.len() {
        return false;
    }
    let mut i: usize = 0;
    while i < l.len()
        invariant
            start <= end <= v.len(),
            end - start == l.len(),
            l@ == lit@,
            0 <= i <= l.len(),
            forall|j: int| 0 <= j < i ==> v@[start + j] == lit@[j],
        decreases l.len() - i,
    {
        if v[start + i] != l[i] {
            return false;
        }
        i = i + 1;
    }
    assert(v@.subrange(start as int, end as int) =~= lit@);
    true
}

fn push_twitter_word(out: &mut Vec<char>, v: &Vec<char>, start: usize, end: usize)
    requires
        start <= end <= v.len(),
    ensures
        final(out)@ == old(out)@ + twitter_word(v@.subrange(start as int, end as int)),
{
    proof {
        reveal_strlit("sweetie");
        reveal_strlit("sister");
    }
    if slice_is(v, start, end, "sweetie") {
        push_str(out, "sweaty");
    } else if slice_is(v, start, end, "sister") {
        push_str(out, "sis");
    } else {
        let mut i = start;
        let ghost before = out@;
        while i < end
            invariant
                start <= i <= end <= v.len(),
                out@ == before + v@.subrange(start as int, i as int),
            decreases end - i,
        {
            out.push(v[i]);
            assert(v@.subrange(start as int, i + 1) =~= v@.subrange(start as int, i as int).push(
                v@[i as int],
            ));
            i = i + 1;
        }
    }
}

/// Twitterify a phrase that is not one of the known phrases.
pub fn twitterify_words_str(input: &str) -> (res: String)
    ensures
        res@ == twitterify_words(input@),
{
    let v = chars_of(input);
    let n = v.len();
    let mut out: Vec<char> = Vec::new();
    let mut start: usize = 0;
    assert(v@.skip(0) =~= v@);
    loop
        invariant_except_break
            twitter_words(input@) == out@ + twitter_words(v@.skip(start as int)),
        invariant
            0 <= start <= n,
            n == v@.len(),
            v@ == input@,
        ensures
            out@ == twitter_words(input@),
        decreases n - start,
    {
        let mut j = start;
        while j < n && v[j] != ' '
            invariant
                start <= j <= n,
                n == v@.len(),
                forall|k: int| start <= k < j ==> v@[k] != ' ',
            decreases n - j,
        {
            j = j + 1;
        }
        let ghost rest = v@.skip(start as int);
        proof {
            assert forall|k: int| 0 <= k < j - start implies rest[k] != ' ' by {
                assert(rest[k] == v@[start + k]);
            }
            lemma_first_space_at(rest, j - start);
            assert(rest.take(j - start) =~= v@.subrange(start as int, j as int));
        }
        let ghost before = out@;
        push_twitter_word(&mut out, &v, start, j);
        out.push(' ');
        if j == n {
            assert(rest =~= v@.subrange(start as int, j as int));
            assert(out@ =~= before + twitter_words(rest));
            break;
        }
        assert(rest.skip(j - start + 1) =~= v@.skip(j + 1));
        assert(before + (twitter_word(v@.subrange(start as int, j as int)) + seq![' '] + twitter_words(v@.skip(j + 1)))
            =~= out@ + twitter_words(v@.skip(j + 1)));
        start = j + 1;
    }
    assert(out@ =~= twitter_words(input@));
    if n > 0 && v[n - 1] == '.' {
        push_str(&mut out, "PERIODOT");
    } else {
        out.push('💅');
    }
    string_from_chars(&out)
}

/// Twitterify a phrase: a known phrase gets its fixed answer; any other
/// phrase has `sweetie` and `sister` replaced word by word and ends with
/// `PERIODOT` or a nail-polish emoji.
pub fn twitterify_str(input: &str) -> (res: String)
    ensures
        res@ == twitterify(input@),
        all_ascii(input@) ==> res@ == twitterify_ascii(input@),
{
    match known_phrase_index(input) {
        Some(i) => {
            let (_phrase, answer) = known_phrase(i);
            String::from_str(answer)
        },
        None => twitterify_words_str(input),
    }
}

} // verus!
