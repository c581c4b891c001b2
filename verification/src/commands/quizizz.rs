//! Quizizz codes: which codes to try, and a cache of codes found but not yet
//! handed out.

use crate::util::{
    chars_of,
    decimal,
    instant_now,
    nanos_since,
    push_str,
    string_from_chars,
};
use std::time::Instant;
use vstd::multiset::Multiset;
use vstd::prelude::*;

verus! {

/// The number of codes tried in one search.
pub const MAX_TRIES: usize = 1_000;

/// Codes are drawn below this number.
pub const MAX_CODE: u32 = 999_999;

/// The reply when a search found no running room.
pub const LIMIT_REACHED_MSG: &'static str = "Reached limit while searching for quizizz code, quitting...";

/// How long, in nanoseconds, a cached code stays usable: ten minutes.
pub const CODE_TTL_NANOS: u64 = 600_000_000_000;

/// `digits` padded on the left with zeros to six characters.
pub open spec fn zero_pad6(digits: Seq<char>) -> Seq<char> {
    if digits.len() < 6 {
        Seq::new((6 - digits.len()) as nat, |i: int| '0') + digits
    } else {
        digits
    }
}

/// Format a code with `format!("{:06}")`: the contract claims its decimal
/// digits, padded on the left with zeros to six.
#[verifier::external_body]
fn format_code(code: u32) -> (res: String)
    ensures
        res@ == zero_pad6(decimal(code as nat)),
{
    format!("{:06}", code)
}

/// A random `u32`, from `rand::random`. Nothing is stated of it.
#[verifier::external_body]
fn random_u32() -> (res: u32) {
    rand::random::<u32>()
}

/// The first code of a search, from a random number.
pub fn start_code(random: u32) -> (res: u32)
    ensures
        res == random % MAX_CODE,
        res < MAX_CODE,
{
    random % MAX_CODE
}

/// The first code of a new search, drawn at random.
pub fn random_start_code() -> (res: u32)
    ensures
        res < MAX_CODE,
{
    start_code(random_u32())
}

/// The codes that one search tries: `MAX_TRIES` codes counting up from
/// `start` (wrapping around past `u32::MAX`), each with at least six digits.
pub fn guess_codes(start: u32) -> (res: Vec<String>)
    ensures
        res@.len() == MAX_TRIES,
        forall|k: int| 0 <= k < MAX_TRIES ==> #[trigger] res@[k]@ == zero_pad6(
            decimal(((start as int + k) % 0x1_0000_0000) as nat),
        ),
{
    let mut res: Vec<String> = Vec::new();
    let mut code: u32 = start;
    let mut i: usize = 0;
    while i < MAX_TRIES
        invariant
            0 <= i <= MAX_TRIES,
            res@.len() == i,
            code == (start as int + i) % 0x1_0000_0000,
            forall|k: int| 0 <= k < i ==> #[trigger] res@[k]@ == zero_pad6(
                decimal(((start as int + k) % 0x1_0000_0000) as nat),
            ),
        decreases MAX_TRIES - i,
    {
        res.push(format_code(code));
        code = code.wrapping_add(1);
        i = i + 1;
    }
    res
}

/// `a` comes before `b` in the order of `String`: byte by byte, which is the
/// order of the characters' code points, a prefix first.
pub open spec fn str_lt(a: Seq<char>, b: Seq<char>) -> bool
    decreases a.len(),
{
    if a.len() == 0 {
        b.len() > 0
    } else if b.len() == 0 {
        false
    } else if a[0] != b[0] {
        a[0] < b[0]
    } else {
        str_lt(a.skip(1), b.skip(1))
    }
}

/// No text comes before itself, and of two texts at most one comes first.
pub proof fn lemma_str_lt_asymmetric(a: Seq<char>, b: Seq<char>)
    ensures
        !(str_lt(a, b) && str_lt(b, a)),
    decreases a.len(),
{
    if a.len() > 0 && b.len() > 0 && a[0] == b[0] {
        lemma_str_lt_asymmetric(a.skip(1), b.skip(1));
    }
}

/// Of two different texts, one comes first.
pub proof fn lemma_str_lt_total(a: Seq<char>, b: Seq<char>)
    ensures
        a == b || str_lt(a, b) || str_lt(b, a),
    decreases a.len(),
{
    if a.len() > 0 && b.len() > 0 && a[0] == b[0] {
        lemma_str_lt_total(a.skip(1), b.skip(1));
        if a.skip(1) == b.skip(1) {
            assert(a.skip(1).len() == a.len() - 1 && b.skip(1).len() == b.len() - 1);
            assert(a.len() == b.len());
            assert forall|i: int| 0 <= i < a.len() implies a[i] == b[i] by {
                if i > 0 {
                    assert(a[i] == a.skip(1)[i - 1]);
                    assert(b[i] == b.skip(1)[i - 1]);
                }
            }
            assert(a =~= b);
        }
    } else if a.len() == 0 && b.len() == 0 {
        assert(a =~= b);
    }
}

/// The order of texts is transitive.
pub proof fn lemma_str_lt_transitive(a: Seq<char>, b: Seq<char>, c: Seq<char>)
    requires
        str_lt(a, b),
        str_lt(b, c),
    ensures
        str_lt(a, c),
    decreases a.len(),
{
    if a.len() > 0 && a[0] == b[0] && b[0] == c[0] {
        lemma_str_lt_transitive(a.skip(1), b.skip(1), c.skip(1));
    }
}

/// Whether `a` comes before `b` in the order of `String`.
fn string_lt(a: &String, b: &String) -> (res: bool)
    ensures
        res == str_lt(a@, b@),
{
    let ac = chars_of(a.as_str());
    let bc = chars_of(b.as_str());
    let mut i: usize = 0;
    assert(a@.skip(0) =~= a@ && b@.skip(0) =~= b@);
    while i < ac.len() && i < bc.len() && ac[i] == bc[i]
        invariant
            ac@ == a@,
            bc@ == b@,
            0 <= i <= ac.len(),
            i <= bc.len(),
            str_lt(a@, b@) == str_lt(a@.skip(i as int), b@.skip(i as int)),
        decreases ac.len() - i,
    {
        assert(a@.skip(i as int).skip(1) =~= a@.skip(i + 1));
        assert(b@.skip(i as int).skip(1) =~= b@.skip(i + 1));
        i = i + 1;
    }
    if i == ac.len() {
        i < bc.len()
    } else if i == bc.len() {
        false
    } else {
        ac[i] < bc[i]
    }
}

/// A cached code, by its view: the time it was found and its text.
pub type CodeEntry = (u64, Seq<char>);

/// `a` leaves the cache no later than `b`: it was found earlier, or at the
/// same time and is not the smaller text. The cache hands out codes in the
/// order of a max-heap on (reversed time, code).
pub open spec fn leaves_before(a: CodeEntry, b: CodeEntry) -> bool {
    a.0 < b.0 || (a.0 == b.0 && !str_lt(a.1, b.1))
}

/// The order in which codes leave the cache is a total preorder.
pub proof fn lemma_leaves_before_order(a: CodeEntry, b: CodeEntry, c: CodeEntry)
    ensures
        leaves_before(a, a),
        leaves_before(a, b) || leaves_before(b, a),
        leaves_before(a, b) && leaves_before(b, a) ==> a == b,
        leaves_before(a, b) && leaves_before(b, c) ==> leaves_before(a, c),
{
    lemma_str_lt_asymmetric(a.1, a.1);
    lemma_str_lt_total(a.1, b.1);
    lemma_str_lt_total(b.1, c.1);
    lemma_str_lt_total(a.1, c.1);
    if str_lt(a.1, c.1) && str_lt(c.1, b.1) {
        lemma_str_lt_transitive(a.1, c.1, b.1);
    }
    if str_lt(b.1, a.1) && str_lt(c.1, b.1) {
        lemma_str_lt_transitive(c.1, b.1, a.1);
    }
    lemma_str_lt_asymmetric(a.1, b.1);
    lemma_str_lt_asymmetric(b.1, c.1);
    lemma_str_lt_asymmetric(a.1, c.1);
}

/// The code found at `found` has expired at `now`: more than ten minutes
/// have passed.
pub open spec fn expired(found: u64, now: u64) -> bool {
    now > found && now - found > CODE_TTL_NANOS
}

/// The codes in `m` that have not expired at `now`.
pub open spec fn unexpired(m: Multiset<CodeEntry>, now: u64) -> Multiset<CodeEntry> {
    m.filter(|e: CodeEntry| !expired(e.0, now))
}

/// `e` is in `m` and leaves it no later than any other code in it.
pub open spec fn leaves_first(m: Multiset<CodeEntry>, e: CodeEntry) -> bool {
    &&& m.count(e) > 0
    &&& forall|x: CodeEntry| m.count(x) > 0 ==> #[trigger] leaves_before(e, x)
}

/// `after` is `before` without the code that leaves first, whose text is
/// `code`.
pub open spec fn takes_first(before: Multiset<CodeEntry>, after: Multiset<CodeEntry>, code: Seq<char>) -> bool {
    exists|found: u64|
        #![trigger before.count((found, code))]
        {
            &&& leaves_first(before, (found, code))
            &&& after == before.remove((found, code))
        }
}

/// Of the codes in a cache, one alone leaves first.
pub proof fn lemma_leaves_first_unique(m: Multiset<CodeEntry>, a: CodeEntry, b: CodeEntry)
    requires
        leaves_first(m, a),
        leaves_first(m, b),
    ensures
        a == b,
{
    assert(leaves_before(a, b));
    assert(leaves_before(b, a));
    lemma_leaves_before_order(a, b, a);
}

/// The entries of a list of cached codes, by their views.
pub open spec fn entries_of(s: Seq<(u64, String)>) -> Multiset<CodeEntry> {
    s.map_values(|e: (u64, String)| (e.0, e.1@)).to_multiset()
}

proof fn lemma_entries_push(s: Seq<(u64, String)>, e: (u64, String))
    ensures
        entries_of(s.push(e)) == entries_of(s).insert((e.0, e.1@)),
{
    broadcast use vstd::seq_lib::group_to_multiset_ensures;

    assert(s.push(e).map_values(|e: (u64, String)| (e.0, e.1@)) =~= s.map_values(
        |e: (u64, String)| (e.0, e.1@),
    ).push((e.0, e.1@)));
}

proof fn lemma_entries_empty(s: Seq<(u64, String)>)
    requires
        s.len() == 0,
    ensures
        entries_of(s) == Multiset::<CodeEntry>::empty(),
{
    broadcast use vstd::seq_lib::group_to_multiset_ensures;

    let m = entries_of(s);
    assert(s.map_values(|e: (u64, String)| (e.0, e.1@)).len() == 0);
    vstd::multiset::lemma_multiset_empty_len(m);
}

/// A cache for quizizz codes, each with the time it was found in
/// nanoseconds since the cache was made.
#[derive(Debug)]
pub struct CodeCache {
    cache: Vec<(u64, String)>,
    start: Instant,
}

impl CodeCache {
    /// The cached codes with the times they were found.
    pub closed spec fn entries(&self) -> Multiset<CodeEntry> {
        entries_of(self.cache@)
    }

    /// Make a new, empty cache
    pub fn new() -> (res: Self)
        ensures
            res.entries() == Multiset::<CodeEntry>::empty(),
    {
        let res = CodeCache { cache: Vec::new(), start: instant_now() };
        proof {
            lemma_entries_empty(res.cache@);
        }
        res
    }

    /// Get the number of entries
    pub fn len(&self) -> (res: usize)
        ensures
            res == self.entries().len(),
    {
        proof {
            broadcast use vstd::seq_lib::group_to_multiset_ensures;

            assert(self.cache@.map_values(|e: (u64, String)| (e.0, e.1@)).len() == self.cache@.len());
        }
        self.cache.len()
    }

    /// Returns true if it is empty
    pub fn is_empty(&self) -> (res: bool)
        ensures
            res == (self.entries().len() == 0),
    {
        self.len() == 0
    }

    /// Add a code found at time `now`.
    pub fn push_at(&mut self, code_str: String, now: u64)
        ensures
            final(self).entries() == old(self).entries().insert((now, code_str@)),
    {
        let entry = (now, code_str);
        proof {
            lemma_entries_push(old(self).cache@, entry);
        }
        self.cache.push(entry);
    }

    /// Drop the codes that have expired at time `now`; keep all others.
    pub fn trim_at(&mut self, now: u64)
        ensures
            final(self).entries() == unexpired(old(self).entries(), now),
    {
        let mut rest: Vec<(u64, String)> = Vec::new();
        std::mem::swap(&mut rest, &mut self.cache);
        let ghost total = entries_of(rest@);
        let mut kept: Vec<(u64, String)> = Vec::new();
        proof {
            lemma_entries_empty(kept@);
        }
        while rest.len() > 0
            invariant
                total == old(self).entries(),
                forall|e: CodeEntry| #[trigger]
                    entries_of(kept@).count(e) == if expired(e.0, now) {
                        0
                    } else {
                        (total.count(e) - entries_of(rest@).count(e)) as nat
                    },
                forall|e: CodeEntry| #[trigger]
                    entries_of(rest@).count(e) <= total.count(e),
            decreases rest.len(),
        {
            let ghost before = rest@;
            let e = rest.pop().unwrap();
            proof {
                assert(before =~= rest@.push(e));
                lemma_entries_push(rest@, e);
                assert(forall|x: CodeEntry| #[trigger]
                    entries_of(rest@).count(x) <= entries_of(before).count(x));
            }
            if !(now > e.0 && now - e.0 > CODE_TTL_NANOS) {
                proof {
                    lemma_entries_push(kept@, e);
                }
                kept.push(e);
            }
        }
        proof {
            lemma_entries_empty(rest@);
            assert(entries_of(kept@) =~= unexpired(total, now));
        }
        self.cache = kept;
    }

    /// Drop the codes that have expired at time `now`, then take out the code
    /// that leaves first, if any is left.
    pub fn trim_pop_at(&mut self, now: u64) -> (res: Option<String>)
        ensures
            ({
                let live = unexpired(old(self).entries(), now);
                match res {
                    None => live.len() == 0 && final(self).entries() == live,
                    Some(code) => takes_first(live, final(self).entries(), code@),
                }
            }),
    {
        broadcast use vstd::seq_lib::group_to_multiset_ensures;

        self.trim_at(now);
        let ghost live = self.entries();
        let ghost views = self.cache@.map_values(|e: (u64, String)| (e.0, e.1@));
        assert(views.len() == self.cache@.len());
        if self.cache.len() == 0 {
            return None;
        }
        let mut best: usize = 0;
        let mut i: usize = 1;
        proof {
            lemma_leaves_before_order(views[0], views[0], views[0]);
        }
        while i < self.cache.len()
            invariant
                views == self.cache@.map_values(|e: (u64, String)| (e.0, e.1@)),
                views.len() == self.cache@.len(),
                1 <= i <= self.cache.len(),
                best < i,
                forall|j: int| 0 <= j < i ==> #[trigger] leaves_before(views[best as int], views[j]),
            decreases self.cache.len() - i,
        {
            let ti = self.cache[i].0;
            let tb = self.cache[best].0;
            let earlier = ti < tb || (ti == tb && !string_lt(&self.cache[i].1, &self.cache[best].1));
            proof {
                assert(views[i as int] == (ti, self.cache@[i as int].1@));
                assert(views[best as int] == (tb, self.cache@[best as int].1@));
                let next = if earlier { views[i as int] } else { views[best as int] };
                assert forall|j: int| 0 <= j <= i implies leaves_before(next, #[trigger] views[j]) by {
                    lemma_leaves_before_order(views[i as int], views[best as int], views[j]);
                    lemma_leaves_before_order(views[best as int], views[i as int], views[j]);
                }
            }
            if earlier {
                best = i;
            }
            i = i + 1;
        }
        let e = self.cache.remove(best);
        proof {
            let ev = views[best as int];
            assert(ev == (e.0, e.1@));
            assert(self.cache@.map_values(|e: (u64, String)| (e.0, e.1@)) =~= views.remove(best as int));
            assert(views.remove(best as int).to_multiset() == views.to_multiset().remove(ev));
            assert forall|x: CodeEntry| live.count(x) > 0 implies #[trigger] leaves_before(ev, x) by {
                assert(views.contains(x));
                let j = choose|j: int| 0 <= j < views.len() && views[j] == x;
                assert(leaves_before(views[best as int], views[j]));
            }
            assert(views.contains(ev));
            assert(live.count(ev) > 0);
            assert(leaves_first(live, ev));
            assert(self.entries() == live.remove(ev));
            assert(live == unexpired(old(self).entries(), now));
            assert(takes_first(live, self.entries(), e.1@));
        }
        Some(e.1)
    }

    /// Trim the cache: drop the codes found more than ten minutes ago.
    pub fn trim(&mut self)
        ensures
            exists|now: u64| #[trigger]
                unexpired(old(self).entries(), now) == final(self).entries(),
    {
        let now = nanos_since(&self.start);
        self.trim_at(now);
    }

    /// Trim the cache and pop a code if it exists
    pub fn trim_pop(&mut self) -> (res: Option<String>)
        ensures
            exists|now: u64| {
                let live = #[trigger] unexpired(old(self).entries(), now);
                match res {
                    None => live.len() == 0 && final(self).entries() == live,
                    Some(code) => takes_first(live, final(self).entries(), code@),
                }
            },
    {
        let now = nanos_since(&self.start);
        self.trim_pop_at(now)
    }

    /// Add a code to the cache, found now.
    pub fn push(&mut self, code_str: String)
        ensures
            exists|now: u64| #[trigger]
                old(self).entries().insert((now, code_str@)) == final(self).entries(),
    {
        let now = nanos_since(&self.start);
        self.push_at(code_str, now);
    }
}

impl Default for CodeCache {
    fn default() -> (res: Self)
        ensures
            res.entries() == Multiset::<CodeEntry>::empty(),
    {
        Self::new()
    }
}

/// What checking one guessed code found out.
#[derive(Debug, Clone)]
pub enum GuessOutcome {
    /// The room exists and its game is running.
    Running,
    /// The room's data is missing, or its game is not running.
    NotRunning,
    /// The room was not found, or the player must log in to see it.
    NotFound,
    /// The check failed; the text says how.
    Failed(String),
}

/// The answer to one request for a code.
#[derive(Debug, Clone)]
pub enum SearchReply {
    /// A running room was found with this code.
    Found(String),
    /// No guess found a running room.
    LimitReached,
    /// A check failed; the text says how.
    Failed(String),
}

/// Take in the outcome of one guess of a search. `answered` says whether the
/// request was already answered. The first running room, or the first error,
/// answers it; running rooms found after that are cached. Returns whether
/// the request is answered now, and the answer to send, if one is due.
pub fn take_guess(answered: bool, cache: &mut CodeCache, code_str: String, outcome: GuessOutcome) -> (res: (
    bool,
    Option<SearchReply>,
))
    ensures
        match outcome {
            GuessOutcome::Running => if answered {
                &&& res == (true, Option::<SearchReply>::None)
                &&& exists|now: u64| #[trigger]
                    old(cache).entries().insert((now, code_str@)) == final(cache).entries()
            } else {
                &&& res == (true, Some(SearchReply::Found(code_str)))
                &&& final(cache).entries() == old(cache).entries()
            },
            GuessOutcome::NotRunning | GuessOutcome::NotFound => {
                &&& res == (answered, Option::<SearchReply>::None)
                &&& final(cache).entries() == old(cache).entries()
            },
            GuessOutcome::Failed(message) => {
                &&& res == (true, if answered {
                    Option::<SearchReply>::None
                } else {
                    Some(SearchReply::Failed(message))
                })
                &&& final(cache).entries() == old(cache).entries()
            },
        },
{
    match outcome {
        GuessOutcome::Running => {
            if answered {
                cache.push(code_str);
                (true, None)
            } else {
                (true, Some(SearchReply::Found(code_str)))
            }
        },
        GuessOutcome::NotRunning | GuessOutcome::NotFound => (answered, None),
        GuessOutcome::Failed(message) => {
            if answered {
                (true, None)
            } else {
                (true, Some(SearchReply::Failed(message)))
            }
        },
    }
}

/// The answer due once every guess of a search is in: none if the request
/// was answered, else that the limit was reached.
pub fn search_finished(answered: bool) -> (res: Option<SearchReply>)
    ensures
        res == if answered {
            Option::<SearchReply>::None
        } else {
            Some(SearchReply::LimitReached)
        },
{
    if answered {
        None
    } else {
        Some(SearchReply::LimitReached)
    }
}

/// The chat message for an answer.
pub fn reply_message(reply: &SearchReply) -> (res: String)
    ensures
        res@ == match reply {
            SearchReply::Found(code) => "Located quizizz code: "@ + code@,
            SearchReply::LimitReached => LIMIT_REACHED_MSG@,
            SearchReply::Failed(message) => message@,
        },
{
    let mut out: Vec<char> = Vec::new();
    match reply {
        SearchReply::Found(code) => {
            push_str(&mut out, "Located quizizz code: ");
            push_str(&mut out, code.as_str());
        },
        SearchReply::LimitReached => {
            push_str(&mut out, LIMIT_REACHED_MSG);
        },
        SearchReply::Failed(message) => {
            push_str(&mut out, message.as_str());
        },
    }
    string_from_chars(&out)
}

} // verus!
