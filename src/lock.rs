//! The single-instance lock token: its file name, its text, and the claim and
//! release decisions taken on what the file holds.
//!
//! A token is the decimal process id of its owner. It is read back the way
//! `str::trim` followed by an integer parse reads it: surrounding Unicode
//! white space is ignored and one leading `+` or `-` is allowed.

use vstd::prelude::*;
use vstd::string::*;
use crate::text::{int_text, join3, nat_text, nat_to_text, digit_char};

verus! {

/// The largest magnitude a token is read with; larger numbers are no pid.
pub const TOKEN_LIMIT: u64 = 4294967295;

/// Unicode `White_Space`, the set that `str::trim` strips.
pub open spec fn is_space(c: char) -> bool {
    c == '\t' || c == '\n' || c == '\x0B' || c == '\x0C' || c == '\r' || c == ' '
        || c == '\u{85}' || c == '\u{A0}' || c == '\u{1680}' || c == '\u{2000}'
        || c == '\u{2001}' || c == '\u{2002}' || c == '\u{2003}' || c == '\u{2004}'
        || c == '\u{2005}' || c == '\u{2006}' || c == '\u{2007}' || c == '\u{2008}'
        || c == '\u{2009}' || c == '\u{200A}' || c == '\u{2028}' || c == '\u{2029}'
        || c == '\u{202F}' || c == '\u{205F}' || c == '\u{3000}'
}

pub open spec fn trim_start(s: Seq<char>) -> Seq<char>
    decreases s.len(),
{
    if s.len() > 0 && is_space(s[0]) {
        trim_start(s.drop_first())
    } else {
        s
    }
}

pub open spec fn trim_end(s: Seq<char>) -> Seq<char>
    decreases s.len(),
{
    if s.len() > 0 && is_space(s.last()) {
        trim_end(s.drop_last())
    } else {
        s
    }
}

pub open spec fn trimmed(s: Seq<char>) -> Seq<char> {
    trim_end(trim_start(s))
}

pub open spec fn is_digit(c: char) -> bool {
    '0' <= c && c <= '9'
}

pub open spec fn digit_value(c: char) -> nat {
    (c as int - '0' as int) as nat
}

pub open spec fn all_digits(s: Seq<char>) -> bool {
    s.len() > 0 && forall|i: int| 0 <= i < s.len() ==> is_digit(#[trigger] s[i])
}

pub open spec fn digits_value(s: Seq<char>) -> nat
    decreases s.len(),
{
    if s.len() == 0 {
        0
    } else {
        digits_value(s.drop_last()) * 10 + digit_value(s.last())
    }
}

/// The number a token's text holds, if it holds one.
pub open spec fn token_value(s: Seq<char>) -> Option<int> {
    let t = trimmed(s);
    if t.len() > 0 && t[0] == '-' {
        if all_digits(t.drop_first()) { Some(-digits_value(t.drop_first())) } else { None }
    } else if t.len() > 0 && t[0] == '+' {
        if all_digits(t.drop_first()) { Some(digits_value(t.drop_first()) as int) } else { None }
    } else if all_digits(t) {
        Some(digits_value(t) as int)
    } else {
        None
    }
}

/// The pid a token records, when it is one that fits an `i32`.
pub open spec fn recorded_pid_of(s: Seq<char>) -> Option<i32> {
    match token_value(s) {
        Some(v) => if i32::MIN <= v <= i32::MAX { Some(v as i32) } else { None },
        None => None,
    }
}

/// What a claim does, given the pid the token records and whether that
/// process is alive.
#[derive(Debug, Clone, Copy, PartialEq, Eq, Structural)]
pub enum ClaimDecision {
    /// No usable token: write our own.
    Acquire,
    /// The recorded process is gone: delete its token, then write our own.
    ReclaimStale { pid: i32 },
    /// The recorded process runs: send it the toggle signal and stop.
    AlreadyRunning { pid: i32 },
}

pub open spec fn claim_spec(recorded: Option<i32>, alive: bool) -> ClaimDecision {
    match recorded {
        None => ClaimDecision::Acquire,
        Some(pid) => if alive {
            ClaimDecision::AlreadyRunning { pid }
        } else {
            ClaimDecision::ReclaimStale { pid }
        },
    }
}

/// The token file's contents after a claim by `self_pid` (`None`: no file).
pub open spec fn token_after_claim(
    before: Option<Seq<char>>,
    decision: ClaimDecision,
    self_pid: u32,
) -> Option<Seq<char>> {
    match decision {
        ClaimDecision::AlreadyRunning { .. } => before,
        _ => Some(nat_text(self_pid as nat)),
    }
}

/// Whether `self_pid` owns the token with text `s`.
pub open spec fn owns_spec(s: Seq<char>, self_pid: u32) -> bool {
    token_value(s) == Some(self_pid as int)
}

/// The token file's contents after a release by `self_pid`.
pub open spec fn token_after_release(before: Option<Seq<char>>, self_pid: u32) -> Option<Seq<char>> {
    match before {
        Some(s) => if owns_spec(s, self_pid) { None } else { before },
        None => None,
    }
}

/// The file name of the lock token of application `app_name`.
pub fn lock_file_name(app_name: &str) -> (r: String)
    ensures
        r@ == "hyprland-minimizer-"@ + app_name@ + ".pid"@,
{
    join3("hyprland-minimizer-", app_name, ".pid")
}

/// The text of the token that `pid` writes.
pub fn token_text(pid: u32) -> (r: String)
    ensures
        r@ == nat_text(pid as nat),
{
    nat_to_text(pid as u64)
}

/// Decides a claim from the pid the token records (`None`: no token, or one
/// that holds no pid) and the liveness probe of that pid. A failed probe is
/// passed as `false`: the token is then taken as stale.
pub fn claim_decision(recorded: Option<i32>, alive: bool) -> (r: ClaimDecision)
    ensures
        r == claim_spec(recorded, alive),
{
    match recorded {
        None => ClaimDecision::Acquire,
        Some(pid) => if alive {
            ClaimDecision::AlreadyRunning { pid }
        } else {
            ClaimDecision::ReclaimStale { pid }
        },
    }
}

fn is_space_char(c: char) -> (r: bool)
    ensures
        r == is_space(c),
{
    c == '\t' || c == '\n' || c == '\x0B' || c == '\x0C' || c == '\r' || c == ' '
        || c == '\u{85}' || c == '\u{A0}' || c == '\u{1680}' || c == '\u{2000}'
        || c == '\u{2001}' || c == '\u{2002}' || c == '\u{2003}' || c == '\u{2004}'
        || c == '\u{2005}' || c == '\u{2006}' || c == '\u{2007}' || c == '\u{2008}'
        || c == '\u{2009}' || c == '\u{200A}' || c == '\u{2028}' || c == '\u{2029}'
        || c == '\u{202F}' || c == '\u{205F}' || c == '\u{3000}'
}

/// The bounds of `s` without its surrounding white space.
fn trim_bounds(s: &str) -> (r: (usize, usize))
    ensures
        r.0 <= r.1 <= s@.len(),
        s@.subrange(r.0 as int, r.1 as int) == trimmed(s@),
{
    let n = s.unicode_len();
    let mut a: usize = 0;
    assert(s@.subrange(0, n as int) =~= s@);
    while a < n && is_space_char(s.get_char(a))
        invariant
            a <= n,
            n == s@.len(),
            trim_start(s@) == trim_start(s@.subrange(a as int, n as int)),
        decreases n - a,
    {
        assert(s@.subrange(a as int, n as int).drop_first() =~= s@.subrange(a + 1, n as int));
        a = a + 1;
    }
    let mut b: usize = n;
    while b > a && is_space_char(s.get_char(b - 1))
        invariant
            a <= b <= n,
            n == s@.len(),
            trim_start(s@) == s@.subrange(a as int, n as int),
            trimmed(s@) == trim_end(s@.subrange(a as int, b as int)),
        decreases b - a,
    {
        assert(s@.subrange(a as int, b as int).drop_last() =~= s@.subrange(a as int, b - 1));
        b = b - 1;
    }
    (a, b)
}

proof fn lemma_digits_prefix_le(t: Seq<char>, k: int)
    requires
        0 <= k <= t.len(),
    ensures
        digits_value(t.subrange(0, k)) <= digits_value(t),
    decreases t.len(),
{
    if k == t.len() {
        assert(t.subrange(0, k) =~= t);
    } else {
        lemma_digits_prefix_le(t.drop_last(), k);
        assert(t.drop_last().subrange(0, k) =~= t.subrange(0, k));
    }
}

/// The value of the decimal digits of `s` between `a` and `b`, when they are
/// all digits and the value is at most `TOKEN_LIMIT`.
fn digits_number(s: &str, a: usize, b: usize) -> (r: Option<u64>)
    requires
        a <= b <= s@.len(),
    ensures
        r matches Some(v) ==> all_digits(s@.subrange(a as int, b as int))
            && digits_value(s@.subrange(a as int, b as int)) == v && v <= TOKEN_LIMIT,
        r is None ==> !all_digits(s@.subrange(a as int, b as int))
            || digits_value(s@.subrange(a as int, b as int)) > TOKEN_LIMIT,
{
    let ghost t = s@.subrange(a as int, b as int);
    if a == b {
        return None;
    }
    let mut i: usize = a;
    let mut acc: u64 = 0;
    assert(s@.subrange(a as int, a as int).len() == 0);
    while i < b
        invariant
            a <= i <= b,
            b <= s@.len(),
            t == s@.subrange(a as int, b as int),
            acc <= TOKEN_LIMIT,
            acc == digits_value(s@.subrange(a as int, i as int)),
            forall|k: int| a <= k < i ==> is_digit(s@[k]),
        decreases b - i,
    {
        let c = s.get_char(i);
        if !('0' <= c && c <= '9') {
            assert(t[i - a] == c);
            return None;
        }
        let d: u64 = ((c as u32) - ('0' as u32)) as u64;
        assert(s@.subrange(a as int, i + 1).drop_last() =~= s@.subrange(a as int, i as int));
        let next: u64 = acc * 10 + d;
        if next > TOKEN_LIMIT {
            proof {
                lemma_digits_prefix_le(t, i + 1 - a);
                assert(t.subrange(0, i + 1 - a) =~= s@.subrange(a as int, i + 1));
            }
            return None;
        }
        acc = next;
        i = i + 1;
    }
    assert(s@.subrange(a as int, i as int) =~= t);
    assert forall|k: int| 0 <= k < t.len() implies is_digit(#[trigger] t[k]) by {
        assert(t[k] == s@[a + k]);
    }
    Some(acc)
}

/// The number a token's text holds, when its magnitude is at most `TOKEN_LIMIT`.
pub fn token_number(s: &str) -> (r: Option<i64>)
    ensures
        r matches Some(v) ==> token_value(s@) == Some(v as int) && -TOKEN_LIMIT <= v <= TOKEN_LIMIT,
        r is None ==> !(token_value(s@) matches Some(v) && -TOKEN_LIMIT <= v <= TOKEN_LIMIT),
{
    let (a, b) = trim_bounds(s);
    let ghost t = s@.subrange(a as int, b as int);
    if a < b && s.get_char(a) == '-' {
        assert(t.drop_first() =~= s@.subrange(a + 1, b as int));
        match digits_number(s, a + 1, b) {
            Some(v) => Some(-(v as i64)),
            None => None,
        }
    } else if a < b && s.get_char(a) == '+' {
        assert(t.drop_first() =~= s@.subrange(a + 1, b as int));
        match digits_number(s, a + 1, b) {
            Some(v) => Some(v as i64),
            None => None,
        }
    } else {
        match digits_number(s, a, b) {
            Some(v) => Some(v as i64),
            None => None,
        }
    }
}

/// The pid the token with text `contents` records, if any.
pub fn recorded_pid(contents: &str) -> (r: Option<i32>)
    ensures
        r == recorded_pid_of(contents@),
{
    match token_number(contents) {
        Some(v) => if i32::MIN as i64 <= v && v <= i32::MAX as i64 {
            Some(v as i32)
        } else {
            None
        },
        None => None,
    }
}

/// Whether the token with text `contents` is owned by `self_pid`: only then
/// may a release delete it.
pub fn owns_token(contents: &str, self_pid: u32) -> (r: bool)
    ensures
        r == owns_spec(contents@, self_pid),
{
    match token_number(contents) {
        Some(v) => v == self_pid as i64,
        None => false,
    }
}

proof fn lemma_nat_text_digits(n: nat)
    ensures
        all_digits(nat_text(n)),
        digits_value(nat_text(n)) == n,
    decreases n,
{
    let t = nat_text(n);
    if n < 10 {
        assert(t.drop_last() =~= Seq::<char>::empty());
        assert(digits_value(Seq::<char>::empty()) == 0);
    } else {
        lemma_nat_text_digits(n / 10);
        let p = nat_text(n / 10);
        assert(t.drop_last() =~= p);
        assert forall|i: int| 0 <= i < t.len() implies is_digit(#[trigger] t[i]) by {
            if i < p.len() {
                assert(t[i] == p[i]);
            }
        }
    }
}

/// A token that `pid` writes is read back as `pid`.
pub proof fn lemma_token_round_trip(pid: u32)
    ensures
        token_value(nat_text(pid as nat)) == Some(pid as int),
        owns_spec(nat_text(pid as nat), pid),
        pid <= i32::MAX ==> recorded_pid_of(nat_text(pid as nat)) == Some(pid as i32),
{
    let t = nat_text(pid as nat);
    lemma_nat_text_digits(pid as nat);
    assert(is_digit(t[0]));
    assert(is_digit(t.last()));
    assert(trim_start(t) == t);
    assert(trim_end(t) == t);
}

/// A claim while the first owner's process is alive defers to it: it reports
/// that owner as running and leaves the first owner's token as it was.
pub proof fn lemma_claim_exclusive(first: u32, second: u32)
    requires
        first <= i32::MAX,
    ensures
        ({
            let t1 = token_after_claim(None, claim_spec(None, false), first);
            let d2 = claim_spec(recorded_pid_of(t1.unwrap()), true);
            &&& t1 == Some(nat_text(first as nat))
            &&& d2 == (ClaimDecision::AlreadyRunning { pid: first as i32 })
            &&& token_after_claim(t1, d2, second) == t1
        }),
{
    lemma_token_round_trip(first);
}

/// A token whose recorded process is gone is reclaimed: the claim deletes it
/// and writes the claimant's own token, which then reads back as the
/// claimant's and is the claimant's to release.
pub proof fn lemma_stale_token_reclaimed(token: Seq<char>, stale: i32, self_pid: u32)
    requires
        recorded_pid_of(token) == Some(stale),
    ensures
        claim_spec(recorded_pid_of(token), false) == (ClaimDecision::ReclaimStale { pid: stale }),
        token_after_claim(Some(token), claim_spec(Some(stale), false), self_pid)
            == Some(nat_text(self_pid as nat)),
        owns_spec(nat_text(self_pid as nat), self_pid),
        token_after_release(Some(nat_text(self_pid as nat)), self_pid) is None,
{
    lemma_token_round_trip(self_pid);
}

/// A release never deletes a token whose recorded pid is not the caller's.
pub proof fn lemma_release_owner_scoped(token: Seq<char>, self_pid: u32)
    requires
        token_value(token) != Some(self_pid as int),
    ensures
        token_after_release(Some(token), self_pid) == Some(token),
{
}

} // verus!
