//! Text handling for the command-line parser embedded in the handler units:
//! whitespace trimming, prefix matching, and whitespace splitting, modelled
//! over `Seq<char>` views.

use vstd::prelude::*;

verus! {

/// What std's `char::is_whitespace` returns of a character: the Unicode
/// `White_Space` property, a function of the character alone.
pub uninterp spec fn is_space(c: char) -> bool;

/// The ASCII characters that carry the Unicode `White_Space` property:
/// tab, line feed, vertical tab, form feed, carriage return, space.
pub open spec fn is_ascii_space(c: char) -> bool {
    c == ' ' || c == '\t' || c == '\n' || c == '\u{000B}' || c == '\u{000C}' || c == '\r'
}

/// Relies on char::is_whitespace: true exactly of characters with the Unicode
/// `White_Space` property; on the ASCII range those are tab, line feed,
/// vertical tab, form feed, carriage return, and space.
#[verifier::external_body]
fn char_is_space(c: char) -> (r: bool)
    ensures
        r == is_space(c),
        (c as u32) < 128 ==> r == is_ascii_space(c),
{
    c.is_whitespace()
}

/// The sequence without its leading whitespace characters.
pub open spec fn drop_leading_spaces(s: Seq<char>) -> Seq<char>
    decreases s.len(),
{
    if s.len() > 0 && is_space(s[0]) {
        drop_leading_spaces(s.drop_first())
    } else {
        s
    }
}

/// The sequence without its trailing whitespace characters.
pub open spec fn drop_trailing_spaces(s: Seq<char>) -> Seq<char>
    decreases s.len(),
{
    if s.len() > 0 && is_space(s.last()) {
        drop_trailing_spaces(s.drop_last())
    } else {
        s
    }
}

/// What `str::trim` returns: the sequence without leading and trailing
/// whitespace.
pub open spec fn trimmed(s: Seq<char>) -> Seq<char> {
    drop_trailing_spaces(drop_leading_spaces(s))
}

/// `p` is a prefix of `s`.
pub open spec fn seq_starts_with(s: Seq<char>, p: Seq<char>) -> bool {
    p.len() <= s.len() && s.subrange(0, p.len() as int) == p
}

/// Splitting on whitespace, tracked with the word accumulated so far:
/// maximal runs of non-whitespace characters, in order.
pub open spec fn tokens_acc(s: Seq<char>, cur: Seq<char>) -> Seq<Seq<char>>
    decreases s.len(),
{
    if s.len() == 0 {
        if cur.len() == 0 {
            Seq::<Seq<char>>::empty()
        } else {
            seq![cur]
        }
    } else if is_space(s[0]) {
        if cur.len() == 0 {
            tokens_acc(s.drop_first(), Seq::<char>::empty())
        } else {
            seq![cur] + tokens_acc(s.drop_first(), Seq::<char>::empty())
        }
    } else {
        tokens_acc(s.drop_first(), cur.push(s[0]))
    }
}

/// What `str::split_whitespace` yields: the maximal runs of non-whitespace
/// characters, in order.
pub open spec fn tokens(s: Seq<char>) -> Seq<Seq<char>> {
    tokens_acc(s, Seq::<char>::empty())
}

/// The views of a sequence of owned strings.
pub open spec fn views_of(v: Seq<String>) -> Seq<Seq<char>> {
    v.map_values(|t: String| t@)
}

proof fn lemma_drop_leading_at(s: Seq<char>, a: int)
    requires
        0 <= a <= s.len(),
        forall|j: int| 0 <= j < a ==> is_space(#[trigger] s[j]),
        a < s.len() ==> !is_space(s[a]),
    ensures
        drop_leading_spaces(s) == s.skip(a),
    decreases a,
{
    if a == 0 {
        assert(drop_leading_spaces(s) =~= s.skip(0));
    } else {
        let t = s.drop_first();
        assert(is_space(s[0]));
        assert(forall|j: int| 0 <= j < a - 1 ==> is_space(#[trigger] t[j]));
        lemma_drop_leading_at(t, a - 1);
        assert(t.skip(a - 1) =~= s.skip(a));
    }
}

proof fn lemma_drop_trailing_at(s: Seq<char>, b: int)
    requires
        0 <= b <= s.len(),
        forall|j: int| b <= j < s.len() ==> is_space(#[trigger] s[j]),
        b > 0 ==> !is_space(s[b - 1]),
    ensures
        drop_trailing_spaces(s) == s.take(b),
    decreases s.len() - b,
{
    if b == s.len() {
        if s.len() > 0 && is_space(s.last()) {
            assert(!is_space(s[b - 1]));
            assert(false);
        }
        assert(drop_trailing_spaces(s) =~= s.take(b));
    } else {
        assert(is_space(s.last()));
        let t = s.drop_last();
        assert(forall|j: int| b <= j < t.len() ==> is_space(#[trigger] t[j]));
        lemma_drop_trailing_at(t, b);
        assert(t.take(b) =~= s.take(b));
    }
}

/// Owned copy of the argument without leading and trailing whitespace, as
/// `str::trim` returns it.
pub fn trim_str(s: &str) -> (r: String)
    ensures
        r@ == trimmed(s@),
{
    let n = s.unicode_len();
    let mut a: usize = 0;
    while a < n
        invariant
            n == s@.len(),
            a <= n,
            forall|j: int| 0 <= j < a ==> is_space(#[trigger] s@[j]),
        ensures
            a <= n,
            forall|j: int| 0 <= j < a ==> is_space(#[trigger] s@[j]),
            a < n ==> !is_space(s@[a as int]),
        decreases n - a,
    {
        if !char_is_space(s.get_char(a)) {
            break;
        }
        a += 1;
    }
    // a == n (all whitespace) or s@[a] is not whitespace
    let mut b: usize = n;
    while b > a
        invariant
            n == s@.len(),
            a <= b <= n,
            forall|j: int| b <= j < n ==> is_space(#[trigger] s@[j]),
        ensures
            a <= b <= n,
            forall|j: int| b <= j < n ==> is_space(#[trigger] s@[j]),
            b > a ==> !is_space(s@[b - 1]),
        decreases b,
    {
        if !char_is_space(s.get_char(b - 1)) {
            break;
        }
        b -= 1;
    }
    proof {
        lemma_drop_leading_at(s@, a as int);
        let t = s@.skip(a as int);
        assert(forall|j: int| b - a <= j < t.len() ==> is_space(#[trigger] t[j]));
        lemma_drop_trailing_at(t, b - a);
        assert(t.take(b - a) =~= s@.subrange(a as int, b as int));
    }
    String::from_str(s.substring_char(a, b))
}

/// Whether `s` starts with `p`, compared character by character.
pub fn str_starts_with(s: &str, p: &str) -> (r: bool)
    ensures
        r == seq_starts_with(s@, p@),
{
    let sn = s.unicode_len();
    let pn = p.unicode_len();
    if pn > sn {
        return false;
    }
    let mut i: usize = 0;
    while i < pn
        invariant
            sn == s@.len(),
            pn == p@.len(),
            pn <= sn,
            i <= pn,
            forall|j: int| 0 <= j < i ==> s@[j] == p@[j],
        decreases pn - i,
    {
        if s.get_char(i) != p.get_char(i) {
            proof {
                assert(s@.subrange(0, pn as int)[i as int] != p@[i as int]);
            }
            return false;
        }
        i += 1;
    }
    proof {
        assert(s@.subrange(0, pn as int) =~= p@);
    }
    true
}

/// Whether the two slices hold the same characters.
pub fn str_eq(a: &str, b: &str) -> (r: bool)
    ensures
        r == (a@ == b@),
{
    let an = a.unicode_len();
    let bn = b.unicode_len();
    if an != bn {
        return false;
    }
    let mut i: usize = 0;
    while i < an
        invariant
            an == a@.len(),
            bn == b@.len(),
            an == bn,
            i <= an,
            forall|j: int| 0 <= j < i ==> a@[j] == b@[j],
        decreases an - i,
    {
        if a.get_char(i) != b.get_char(i) {
            return false;
        }
        i += 1;
    }
    proof {
        assert(a@ =~= b@);
    }
    true
}

/// The whitespace-separated tokens of `s`, in order, as owned strings.
pub fn split_whitespace_tokens(s: &str) -> (r: Vec<String>)
    ensures
        views_of(r@) == tokens(s@),
{
    let n = s.unicode_len();
    let mut out: Vec<String> = Vec::new();
    let mut word_start: Option<usize> = None;
    let mut i: usize = 0;
    proof {
        assert(s@.skip(0) =~= s@);
        assert(views_of(out@) + tokens_acc(s@, Seq::<char>::empty()) =~= tokens(s@));
    }
    while i < n
        invariant
            n == s@.len(),
            i <= n,
            match word_start {
                Some(st) => st < i && tokens(s@) == views_of(out@) + tokens_acc(
                    s@.skip(i as int),
                    s@.subrange(st as int, i as int),
                ),
                None => tokens(s@) == views_of(out@) + tokens_acc(
                    s@.skip(i as int),
                    Seq::<char>::empty(),
                ),
            },
        decreases n - i,
    {
        let c = s.get_char(i);
        proof {
            assert(s@.skip(i as int).len() == n - i);
            assert(s@.skip(i as int)[0] == s@[i as int]);
            assert(s@.skip(i as int).drop_first() =~= s@.skip(i as int + 1));
        }
        if char_is_space(c) {
            match word_start {
                Some(st) => {
                    let tok = String::from_str(s.substring_char(st, i));
                    proof {
                        let cur = s@.subrange(st as int, i as int);
                        assert(cur.len() > 0);
                        assert(tokens_acc(s@.skip(i as int), cur) == seq![cur] + tokens_acc(
                            s@.skip(i as int + 1),
                            Seq::<char>::empty(),
                        ));
                        assert(views_of(out@.push(tok)) =~= views_of(out@) + seq![cur]);
                        assert(views_of(out@) + (seq![cur] + tokens_acc(
                            s@.skip(i as int + 1),
                            Seq::<char>::empty(),
                        )) =~= (views_of(out@) + seq![cur]) + tokens_acc(
                            s@.skip(i as int + 1),
                            Seq::<char>::empty(),
                        ));
                    }
                    out.push(tok);
                    word_start = None;
                },
                None => {
                },
            }
        } else {
            match word_start {
                Some(st) => {
                    proof {
                        assert(s@.subrange(st as int, i as int).push(s@[i as int]) =~= s@.subrange(
                            st as int,
                            i as int + 1,
                        ));
                    }
                },
                None => {
                    proof {
                        assert(Seq::<char>::empty().push(s@[i as int]) =~= s@.subrange(
                            i as int,
                            i as int + 1,
                        ));
                    }
                    word_start = Some(i);
                },
            }
        }
        i += 1;
    }
    proof {
        assert(s@.skip(n as int) =~= Seq::<char>::empty());
    }
    match word_start {
        Some(st) => {
            let tok = String::from_str(s.substring_char(st, n));
            proof {
                let cur = s@.subrange(st as int, n as int);
                assert(cur.len() > 0);
                assert(tokens_acc(Seq::<char>::empty(), cur) == seq![cur]);
                assert(views_of(out@.push(tok)) =~= views_of(out@) + seq![cur]);
            }
            out.push(tok);
        },
        None => {
            proof {
                assert(views_of(out@) + tokens_acc(Seq::<char>::empty(), Seq::<char>::empty())
                    =~= views_of(out@));
            }
        },
    }
    out
}

} // verus!
