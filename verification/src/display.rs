//! Helpers of the dashboard: the bounded lists of recent ticks and orders,
//! and the pair selector's `A-B` values.

use vstd::prelude::*;

verus! {

/// The list after appending `entry`, the oldest entry leaving when the list
/// would grow beyond `limit`.
pub open spec fn appended_recent<T>(log: Seq<T>, entry: T, limit: nat) -> Seq<T> {
    if log.len() + 1 > limit {
        log.push(entry).drop_first()
    } else {
        log.push(entry)
    }
}

/// Appends `entry` to `log`, dropping the oldest entry when the log then
/// holds more than `limit` entries.
pub fn push_recent<T>(log: &mut Vec<T>, entry: T, limit: usize)
    ensures
        final(log)@ == appended_recent(old(log)@, entry, limit as nat),
{
    log.push(entry);
    if log.len() > limit {
        let _ = log.remove(0);
        assert(old(log)@.push(entry).remove(0) =~= old(log)@.push(entry).drop_first());
    }
}

/// A log kept with `push_recent` never holds more than `limit` entries.
pub proof fn recent_log_stays_bounded<T>(log: Seq<T>, entry: T, limit: nat)
    requires
        log.len() <= limit,
    ensures
        appended_recent(log, entry, limit).len() <= limit,
{
}

/// The number of `-` characters of a text.
pub open spec fn dashes(s: Seq<char>) -> nat
    decreases s.len(),
{
    if s.len() == 0 {
        0
    } else {
        dashes(s.drop_last()) + if s.last() == '-' { 1nat } else { 0nat }
    }
}

/// Counting dashes distributes over concatenation.
proof fn dashes_concat(x: Seq<char>, y: Seq<char>)
    ensures
        dashes(x + y) == dashes(x) + dashes(y),
    decreases y.len(),
{
    if y.len() > 0 {
        dashes_concat(x, y.drop_last());
        assert((x + y).drop_last() =~= x + y.drop_last());
    } else {
        assert(x + y =~= x);
    }
}

/// The dashes of a prefix.
proof fn dashes_prefix_step(s: Seq<char>, i: int)
    requires
        0 <= i < s.len(),
    ensures
        dashes(s.take(i + 1)) == dashes(s.take(i)) + if s[i] == '-' { 1nat } else { 0nat },
{
    assert(s.take(i + 1).drop_last() =~= s.take(i));
}

/// Splits the pair selector's value `A-B` into its two symbols; a value
/// without exactly one `-` gives `None`.
pub fn parse_pair_choice(value: &str) -> (r: Option<(String, String)>)
    ensures
        r is Some <==> dashes(value@) == 1,
        r matches Some((a, b)) ==> value@ == a@ + seq!['-'] + b@ && dashes(a@) == 0 && dashes(b@) == 0,
{
    let n = value.unicode_len();
    let mut count: usize = 0;
    let mut at: usize = 0;
    let mut i: usize = 0;
    while i < n
        invariant
            n == value@.len(),
            i <= n,
            count == (if dashes(value@.take(i as int)) < 2 { dashes(value@.take(i as int)) } else { 2 }),
            count >= 1 ==> at < i && value@[at as int] == '-' && dashes(value@.take(at as int)) == 0,
        decreases n - i,
    {
        proof {
            dashes_prefix_step(value@, i as int);
        }
        if value.get_char(i) == '-' {
            if count == 0 {
                at = i;
            }
            if count < 2 {
                count = count + 1;
            }
        }
        i = i + 1;
    }
    assert(value@.take(n as int) =~= value@);
    if count != 1 {
        return None;
    }
    let left = value.substring_char(0, at);
    let right = value.substring_char(at + 1, n);
    proof {
        assert(value@ =~= left@ + seq!['-'] + right@);
        assert(left@ =~= value@.take(at as int));
        dashes_concat(left@ + seq!['-'], right@);
        dashes_concat(left@, seq!['-']);
        assert(seq!['-'].drop_last() =~= Seq::<char>::empty());
    }
    Some((String::from_str(left), String::from_str(right)))
}

} // verus!
