//! How long a paste lives.
//!
//! The home page takes `-1` (the paste never expires), `0` (the paste is
//! deleted once it has been read) or durations such as `2h`, `7d` or
//! `1w 3d`: numbers, each followed by one of the units `s`, `m`, `h`, `d`,
//! `w`, `M` (30 days) and `y` (365 days), separated by single spaces, which
//! add up to a delay in seconds.

use vstd::prelude::*;

verus! {

/// An expiry as the user asked for it.
#[derive(Clone, Copy, Debug, PartialEq, Eq, Structural)]
pub enum Expiry {
    /// `-1`: the paste stays until it is deleted by hand.
    Never,
    /// `0`: the paste is deleted when it is first read.
    ReadOnce,
    /// A duration: the paste expires this many seconds from now.
    After(i64),
}

/// Why an expiry could not be read.
#[derive(Clone, Copy, Debug, PartialEq, Eq, Structural)]
pub enum ExpiryError {
    /// A part has an unknown unit or no number before its unit.
    Invalid,
    /// A part is empty: the input is empty, or two spaces meet, or a
    /// space starts or ends it. There is no unit to read there.
    EmptyPart,
    /// The delay does not fit in a signed 64-bit number of seconds.
    Overflow,
}

/// The seconds in one of each unit.
pub open spec fn unit_seconds(c: char) -> Option<int> {
    if c == 's' {
        Some(1int)
    } else if c == 'm' {
        Some(60int)
    } else if c == 'h' {
        Some(3600int)
    } else if c == 'd' {
        Some(86400int)
    } else if c == 'w' {
        Some(604800int)
    } else if c == 'M' {
        Some(2592000int)
    } else if c == 'y' {
        Some(31536000int)
    } else {
        None
    }
}

/// `s` cut at each space; `n` spaces give `n + 1` parts, some of them
/// perhaps empty.
pub open spec fn split_spaces(s: Seq<char>) -> Seq<Seq<char>>
    decreases s.len(),
{
    if s.len() == 0 {
        seq![Seq::empty()]
    } else {
        let init = split_spaces(s.drop_last());
        if s.last() == ' ' {
            init.push(Seq::empty())
        } else {
            init.update(init.len() - 1, init.last().push(s.last()))
        }
    }
}

pub open spec fn is_digit(c: char) -> bool {
    '0' <= c && c <= '9'
}

pub open spec fn all_digits(d: Seq<char>) -> bool {
    forall|i: int| 0 <= i < d.len() ==> is_digit(#[trigger] d[i])
}

/// The number that the decimal digits `d` write.
pub open spec fn digits_value(d: Seq<char>) -> int
    decreases d.len(),
{
    if d.len() == 0 {
        0
    } else {
        digits_value(d.drop_last()) * 10 + (d.last() as int - '0' as int)
    }
}

pub open spec fn fits_i64(v: int) -> bool {
    i64::MIN <= v <= i64::MAX
}

/// A signed decimal number: an optional `+` or `-`, then one or more
/// digits, and a value that fits in 64 bits.
pub open spec fn decimal_value(s: Seq<char>) -> Option<int> {
    if s.len() == 0 {
        None
    } else {
        let signed = s[0] == '+' || s[0] == '-';
        let digits = if signed { s.drop_first() } else { s };
        let v = if s[0] == '-' { -digits_value(digits) } else { digits_value(digits) };
        if digits.len() == 0 || !all_digits(digits) || !fits_i64(v) {
            None
        } else {
            Some(v)
        }
    }
}

/// The delay after one more part, on top of `acc` seconds.
pub open spec fn add_part(acc: int, part: Seq<char>) -> Result<int, ExpiryError> {
    if part.len() == 0 {
        Err(ExpiryError::EmptyPart)
    } else {
        match unit_seconds(part.last()) {
            None => Err(ExpiryError::Invalid),
            Some(m) => match decimal_value(part.drop_last()) {
                None => Err(ExpiryError::Invalid),
                Some(t) => if fits_i64(m * t) && fits_i64(acc + m * t) {
                    Ok(acc + m * t)
                } else {
                    Err(ExpiryError::Overflow)
                },
            },
        }
    }
}

/// The delay that the parts give, read from the first to the last; the
/// first part that fails decides the error.
pub open spec fn parts_delay(parts: Seq<Seq<char>>) -> Result<int, ExpiryError>
    decreases parts.len(),
{
    if parts.len() == 0 {
        Ok(0)
    } else {
        match parts_delay(parts.drop_last()) {
            Err(e) => Err(e),
            Ok(acc) => add_part(acc, parts.last()),
        }
    }
}

/// What the expiry field means.
pub open spec fn expiry_of(s: Seq<char>) -> Result<Expiry, ExpiryError> {
    if s == seq!['-', '1'] {
        Ok(Expiry::Never)
    } else if s == seq!['0'] {
        Ok(Expiry::ReadOnce)
    } else {
        match parts_delay(split_spaces(s)) {
            Ok(d) => Ok(Expiry::After(d as i64)),
            Err(e) => Err(e),
        }
    }
}

pub proof fn lemma_split_nonempty(s: Seq<char>)
    ensures
        split_spaces(s).len() >= 1,
    decreases s.len(),
{
    if s.len() > 0 {
        lemma_split_nonempty(s.drop_last());
    }
}

proof fn lemma_parts_delay_fits(parts: Seq<Seq<char>>)
    ensures
        parts_delay(parts) matches Ok(d) ==> fits_i64(d),
    decreases parts.len(),
{
    if parts.len() > 0 {
        lemma_parts_delay_fits(parts.drop_last());
    }
}

proof fn lemma_split_concat(s1: Seq<char>, s2: Seq<char>)
    ensures
        split_spaces(s1 + seq![' '] + s2) == split_spaces(s1) + split_spaces(s2),
    decreases s2.len(),
{
    let t = s1 + seq![' '] + s2;
    if s2.len() == 0 {
        assert(t.drop_last() =~= s1);
        assert(split_spaces(s1).push(Seq::empty()) =~= split_spaces(s1) + split_spaces(s2));
    } else {
        lemma_split_concat(s1, s2.drop_last());
        assert(t.drop_last() =~= s1 + seq![' '] + s2.drop_last());
        lemma_split_nonempty(s2.drop_last());
        let a = split_spaces(s1);
        let b = split_spaces(s2.drop_last());
        if s2.last() == ' ' {
            assert((a + b).push(Seq::empty()) =~= a + b.push(Seq::empty()));
        } else {
            let c = s2.last();
            assert((a + b).update((a + b).len() - 1, (a + b).last().push(c)) =~= a + b.update(
                b.len() - 1,
                b.last().push(c),
            ));
        }
    }
}

proof fn lemma_parts_delay_concat(p1: Seq<Seq<char>>, p2: Seq<Seq<char>>, d1: int, d2: int)
    requires
        parts_delay(p1) == Ok::<int, ExpiryError>(d1),
        parts_delay(p2) == Ok::<int, ExpiryError>(d2),
    ensures
        parts_delay(p1 + p2) == Ok::<int, ExpiryError>(d1 + d2) || parts_delay(p1 + p2) == Err::<
            int,
            ExpiryError,
        >(ExpiryError::Overflow),
    decreases p2.len(),
{
    if p2.len() == 0 {
        assert(p1 + p2 =~= p1);
    } else {
        let q = p2.drop_last();
        let a = parts_delay(q)->Ok_0;
        lemma_parts_delay_concat(p1, q, d1, a);
        assert((p1 + p2).drop_last() =~= p1 + q);
        assert((p1 + p2).last() == p2.last());
    }
}

/// Durations add up: where `s1` and `s2` each read as a duration, the two
/// joined by a space read as the sum of both, unless the running total
/// leaves the range of 64-bit seconds on the way.
pub proof fn lemma_durations_add(s1: Seq<char>, s2: Seq<char>, d1: i64, d2: i64)
    requires
        expiry_of(s1) == Ok::<Expiry, ExpiryError>(Expiry::After(d1)),
        expiry_of(s2) == Ok::<Expiry, ExpiryError>(Expiry::After(d2)),
    ensures
        expiry_of(s1 + seq![' '] + s2) == Ok::<Expiry, ExpiryError>(Expiry::After((d1 + d2) as i64))
            || expiry_of(s1 + seq![' '] + s2) == Err::<Expiry, ExpiryError>(ExpiryError::Overflow),
        expiry_of(s1 + seq![' '] + s2) matches Ok(Expiry::After(d)) ==> d == d1 + d2,
{
    let t = s1 + seq![' '] + s2;
    assert(t.len() >= 2);
    assert(t != seq!['0']);
    if t == seq!['-', '1'] {
        assert(s2.len() == 0);
        assert(t[1] == ' ');
    }
    lemma_split_concat(s1, s2);
    lemma_parts_delay_fits(split_spaces(s1));
    lemma_parts_delay_fits(split_spaces(s2));
    let e1 = parts_delay(split_spaces(s1))->Ok_0;
    let e2 = parts_delay(split_spaces(s2))->Ok_0;
    assert(e1 == d1 as int);
    assert(e2 == d2 as int);
    lemma_parts_delay_concat(split_spaces(s1), split_spaces(s2), e1, e2);
    lemma_parts_delay_fits(split_spaces(t));
}

/// The characters held by each vector of `v`.
pub open spec fn views(v: Seq<Vec<char>>) -> Seq<Seq<char>> {
    v.map_values(|p: Vec<char>| p@)
}

/// The seconds in one of the unit `c`, where `c` is a unit.
fn unit_of(c: char) -> (r: Option<i64>)
    ensures
        r matches Some(m) ==> unit_seconds(c) == Some(m as int),
        r is None ==> unit_seconds(c) is None,
{
    if c == 's' {
        Some(1)
    } else if c == 'm' {
        Some(60)
    } else if c == 'h' {
        Some(60 * 60)
    } else if c == 'd' {
        Some(24 * 60 * 60)
    } else if c == 'w' {
        Some(7 * 24 * 60 * 60)
    } else if c == 'M' {
        Some(30 * 24 * 60 * 60)
    } else if c == 'y' {
        Some(365 * 24 * 60 * 60)
    } else {
        None
    }
}

/// Reads the signed decimal number written by the first `end` characters
/// of `v`.
pub fn parse_decimal(v: &Vec<char>, end: usize) -> (r: Option<i64>)
    requires
        end <= v@.len(),
    ensures
        r matches Some(x) ==> decimal_value(v@.take(end as int)) == Some(x as int),
        r is None ==> decimal_value(v@.take(end as int)) is None,
{
    let ghost s = v@.take(end as int);
    if end == 0 {
        return None;
    }
    let first = v[0];
    let negative = first == '-';
    let start: usize = if first == '+' || first == '-' { 1 } else { 0 };
    let ghost digits = if first == '+' || first == '-' { s.drop_first() } else { s };
    assert(digits =~= v@.subrange(start as int, end as int));
    if start == end {
        return None;
    }
    // The value, held at `cap` once it is past every value that fits.
    let cap: u128 = 9223372036854775809;
    let mut acc: u128 = 0;
    let mut i: usize = start;
    while i < end
        invariant
            start <= i <= end <= v@.len(),
            cap == 9223372036854775809,
            digits == v@.subrange(start as int, end as int),
            s == v@.take(end as int),
            s.len() > 0,
            digits == (if s[0] == '+' || s[0] == '-' { s.drop_first() } else { s }),
            forall|j: int| start <= j < i ==> is_digit(#[trigger] v@[j]),
            acc == (if digits_value(v@.subrange(start as int, i as int)) < cap {
                digits_value(v@.subrange(start as int, i as int))
            } else {
                cap as int
            }),
        decreases end - i,
    {
        let c = v[i];
        if !('0' <= c && c <= '9') {
            assert(!is_digit(digits[i - start]));
            assert(!all_digits(digits));
            return None;
        }
        let d: u128 = (c as u32 - '0' as u32) as u128;
        assert(v@.subrange(start as int, i + 1).drop_last() =~= v@.subrange(start as int, i as int));
        let next = acc * 10 + d;
        acc = if next < cap { next } else { cap };
        i = i + 1;
    }
    assert(all_digits(digits));
    if negative {
        if acc > 9223372036854775808 {
            None
        } else if acc == 9223372036854775808 {
            Some(i64::MIN)
        } else {
            let m = acc as i64;
            Some(-m)
        }
    } else {
        if acc > 9223372036854775807 {
            None
        } else {
            Some(acc as i64)
        }
    }
}

/// Adds one part to the delay `acc`.
fn add_part_exec(acc: i64, part: &Vec<char>) -> (r: Result<i64, ExpiryError>)
    ensures
        r matches Ok(d) ==> add_part(acc as int, part@) == Ok::<int, ExpiryError>(d as int),
        r matches Err(e) ==> add_part(acc as int, part@) == Err::<int, ExpiryError>(e),
{
    let n = part.len();
    if n == 0 {
        return Err(ExpiryError::EmptyPart);
    }
    assert(part@.take(n - 1) =~= part@.drop_last());
    match unit_of(part[n - 1]) {
        None => Err(ExpiryError::Invalid),
        Some(m) => match parse_decimal(part, n - 1) {
            None => Err(ExpiryError::Invalid),
            Some(t) => match m.checked_mul(t) {
                None => Err(ExpiryError::Overflow),
                Some(mt) => match acc.checked_add(mt) {
                    None => Err(ExpiryError::Overflow),
                    Some(sum) => Ok(sum),
                },
            },
        },
    }
}

/// The parts of `s` between single spaces.
fn split_parts(s: &Vec<char>) -> (parts: Vec<Vec<char>>)
    ensures
        views(parts@) == split_spaces(s@),
{
    let mut done: Vec<Vec<char>> = Vec::new();
    let mut cur: Vec<char> = Vec::new();
    let mut i: usize = 0;
    assert(s@.take(0) =~= Seq::<char>::empty());
    while i < s.len()
        invariant
            i <= s@.len(),
            split_spaces(s@.take(i as int)) =~= views(done@).push(cur@),
        decreases s@.len() - i,
    {
        let c = s[i];
        let ghost before = s@.take(i as int);
        let ghost old_done = views(done@);
        assert(s@.take(i + 1).drop_last() =~= before);
        assert(s@.take(i + 1).last() == c);
        if c == ' ' {
            let finished = cur;
            let ghost fin = finished@;
            done.push(finished);
            assert(views(done@) =~= old_done.push(fin));
            cur = Vec::new();
        } else {
            cur.push(c);
            assert(views(done@) =~= old_done);
        }
        i = i + 1;
    }
    assert(s@.take(s@.len() as int) =~= s@);
    let ghost old_done = views(done@);
    let ghost last = cur@;
    done.push(cur);
    assert(views(done@) =~= old_done.push(last));
    done
}

/// Reads the expiry field of the home page.
pub fn parse_expiry(input: &str) -> (r: Result<Expiry, ExpiryError>)
    ensures
        r == expiry_of(input@),
{
    let s = crate::text::chars_of(input);
    if s.len() == 2 && s[0] == '-' && s[1] == '1' {
        assert(s@ =~= seq!['-', '1']);
        return Ok(Expiry::Never);
    }
    if s.len() == 1 && s[0] == '0' {
        assert(s@ =~= seq!['0']);
        return Ok(Expiry::ReadOnce);
    }
    assert(s@ != seq!['-', '1']);
    assert(s@ != seq!['0']);
    let parts = split_parts(&s);
    let ghost ps = views(parts@);
    let mut acc: Result<i64, ExpiryError> = Ok(0);
    let mut j: usize = 0;
    assert(ps.take(0) =~= Seq::<Seq<char>>::empty());
    while j < parts.len()
        invariant
            ps == views(parts@),
            j <= ps.len(),
            acc matches Ok(d) ==> parts_delay(ps.take(j as int)) == Ok::<int, ExpiryError>(d as int),
            acc matches Err(e) ==> parts_delay(ps.take(j as int)) == Err::<int, ExpiryError>(e),
        decreases ps.len() - j,
    {
        assert(ps.take(j + 1).drop_last() =~= ps.take(j as int));
        assert(ps.take(j + 1).last() == parts[j as int]@);
        acc = match acc {
            Ok(d) => add_part_exec(d, &parts[j]),
            Err(e) => Err(e),
        };
        j = j + 1;
    }
    assert(ps.take(ps.len() as int) =~= ps);
    proof {
        lemma_parts_delay_fits(ps);
    }
    match acc {
        Ok(d) => Ok(Expiry::After(d)),
        Err(e) => Err(e),
    }
}

/// The largest number of seconds that a `chrono::TimeDelta` holds.
pub open spec fn delta_limit() -> int {
    9223372036854775
}

/// The timestamps of chrono's calendar: from the first second of January 1,
/// 262144 BCE (`NaiveDate::MIN`) to the last second of December 31,
/// 262142 CE (`NaiveDate::MAX`).
pub open spec fn in_calendar(t: int) -> bool {
    -8_334_601_315_200 <= t <= 8_210_266_876_799
}

/// The moments that the store keeps as an expiry: those of a signed 32-bit
/// number. A moment at or before 1970 is kept as it is, and then reads like
/// the marks below it (`0` read once, `-1` never, anything under `0` never
/// swept), as the stored number has always read.
pub open spec fn storable_moment(t: int) -> bool {
    i32::MIN <= t <= i32::MAX
}

/// The current time, in whole seconds since 1970 (UTC), from
/// `chrono::Utc::now` and `DateTime::timestamp`.
///
/// Claimed: the value lies in chrono's calendar (`Utc::now` builds it with
/// `DateTime::from_timestamp`, which answers only inside the calendar).
/// Which moment it is, is the time of the call.
#[verifier::external_body]
pub(crate) fn now_timestamp() -> (t: i64)
    ensures
        in_calendar(t as int),
{
    chrono::Utc::now().timestamp()
}

/// `timestamp + seconds`, computed by chrono: `TimeDelta::try_seconds`,
/// `DateTime::from_timestamp`, `DateTime::checked_add_signed` and
/// `DateTime::timestamp`.
///
/// Claimed: there is an answer exactly where the delay lies in
/// `TimeDelta`'s range (`i64::MAX / 1000` seconds either way) and both
/// moments lie in the calendar; and then it is the sum.
#[verifier::external_body]
fn add_seconds(timestamp: i64, seconds: i64) -> (r: Option<i64>)
    ensures
        r is Some <==> (-delta_limit() <= seconds <= delta_limit() && in_calendar(timestamp as int)
            && in_calendar(timestamp + seconds)),
        r matches Some(t) ==> t == timestamp + seconds,
{
    let delta = chrono::TimeDelta::try_seconds(seconds)?;
    let start = chrono::DateTime::from_timestamp(timestamp, 0)?;
    start.checked_add_signed(delta).map(|t| t.timestamp())
}

/// The number stored for an expiry, seen from `now`: `-1` for never, `0`
/// for read once, and for a duration the moment it runs out, `now + d`.
/// `None` where chrono cannot reach that moment (the delay is beyond a
/// `TimeDelta`, or a moment beyond the calendar) or the store cannot keep it
/// (beyond 32 bits).
pub open spec fn stamp_of(expiry: Expiry, now: i64) -> Option<i32> {
    match expiry {
        Expiry::Never => Some(-1i32),
        Expiry::ReadOnce => Some(0i32),
        Expiry::After(d) => if -delta_limit() <= d <= delta_limit() && in_calendar(now as int)
            && storable_moment(now + d) {
            Some((now + d) as i32)
        } else {
            None
        },
    }
}

/// Computes [`stamp_of`]. For a duration, a stamp is `now + d` itself; it
/// comes wherever the delay fits a `TimeDelta`, `now` lies in the calendar
/// and `now + d` is storable.
pub fn expiry_timestamp(expiry: Expiry, now: i64) -> (r: Option<i32>)
    ensures
        r == stamp_of(expiry, now),
        expiry matches Expiry::After(d) ==> (r matches Some(t) ==> t == now + d && storable_moment(
            t as int,
        )),
        expiry matches Expiry::After(d) ==> (r is Some <==> (-delta_limit() <= d <= delta_limit()
            && in_calendar(now as int) && storable_moment(now + d))),
{
    match expiry {
        Expiry::Never => Some(-1),
        Expiry::ReadOnce => Some(0),
        Expiry::After(d) => match add_seconds(now, d) {
            Some(t) => if i32::MIN as i64 <= t && t <= i32::MAX as i64 {
                Some(t as i32)
            } else {
                None
            },
            None => None,
        },
    }
}

/// Whether a paste whose stored expiry is `expiry` has run out at `now`:
/// only moments after 1970 run out; `-1` (never), `0` (read once) and any
/// other number under `0` do not.
pub open spec fn expired(expiry: int, now: int) -> bool {
    0 < expiry < now
}

/// Computes [`expired`]; the store's periodic sweep deletes the pastes for
/// which it holds.
pub fn is_expired(expiry: i64, now: i64) -> (b: bool)
    ensures
        b == expired(expiry as int, now as int),
{
    expiry < now && expiry > 0
}

/// The identifiers of the rows `(identifier, stored expiry)` that have run
/// out at `now`, in the order of the rows.
pub open spec fn expired_ids(rows: Seq<(String, i64)>, now: int) -> Seq<Seq<char>>
    decreases rows.len(),
{
    if rows.len() == 0 {
        Seq::empty()
    } else {
        let init = expired_ids(rows.drop_last(), now);
        if expired(rows.last().1 as int, now) {
            init.push(rows.last().0@)
        } else {
            init
        }
    }
}

/// The characters of each string of `v`.
pub open spec fn string_views(v: Seq<String>) -> Seq<Seq<char>> {
    v.map_values(|s: String| s@)
}

/// The rows that the sweep deletes at `now`.
pub fn sweep_at(rows: &Vec<(String, i64)>, now: i64) -> (ids: Vec<String>)
    ensures
        string_views(ids@) == expired_ids(rows@, now as int),
{
    let mut ids: Vec<String> = Vec::new();
    let mut i: usize = 0;
    while i < rows.len()
        invariant
            i <= rows@.len(),
            string_views(ids@) =~= expired_ids(rows@.take(i as int), now as int),
        decreases rows@.len() - i,
    {
        assert(rows@.take(i + 1).drop_last() =~= rows@.take(i as int));
        assert(rows@.take(i + 1).last() == rows@[i as int]);
        let ghost before = string_views(ids@);
        if is_expired(rows[i].1, now) {
            let id = rows[i].0.clone();
            ids.push(id);
            assert(string_views(ids@) =~= before.push(rows@[i as int].0@));
        }
        i = i + 1;
    }
    assert(rows@.take(rows@.len() as int) =~= rows@);
    ids
}

/// The rows that the sweep deletes now: those that have run out at the
/// moment of the call, whichever moment it was.
pub fn sweep(rows: &Vec<(String, i64)>) -> (ids: Vec<String>)
    ensures
        exists|now: i64| in_calendar(now as int) && string_views(ids@) == #[trigger] expired_ids(rows@, now as int),
{
    let now = now_timestamp();
    sweep_at(rows, now)
}

/// The sweep never takes a paste that never expires or one that goes when
/// read; it takes a paste stamped with a moment exactly once that moment
/// has passed.
pub proof fn lemma_sweep(stamp: int, now: int)
    ensures
        !expired(-1, now),
        !expired(0, now),
        stamp > 0 ==> (expired(stamp, now) <==> now > stamp),
{
}

/// A paste stamped `d > 0` seconds after `now` (the stamp that
/// [`expiry_timestamp`] gives) is not swept at `now`, nor at any moment up
/// to its stamp, and is swept after it.
pub proof fn lemma_duration_outlives_creation(now: i64, d: i64, stamp: i32, later: int)
    requires
        stamp == now + d,
        0 < d,
        0 <= now,
    ensures
        !expired(stamp as int, now as int),
        later <= now + d ==> !expired(stamp as int, later),
        later > now + d ==> expired(stamp as int, later),
{
}

/// Whether a paste with the stored expiry `expiry` goes when first read.
pub fn is_read_once(expiry: i32) -> (b: bool)
    ensures
        b == (expiry == 0),
{
    expiry == 0
}

} // verus!
