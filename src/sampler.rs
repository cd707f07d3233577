//! The sampler: counts bytes and, once a second has passed since the last
//! report, gives one line with the rate.
use vstd::prelude::*;

use crate::unit::{amount_text, auto_unit, Amount, Unit};

verus! {

/// Length of a sampling window, in milliseconds.
pub const WINDOW_MS: i64 = 1000;

/// How rates are shown: always in one unit, or in the unit that suits each count.
#[derive(PartialEq, Eq, Structural, Debug, Clone, Copy)]
pub enum SelectedUnit {
    Unit(Unit),
    Auto,
}

/// The selection that a unit flag names: `b`, `k`, `m`, `g` or `t` for a fixed
/// unit; no flag, or any other text, for automatic selection.
pub open spec fn flag_selection(flag: Option<Seq<char>>) -> SelectedUnit {
    match flag {
        Some(f) => if f == seq!['b'] {
            SelectedUnit::Unit(Unit::Byte)
        } else if f == seq!['k'] {
            SelectedUnit::Unit(Unit::Kilo)
        } else if f == seq!['m'] {
            SelectedUnit::Unit(Unit::Mega)
        } else if f == seq!['g'] {
            SelectedUnit::Unit(Unit::Giga)
        } else if f == seq!['t'] {
            SelectedUnit::Unit(Unit::Tera)
        } else {
            SelectedUnit::Auto
        },
        None => SelectedUnit::Auto,
    }
}

impl SelectedUnit {
    /// The selection that a unit flag names.
    pub fn from_flag(flag: Option<&str>) -> (r: SelectedUnit)
        ensures
            r == flag_selection(
                match flag {
                    Some(f) => Some(f@),
                    None => None,
                },
            ),
    {
        match flag {
            Some(f) => {
                if f.unicode_len() != 1 {
                    return SelectedUnit::Auto;
                }
                let c = f.get_char(0);
                proof {
                    if c == 'b' || c == 'k' || c == 'm' || c == 'g' || c == 't' {
                        assert(f@ =~= seq![c]);
                    }
                }
                match c {
                    'b' => SelectedUnit::Unit(Unit::Byte),
                    'k' => SelectedUnit::Unit(Unit::Kilo),
                    'm' => SelectedUnit::Unit(Unit::Mega),
                    'g' => SelectedUnit::Unit(Unit::Giga),
                    't' => SelectedUnit::Unit(Unit::Tera),
                    _ => SelectedUnit::Auto,
                }
            },
            None => SelectedUnit::Auto,
        }
    }

    /// The unit used to show `b` bytes.
    pub open spec fn unit_for(self, b: nat) -> Unit {
        match self {
            SelectedUnit::Unit(u) => u,
            SelectedUnit::Auto => auto_unit(b),
        }
    }

    /// `bytes` as an amount in the selected unit.
    pub fn amount(&self, bytes: u64) -> (r: Amount)
        ensures
            r.bytes == bytes,
            r.unit == self.unit_for(bytes as nat),
    {
        match self {
            SelectedUnit::Unit(u) => Amount::new(bytes, *u),
            SelectedUnit::Auto => Amount::auto_detect(bytes),
        }
    }
}

/// The line that reports `b` bytes in one second: `195.4 KiB/s` and a newline.
pub open spec fn rate_text(b: nat, selection: SelectedUnit) -> Seq<char> {
    amount_text(b, selection.unit_for(b)) + seq!['/', 's', '\n']
}

/// The line that reports `bytes` bytes in one second.
pub fn rate_line(bytes: u64, selection: &SelectedUnit) -> (r: String)
    ensures
        r@ == rate_text(bytes as nat, *selection),
{
    let mut s = selection.amount(bytes).to_string();
    s.append("/s\n");
    proof {
        reveal_strlit("/s\n");
        assert(s@ =~= rate_text(bytes as nat, *selection));
    }
    s
}

/// The text of a line, if there is one.
pub open spec fn line_view(line: Option<String>) -> Option<Seq<char>> {
    match line {
        Some(s) => Some(s@),
        None => None,
    }
}

/// Relies on chrono's `From<SystemTime> for DateTime<Utc>` and
/// `DateTime::timestamp_millis`: the system time now, in milliseconds since the
/// Unix epoch (negative before it). Nothing is promised of its value. chrono
/// panics only for a time outside the years it can represent.
#[verifier::external_body]
fn clock_ms() -> (r: i64) {
    chrono::DateTime::<chrono::Utc>::from(std::time::SystemTime::now()).timestamp_millis()
}

/// The bytes counted since the last report, and when that report was made.
pub struct Sampler {
    pub selection: SelectedUnit,
    pub count: u64,
    pub last_ms: i64,
}

impl Sampler {
    /// At `now_ms` a full window has passed since the last report.
    pub open spec fn window_elapsed(self, now_ms: i64) -> bool {
        now_ms - self.last_ms >= WINDOW_MS
    }

    /// The state after `n` more bytes were counted.
    pub open spec fn recorded(self, n: nat) -> Sampler {
        Sampler { count: (self.count + n) as u64, ..self }
    }

    /// The state after a check at `now_ms`.
    pub open spec fn polled(self, now_ms: i64) -> Sampler {
        if self.window_elapsed(now_ms) {
            Sampler { count: 0, last_ms: now_ms, ..self }
        } else {
            self
        }
    }

    /// The line that a check at `now_ms` gives.
    pub open spec fn report(self, now_ms: i64) -> Option<Seq<char>> {
        if self.window_elapsed(now_ms) {
            Some(rate_text(self.count as nat, self.selection))
        } else {
            None
        }
    }

    /// A sampler with nothing counted, whose window opens at `now_ms`.
    pub fn new(selection: SelectedUnit, now_ms: i64) -> (r: Sampler)
        ensures
            r.selection == selection,
            r.count == 0,
            r.last_ms == now_ms,
    {
        Sampler { selection, count: 0, last_ms: now_ms }
    }

    /// A sampler with nothing counted, whose window opens now.
    pub fn start(selection: SelectedUnit) -> (r: Sampler)
        ensures
            r.selection == selection,
            r.count == 0,
    {
        Sampler::new(selection, clock_ms())
    }

    /// Counts `n` more bytes.
    pub fn record(&mut self, n: u64)
        requires
            old(self).count + n <= u64::MAX,
        ensures
            *final(self) == old(self).recorded(n as nat),
    {
        self.count = self.count + n;
    }

    /// Checks the window at `now_ms`: once a full window has passed, gives the
    /// line for the bytes counted, sets the count to 0 and opens a new window
    /// at `now_ms`; before that, gives nothing and changes nothing.
    pub fn poll_at(&mut self, now_ms: i64) -> (r: Option<String>)
        ensures
            *final(self) == old(self).polled(now_ms),
            line_view(r) == old(self).report(now_ms),
    {
        let elapsed: i128 = now_ms as i128 - self.last_ms as i128;
        if elapsed >= WINDOW_MS as i128 {
            let line = rate_line(self.count, &self.selection);
            self.count = 0;
            self.last_ms = now_ms;
            Some(line)
        } else {
            None
        }
    }

    /// Checks the window at the time now, as `poll_at` does.
    pub fn poll(&mut self) -> (r: Option<String>)
        ensures
            exists|t: i64|
                *final(self) == old(self).polled(t) && line_view(r) == old(self).report(t),
    {
        let now = clock_ms();
        self.poll_at(now)
    }
}

/// Before a full window has passed, counting a chunk and then checking gives
/// no line and leaves the state as counting left it, so checking again any
/// number of times gives nothing either; a chunk of at least one byte raises
/// the count.
pub proof fn lemma_quiet_within_window(s: Sampler, n: nat, t: i64)
    requires
        s.count + n <= u64::MAX,
        t - s.last_ms < WINDOW_MS,
    ensures
        s.recorded(n).report(t) == None::<Seq<char>>,
        s.recorded(n).polled(t) == s.recorded(n),
        s.recorded(n).last_ms == s.last_ms,
        s.recorded(n).count == s.count + n,
        n > 0 ==> s.recorded(n).count > s.count,
{
}

/// The sum of a sequence of chunk lengths.
pub open spec fn total(chunks: Seq<nat>) -> nat
    decreases chunks.len(),
{
    if chunks.len() == 0 {
        0
    } else {
        chunks[0] + total(chunks.drop_first())
    }
}

/// The state after each chunk of `chunks` is counted and then checked at the
/// time at the same position of `times`.
pub open spec fn fed(s: Sampler, chunks: Seq<nat>, times: Seq<i64>) -> Sampler
    decreases chunks.len(),
{
    if chunks.len() == 0 || times.len() == 0 {
        s
    } else {
        fed(s.recorded(chunks[0]).polled(times[0]), chunks.drop_first(), times.drop_first())
    }
}

/// The lines that the checks of `fed` give, one entry per check.
pub open spec fn fed_reports(s: Sampler, chunks: Seq<nat>, times: Seq<i64>) -> Seq<
    Option<Seq<char>>,
>
    decreases chunks.len(),
{
    if chunks.len() == 0 || times.len() == 0 {
        seq![]
    } else {
        seq![s.recorded(chunks[0]).report(times[0])] + fed_reports(
            s.recorded(chunks[0]).polled(times[0]),
            chunks.drop_first(),
            times.drop_first(),
        )
    }
}

/// Counting any number of chunks, each followed by a check, all before a full
/// window has passed since the last report, gives no line, keeps the window
/// open, and leaves the count raised by exactly the bytes of the chunks.
pub proof fn lemma_quiet_run(s: Sampler, chunks: Seq<nat>, times: Seq<i64>)
    requires
        chunks.len() == times.len(),
        s.count + total(chunks) <= u64::MAX,
        forall|i: int| 0 <= i < times.len() ==> times[i] - s.last_ms < WINDOW_MS,
    ensures
        fed(s, chunks, times).count == s.count + total(chunks),
        fed(s, chunks, times).last_ms == s.last_ms,
        fed(s, chunks, times).selection == s.selection,
        fed_reports(s, chunks, times).len() == chunks.len(),
        forall|i: int|
            0 <= i < chunks.len() ==> fed_reports(s, chunks, times)[i] == None::<Seq<char>>,
    decreases chunks.len(),
{
    if chunks.len() > 0 {
        let next = s.recorded(chunks[0]).polled(times[0]);
        lemma_quiet_within_window(s, chunks[0], times[0]);
        assert forall|i: int| 0 <= i < times.drop_first().len() implies times.drop_first()[i]
            - next.last_ms < WINDOW_MS by {
            assert(times.drop_first()[i] == times[i + 1]);
        }
        lemma_quiet_run(next, chunks.drop_first(), times.drop_first());
        let rest = fed_reports(next, chunks.drop_first(), times.drop_first());
        assert forall|i: int| 0 <= i < chunks.len() implies fed_reports(s, chunks, times)[i]
            == None::<Seq<char>> by {
            if i > 0 {
                assert(fed_reports(s, chunks, times)[i] == rest[i - 1]);
            }
        }
    }
}

/// Once a full window has passed, a check gives exactly one line, for the
/// bytes counted, and then the count is 0 and a new window opens at the time
/// of that check: a further check before it has passed gives nothing.
pub proof fn lemma_report_on_crossing(s: Sampler, t: i64, later: i64)
    requires
        s.window_elapsed(t),
        later - t < WINDOW_MS,
    ensures
        s.report(t) == Some(rate_text(s.count as nat, s.selection)),
        s.polled(t).count == 0,
        s.polled(t).last_ms == t,
        s.polled(t).selection == s.selection,
        s.polled(t).report(later) == None::<Seq<char>>,
{
}

} // verus!
