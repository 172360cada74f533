use vstd::prelude::*;
use vstd::string::StrSliceExecFns;

verus! {

/// How many times the pool is read before the entropy gate gives up.
pub const ENTROPY_POLLS: u32 = 60;

/// The pool estimate, in bits, that counts as seeded.
pub const ENTROPY_MIN_AVAIL: u32 = 256;

/// Pause between two reads of the pool, in milliseconds.
pub const ENTROPY_PAUSE_MS: u64 = 500;

/// Unicode White_Space, the set that `char::is_whitespace` tests.
pub open spec fn is_white_space(c: char) -> bool {
    let n = c as int;
    ||| 0x9 <= n <= 0xd
    ||| n == 0x20
    ||| n == 0x85
    ||| n == 0xa0
    ||| n == 0x1680
    ||| 0x2000 <= n <= 0x200a
    ||| n == 0x2028
    ||| n == 0x2029
    ||| n == 0x202f
    ||| n == 0x205f
    ||| n == 0x3000
}

/// `s` without its leading white space.
pub open spec fn trim_start(s: Seq<char>) -> Seq<char>
    decreases s.len(),
{
    if s.len() > 0 && is_white_space(s[0]) {
        trim_start(s.drop_first())
    } else {
        s
    }
}

/// `s` without its trailing white space.
pub open spec fn trim_end(s: Seq<char>) -> Seq<char>
    decreases s.len(),
{
    if s.len() > 0 && is_white_space(s.last()) {
        trim_end(s.drop_last())
    } else {
        s
    }
}

/// `s` without leading and trailing white space, as `str::trim` gives it.
pub open spec fn trim(s: Seq<char>) -> Seq<char> {
    trim_end(trim_start(s))
}

pub open spec fn is_digit(c: char) -> bool {
    0x30 <= (c as int) <= 0x39
}

/// The number that a string of decimal digits writes.
pub open spec fn decimal_value(s: Seq<char>) -> int
    decreases s.len(),
{
    if s.len() == 0 {
        0
    } else {
        decimal_value(s.drop_last()) * 10 + ((s.last() as int) - 0x30)
    }
}

pub open spec fn all_digits(s: Seq<char>) -> bool {
    forall|i: int| 0 <= i < s.len() ==> is_digit(#[trigger] s[i])
}

/// A string of one or more decimal digits whose value fits in a `u32`.
pub open spec fn parse_digits(digits: Seq<char>) -> Option<u32> {
    if digits.len() > 0 && all_digits(digits) && decimal_value(digits) <= u32::MAX {
        Some(decimal_value(digits) as u32)
    } else {
        None
    }
}

/// What `u32::from_str` gives: an optional `+` and then one or more decimal
/// digits whose value fits in a `u32`; anything else is refused.
pub open spec fn parse_u32(s: Seq<char>) -> Option<u32> {
    if s.len() > 0 && s[0] == '+' {
        parse_digits(s.drop_first())
    } else {
        parse_digits(s)
    }
}

/// The entropy estimate read from the pool: the contents, trimmed, as a `u32`.
pub open spec fn entropy_estimate(contents: Seq<char>) -> Option<u32> {
    parse_u32(trim(contents))
}

fn is_white_space_char(c: char) -> (r: bool)
    ensures
        r == is_white_space(c),
{
    let n = c as u32;
    (0x9 <= n && n <= 0xd) || n == 0x20 || n == 0x85 || n == 0xa0 || n == 0x1680 || (0x2000 <= n
        && n <= 0x200a) || n == 0x2028 || n == 0x2029 || n == 0x202f || n == 0x205f || n == 0x3000
}

pub(crate) proof fn lemma_trim_start_skip(s: Seq<char>, i: int)
    requires
        0 <= i <= s.len(),
        forall|k: int| 0 <= k < i ==> is_white_space(#[trigger] s[k]),
    ensures
        trim_start(s) == trim_start(s.subrange(i, s.len() as int)),
    decreases i,
{
    if i > 0 {
        assert(s.drop_first().subrange(i - 1, s.drop_first().len() as int) =~= s.subrange(i, s.len() as int));
        lemma_trim_start_skip(s.drop_first(), i - 1);
    } else {
        assert(s.subrange(0, s.len() as int) =~= s);
    }
}

pub(crate) proof fn lemma_trim_end_cut(s: Seq<char>, j: int)
    requires
        0 <= j <= s.len(),
        forall|k: int| j <= k < s.len() ==> is_white_space(#[trigger] s[k]),
    ensures
        trim_end(s) == trim_end(s.subrange(0, j)),
    decreases s.len() - j,
{
    if j < s.len() {
        assert(s.drop_last().subrange(0, j) =~= s.subrange(0, j));
        lemma_trim_end_cut(s.drop_last(), j);
    } else {
        assert(s.subrange(0, j) =~= s);
    }
}

/// The bounds `(start, end)` of `s` without leading and trailing white space.
pub(crate) fn trim_bounds(s: &str) -> (r: (usize, usize))
    ensures
        r.0 <= r.1 <= s@.len(),
        s@.subrange(r.0 as int, r.1 as int) == trim(s@),
{
    let n = s.unicode_len();
    let mut i: usize = 0;
    while i < n && is_white_space_char(s.get_char(i))
        invariant
            n == s@.len(),
            i <= n,
            forall|k: int| 0 <= k < i ==> is_white_space(#[trigger] s@[k]),
        decreases n - i,
    {
        i = i + 1;
    }
    let ghost rest = s@.subrange(i as int, n as int);
    proof {
        lemma_trim_start_skip(s@, i as int);
        if rest.len() > 0 {
            assert(rest[0] == s@[i as int]);
        }
    }
    let mut j: usize = n;
    while j > i && is_white_space_char(s.get_char(j - 1))
        invariant
            n == s@.len(),
            i <= j <= n,
            forall|k: int| j <= k < n ==> is_white_space(#[trigger] s@[k]),
        decreases j - i,
    {
        j = j - 1;
    }
    proof {
        let t = trim_start(s@);
        assert(t == rest);
        lemma_trim_end_cut(rest, j - i);
        assert(rest.subrange(0, j - i) =~= s@.subrange(i as int, j as int));
        let u = s@.subrange(i as int, j as int);
        assert(u.len() > 0 ==> u.last() == s@[j - 1]);
        assert(u.len() == 0 ==> trim_end(u) == u);
    }
    (i, j)
}

proof fn lemma_decimal_push(s: Seq<char>, c: char)
    ensures
        decimal_value(s.push(c)) == decimal_value(s) * 10 + ((c as int) - 0x30),
{
    assert(s.push(c).drop_last() =~= s);
}

proof fn lemma_decimal_nonneg(s: Seq<char>)
    requires
        all_digits(s),
    ensures
        decimal_value(s) >= 0,
    decreases s.len(),
{
    if s.len() > 0 {
        lemma_decimal_nonneg(s.drop_last());
    }
}

/// `u32::from_str` on the characters of `s` from `start` to `end`.
fn parse_u32_range(s: &str, start: usize, end: usize) -> (r: Option<u32>)
    requires
        start <= end <= s@.len(),
    ensures
        r == parse_u32(s@.subrange(start as int, end as int)),
{
    let ghost whole = s@.subrange(start as int, end as int);
    let mut i = start;
    if i < end && s.get_char(i) == '+' {
        i = i + 1;
    }
    let ghost digits = s@.subrange(i as int, end as int);
    proof {
        assert(whole.len() > 0 ==> whole[0] == s@[start as int]);
        if whole.len() > 0 && whole[0] == '+' {
            assert(whole.drop_first() =~= digits);
        } else {
            assert(whole =~= digits);
        }
    }
    if i == end {
        return None;
    }
    let mut value: u64 = 0;
    let mut over = false;
    let mut k = i;
    while k < end
        invariant
            i <= k <= end <= s@.len(),
            digits == s@.subrange(i as int, end as int),
            parse_u32(s@.subrange(start as int, end as int)) == parse_digits(digits),
            all_digits(s@.subrange(i as int, k as int)),
            !over ==> value == decimal_value(s@.subrange(i as int, k as int)),
            !over ==> value <= u32::MAX,
            over ==> decimal_value(s@.subrange(i as int, k as int)) > u32::MAX,
        decreases end - k,
    {
        let c = s.get_char(k);
        let d = c as u32;
        if d < 0x30 || d > 0x39 {
            assert(digits[k - i] == c);
            assert(!all_digits(digits));
            return None;
        }
        proof {
            assert(s@.subrange(i as int, k + 1) =~= s@.subrange(i as int, k as int).push(c));
            lemma_decimal_push(s@.subrange(i as int, k as int), c);
            lemma_decimal_nonneg(s@.subrange(i as int, k as int));
        }
        if !over {
            let next = value * 10 + (d as u64 - 0x30);
            if next > 0xffff_ffff {
                over = true;
            } else {
                value = next;
            }
        }
        k = k + 1;
    }
    if over {
        None
    } else {
        Some(value as u32)
    }
}

/// Parse the contents of the pool's `entropy_avail` file: trimmed of white
/// space, then as a decimal `u32`.
pub fn parse_entropy_avail(contents: &str) -> (r: Option<u32>)
    ensures
        r == entropy_estimate(contents@),
{
    let (start, end) = trim_bounds(contents);
    parse_u32_range(contents, start, end)
}

/// What the entropy gate asks the caller to do next.
#[derive(Clone, Copy, Debug, PartialEq, Eq, Structural)]
pub enum EntropyAction {
    /// Poll: report whether `/dev/hwrng` exists now, and the contents of the
    /// pool's `entropy_avail` file.
    ReadPool,
    /// Sleep for the given number of milliseconds.
    Sleep(u64),
    /// The pool is seeded with this estimate: record readiness as `1`.
    Ready(u32),
    /// The pool never became ready: record readiness as `0`, fail closed.
    NotReady,
}

#[derive(Clone, Copy, Debug, PartialEq, Eq, Structural)]
pub enum GatePhase {
    Reading,
    Pausing,
    Done,
}

/// The entropy gate as plain values: how many polls were made, what it waits
/// for and, once done, the estimate it accepted.
pub struct GateView {
    pub polls: nat,
    pub phase: GatePhase,
    pub accepted: Option<u32>,
}

/// The entropy gate: polls the pool and the hardware RNG's presence until
/// both are ready, at most sixty times.
pub struct EntropyGate {
    polls: u32,
    phase: GatePhase,
    accepted: Option<u32>,
}

impl View for EntropyGate {
    type V = GateView;

    closed spec fn view(&self) -> GateView {
        GateView { polls: self.polls as nat, phase: self.phase, accepted: self.accepted }
    }
}

/// The estimate one poll establishes, if it makes the pool count as ready:
/// the hardware RNG is present at that poll and the contents read as at least
/// 256.
pub open spec fn accepted_reading(hwrng: bool, contents: Option<Seq<char>>) -> Option<u32> {
    match contents {
        Some(c) => match entropy_estimate(c) {
            Some(avail) => if avail >= ENTROPY_MIN_AVAIL && hwrng {
                Some(avail)
            } else {
                None
            },
            None => None,
        },
        None => None,
    }
}

/// The entropy gate's states that can be reached from its start.
pub open spec fn gate_wf(g: GateView) -> bool {
    &&& g.polls <= ENTROPY_POLLS
    &&& g.phase == GatePhase::Reading ==> g.polls < ENTROPY_POLLS
    &&& g.phase != GatePhase::Done ==> g.accepted is None
    &&& g.accepted matches Some(a) ==> a >= ENTROPY_MIN_AVAIL
    &&& (g.phase == GatePhase::Done && g.accepted is None) ==> g.polls == ENTROPY_POLLS
}

/// The entropy gate at boot: no poll made yet.
pub open spec fn gate_start() -> GateView {
    GateView { polls: 0, phase: GatePhase::Reading, accepted: None }
}

/// How the entropy gate answers a poll: whether the hardware RNG is present,
/// and the pool's contents (`None`: the file could not be read). Outside a
/// poll the entropy gate is unchanged.
pub open spec fn gate_after_read(g: GateView, hwrng: bool, contents: Option<Seq<char>>) -> GateView {
    if g.phase == GatePhase::Reading {
        let polls = g.polls + 1;
        match accepted_reading(hwrng, contents) {
            Some(avail) => GateView { polls, phase: GatePhase::Done, accepted: Some(avail) },
            None => GateView { polls, phase: GatePhase::Pausing, ..g },
        }
    } else {
        g
    }
}

/// How the entropy gate answers the end of a pause. Outside a pause it is unchanged.
pub open spec fn gate_after_sleep(g: GateView) -> GateView {
    if g.phase == GatePhase::Pausing {
        if g.polls >= ENTROPY_POLLS {
            GateView { phase: GatePhase::Done, accepted: None, ..g }
        } else {
            GateView { phase: GatePhase::Reading, ..g }
        }
    } else {
        g
    }
}

/// The action an entropy gate state asks for.
pub open spec fn gate_pending(g: GateView) -> EntropyAction {
    match g.phase {
        GatePhase::Reading => EntropyAction::ReadPool,
        GatePhase::Pausing => EntropyAction::Sleep(ENTROPY_PAUSE_MS),
        GatePhase::Done => match g.accepted {
            Some(avail) => EntropyAction::Ready(avail),
            None => EntropyAction::NotReady,
        },
    }
}

impl EntropyGate {
    pub closed spec fn wf(&self) -> bool {
        gate_wf(self@)
    }

    /// The entropy gate at boot; it first asks for a poll.
    pub fn new() -> (g: EntropyGate)
        ensures
            g@ == gate_start(),
            g.wf(),
    {
        EntropyGate { polls: 0, phase: GatePhase::Reading, accepted: None }
    }

    /// The action the entropy gate asks for now.
    pub fn pending(&self) -> (a: EntropyAction)
        ensures
            a == gate_pending(self@),
    {
        match self.phase {
            GatePhase::Reading => EntropyAction::ReadPool,
            GatePhase::Pausing => EntropyAction::Sleep(ENTROPY_PAUSE_MS),
            GatePhase::Done => match self.accepted {
                Some(avail) => EntropyAction::Ready(avail),
                None => EntropyAction::NotReady,
            },
        }
    }

    /// Take what a poll found: whether `/dev/hwrng` exists now, and the
    /// contents of the pool's estimate (`None`: it could not be read).
    pub fn on_read(&mut self, hwrng: bool, contents: Option<&str>) -> (a: EntropyAction)
        requires
            old(self).wf(),
        ensures
            final(self).wf(),
            final(self)@ == gate_after_read(
                old(self)@,
                hwrng,
                match contents {
                    Some(c) => Some(c@),
                    None => None,
                },
            ),
            a == gate_pending(final(self)@),
    {
        if self.phase == GatePhase::Reading {
            self.polls = self.polls + 1;
            let estimate = match contents {
                Some(c) => parse_entropy_avail(c),
                None => None,
            };
            match estimate {
                Some(avail) => {
                    if avail >= ENTROPY_MIN_AVAIL && hwrng {
                        self.phase = GatePhase::Done;
                        self.accepted = Some(avail);
                    } else {
                        self.phase = GatePhase::Pausing;
                    }
                },
                None => {
                    self.phase = GatePhase::Pausing;
                },
            }
        }
        self.pending()
    }

    /// Take the end of a pause.
    pub fn on_slept(&mut self) -> (a: EntropyAction)
        requires
            old(self).wf(),
        ensures
            final(self).wf(),
            final(self)@ == gate_after_sleep(old(self)@),
            a == gate_pending(final(self)@),
    {
        if self.phase == GatePhase::Pausing {
            if self.polls >= ENTROPY_POLLS {
                self.phase = GatePhase::Done;
                self.accepted = None;
            } else {
                self.phase = GatePhase::Reading;
            }
        }
        self.pending()
    }
}

/// Fail closed: the entropy gate reports ready only with an estimate of at
/// least 256, only from a poll that found the hardware RNG present, and
/// reports not-ready only after all sixty polls were made.
pub proof fn law_gate_fails_closed(g: GateView, hwrng: bool, contents: Option<Seq<char>>)
    requires
        gate_wf(g),
    ensures
        gate_pending(g) matches EntropyAction::Ready(avail) ==> avail >= ENTROPY_MIN_AVAIL,
        gate_pending(g) == EntropyAction::NotReady ==> g.polls == ENTROPY_POLLS,
        (g.phase == GatePhase::Reading && gate_pending(gate_after_read(g, hwrng, contents)) is Ready)
            ==> hwrng,
{
}

/// A seeded pool is accepted at once: a poll that finds the hardware RNG
/// present and a pool estimate of at least 256 makes the entropy gate ready
/// with exactly that estimate.
pub proof fn law_seeded_poll_is_ready(g: GateView, contents: Seq<char>, avail: u32)
    requires
        gate_wf(g),
        g.phase == GatePhase::Reading,
        entropy_estimate(contents) == Some(avail),
        avail >= 256,
    ensures
        accepted_reading(true, Some(contents)) == Some(avail),
        gate_pending(gate_after_read(g, true, Some(contents))) == EntropyAction::Ready(avail),
{
}

/// A poll is accepted only for what it read: a poll the entropy gate accepts
/// found the hardware RNG present and read a pool estimate of at least 256,
/// and the estimate it is ready with is that reading.
pub proof fn law_ready_only_on_seeded_poll(g: GateView, hwrng: bool, contents: Option<Seq<char>>, avail: u32)
    requires
        gate_wf(g),
        g.phase == GatePhase::Reading,
        gate_pending(gate_after_read(g, hwrng, contents)) == EntropyAction::Ready(avail),
    ensures
        hwrng,
        avail >= 256,
        contents matches Some(c) && entropy_estimate(c) == Some(avail),
{
}

/// Bounded: every state reached by polls and pauses from the start has made
/// at most sixty polls, and a poll is only asked for while fewer were made.
pub proof fn law_gate_is_bounded(g: GateView, hwrng: bool, contents: Option<Seq<char>>)
    requires
        gate_wf(g),
    ensures
        gate_wf(gate_after_read(g, hwrng, contents)),
        gate_wf(gate_after_sleep(g)),
        gate_after_read(g, hwrng, contents).polls <= ENTROPY_POLLS,
        gate_pending(g) == EntropyAction::ReadPool ==> g.polls < ENTROPY_POLLS,
{
}

/// A poll that finds no hardware RNG never makes the entropy gate ready,
/// whatever the pool says.
pub proof fn law_no_hwrng_never_ready(g: GateView, contents: Option<Seq<char>>)
    requires
        gate_wf(g),
        g.phase == GatePhase::Reading,
    ensures
        !(gate_pending(gate_after_read(g, false, contents)) is Ready),
{
}

/// One poll of the entropy gate: a read with the given outcome (the hardware
/// RNG's presence and the pool's contents), then the pause that follows it
/// when the pool was not ready.
pub open spec fn gate_poll(g: GateView, reading: (bool, Option<Seq<char>>)) -> GateView {
    gate_after_sleep(gate_after_read(g, reading.0, reading.1))
}

/// The entropy gate after polls with the given outcomes, one after another.
pub open spec fn gate_run(g: GateView, readings: Seq<(bool, Option<Seq<char>>)>) -> GateView
    decreases readings.len(),
{
    if readings.len() == 0 {
        g
    } else {
        gate_run(gate_poll(g, readings[0]), readings.drop_first())
    }
}

/// The first poll that makes the pool count as ready.
pub open spec fn first_accepted(readings: Seq<(bool, Option<Seq<char>>)>) -> Option<u32>
    decreases readings.len(),
{
    if readings.len() == 0 {
        None
    } else {
        match accepted_reading(readings[0].0, readings[0].1) {
            Some(avail) => Some(avail),
            None => first_accepted(readings.drop_first()),
        }
    }
}

proof fn lemma_done_gate_absorbs(g: GateView, readings: Seq<(bool, Option<Seq<char>>)>)
    requires
        g.phase == GatePhase::Done,
    ensures
        gate_run(g, readings) == g,
    decreases readings.len(),
{
    if readings.len() > 0 {
        lemma_done_gate_absorbs(g, readings.drop_first());
    }
}

proof fn lemma_gate_run_from(g: GateView, readings: Seq<(bool, Option<Seq<char>>)>)
    requires
        gate_wf(g),
        g.phase == GatePhase::Reading,
        readings.len() == ENTROPY_POLLS - g.polls,
    ensures
        gate_run(g, readings).phase == GatePhase::Done,
        gate_run(g, readings).accepted == first_accepted(readings),
    decreases readings.len(),
{
    let next = gate_poll(g, readings[0]);
    let rest = readings.drop_first();
    reveal_with_fuel(first_accepted, 2);
    if next.phase == GatePhase::Done {
        lemma_done_gate_absorbs(next, rest);
        if next.accepted is None {
            assert(rest.len() == 0);
        }
    } else {
        lemma_gate_run_from(next, rest);
    }
}

/// The entropy gate polls the pool and the hardware RNG's presence: from boot,
/// after sixty polls it has finished, ready with the estimate of the first
/// poll that found the hardware RNG present and at least 256 in the pool, or
/// not ready when no poll did.
pub proof fn law_gate_decides_on_first_accepted(readings: Seq<(bool, Option<Seq<char>>)>)
    requires
        readings.len() == ENTROPY_POLLS,
    ensures
        gate_run(gate_start(), readings).phase == GatePhase::Done,
        gate_run(gate_start(), readings).accepted == first_accepted(readings),
{
    lemma_gate_run_from(gate_start(), readings);
}

} // verus!
