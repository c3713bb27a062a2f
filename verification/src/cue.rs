//! Bounded short-term-memory cue generation for one modality.
//!
//! A [`CueChannel`] keeps the last `n+1` cue values of one modality, oldest
//! first, where `n` is the configured back distance. It generates the next cue
//! with a deliberate self-repetition bias (one draw in four forces a repeat of
//! the oldest buffered value, the "lure" of the exercise) and reports whether
//! the newest value equals the value `n` steps back. Before any real cue has
//! been generated the buffer is filled with the modality's sentinel, which
//! guards against spurious matches during warm-up.

use vstd::prelude::*;

verus! {

/// A cue value of one modality: a closed finite set of real values plus a
/// distinguished sentinel that only seeds the history before any real cue
/// exists. Values are compared by equality; no ordering is meaningful.
pub trait CueValue: Sized + Copy {
    /// The sentinel value.
    spec fn sentinel_spec() -> Self;

    /// How many real (non-sentinel) values the modality has.
    spec fn count_spec() -> nat;

    /// The sentinel value, executable.
    fn sentinel() -> (r: Self)
        ensures
            r == Self::sentinel_spec(),
    ;

    /// The size of the value set, executable; every modality has at least one
    /// real value.
    fn value_count() -> (r: usize)
        ensures
            r as nat == Self::count_spec(),
            r >= 1,
    ;

    /// The real value at a given index, used to turn a uniform draw over
    /// `0..value_count()` into a uniform draw over the value set.
    fn from_index(i: usize) -> (r: Self)
        requires
            (i as nat) < Self::count_spec(),
        ensures
            r != Self::sentinel_spec(),
    ;

    /// Equality test on cue values.
    fn eq_value(&self, other: &Self) -> (r: bool)
        ensures
            r == (*self == *other),
    ;
}

/// Every slot of the buffer still holds the sentinel, as in a freshly
/// constructed channel.
pub open spec fn all_sentinel<V: CueValue>(buf: Seq<V>) -> bool {
    forall|i: int| 0 <= i < buf.len() ==> buf[i] == V::sentinel_spec()
}

/// The match signal of a buffer: the oldest value is a real one (warm-up is
/// over at this slot) and the newest value equals it. The newest value sits
/// exactly `n` steps after the oldest in a buffer of `n+1` slots.
pub open spec fn match_now<V: CueValue>(buf: Seq<V>) -> bool {
    buf[0] != V::sentinel_spec() && buf[buf.len() - 1] == buf[0]
}

/// The value a generation step pushes: the oldest buffered value when the
/// forced-repeat branch is taken and that value is real, else the drawn value.
pub open spec fn pushed_value<V: CueValue>(buf: Seq<V>, lure: bool, drawn: V) -> V {
    if lure && buf[0] != V::sentinel_spec() {
        buf[0]
    } else {
        drawn
    }
}

/// The buffer after one generation step: the oldest value is dropped from the
/// front and the pushed value appended at the back, keeping the length fixed.
pub open spec fn stepped<V: CueValue>(buf: Seq<V>, lure: bool, drawn: V) -> Seq<V> {
    buf.subrange(1, buf.len() as int).push(pushed_value(buf, lure, drawn))
}

/// The buffer reached from `start` after generating, in order, steps whose
/// pushed values are `pushed`: each step drops the front and appends the next
/// pushed value, exactly as one [`CueChannel::generate`] call reports.
pub open spec fn buffer_after<V: CueValue>(start: Seq<V>, pushed: Seq<V>) -> Seq<V>
    decreases pushed.len(),
{
    if pushed.len() == 0 || start.len() == 0 {
        start
    } else {
        buffer_after(
            start.subrange(1, start.len() as int).push(pushed[0]),
            pushed.subrange(1, pushed.len() as int),
        )
    }
}

/// Memorization and generation of cues for one modality.
pub struct CueChannel<V> {
    short_memory: Vec<V>,
}

impl<V: CueValue> View for CueChannel<V> {
    type V = Seq<V>;

    closed spec fn view(&self) -> Seq<V> {
        self.short_memory@
    }
}

impl<V: CueValue> CueChannel<V> {
    /// Structural invariant: the buffer holds back distance plus one values,
    /// and the back distance is at least one.
    pub open spec fn wf(&self) -> bool {
        self@.len() >= 2
    }

    /// A channel whose buffer holds `n+1` sentinel values. A back distance of
    /// zero would compare the newest value to itself and is rejected by
    /// configuration validation.
    pub fn with_back_distance(n: usize) -> (r: CueChannel<V>)
        requires
            1 <= n < usize::MAX,
        ensures
            r.wf(),
            r@.len() == n + 1,
            all_sentinel(r@),
    {
        let mut short_memory: Vec<V> = Vec::new();
        let mut i: usize = 0;
        while i < n + 1
            invariant
                i <= n + 1,
                n < usize::MAX,
                short_memory@.len() == i,
                all_sentinel(short_memory@),
            decreases n + 1 - i,
        {
            short_memory.push(V::sentinel());
            i = i + 1;
        }
        CueChannel { short_memory }
    }

    /// The configured back distance: buffer length minus one.
    pub fn back_distance(&self) -> (r: usize)
        requires
            self.wf(),
        ensures
            r as int == self@.len() - 1,
    {
        self.short_memory.len() - 1
    }

    /// Whether the newest value equals the value a back distance earlier. The
    /// sentinel guard keeps this false until `n+1` real cues exist.
    pub fn is_match(&self) -> (r: bool)
        requires
            self.wf(),
        ensures
            r == match_now(self@),
    {
        let oldest = self.short_memory[0];
        let newest = self.short_memory[self.short_memory.len() - 1];
        let s = V::sentinel();
        !oldest.eq_value(&s) && newest.eq_value(&oldest)
    }

    /// One deterministic generation step from pre-drawn randomness: whether
    /// the forced-repeat branch is taken, and the value drawn uniformly from
    /// the value set. Returns the freshly pushed value, the new current cue.
    pub fn generate_from(&mut self, lure: bool, drawn: V) -> (r: V)
        requires
            old(self).wf(),
            drawn != V::sentinel_spec(),
        ensures
            final(self).wf(),
            final(self)@ == stepped(old(self)@, lure, drawn),
            r == pushed_value(old(self)@, lure, drawn),
            r != V::sentinel_spec(),
    {
        let oldest = self.short_memory[0];
        let s = V::sentinel();
        let cue = if lure && !oldest.eq_value(&s) {
            oldest
        } else {
            drawn
        };
        self.short_memory.push(cue);
        let _ = self.short_memory.remove(0);
        proof {
            assert(self@ =~= stepped(old(self)@, lure, drawn));
        }
        cue
    }

    /// Draw a new cue and push it: one draw in four takes the forced-repeat
    /// branch (the lure rate of the exercise), and the candidate value is
    /// drawn uniformly from the value set. Returns the new current cue; the
    /// buffer keeps its length, and the pushed value is never the sentinel.
    pub fn generate(&mut self) -> (r: V)
        requires
            old(self).wf(),
        ensures
            final(self).wf(),
            final(self)@.len() == old(self)@.len(),
            final(self)@ == old(self)@.subrange(1, old(self)@.len() as int).push(r),
            r != V::sentinel_spec(),
    {
        let lure = crate::rng::random_below(4) == 0;
        let idx = crate::rng::random_below(V::value_count());
        let drawn = V::from_index(idx);
        self.generate_from(lure, drawn)
    }
}

/// A freshly constructed channel reports no match, whatever its back
/// distance: the oldest slot still holds the sentinel.
pub proof fn lemma_fresh_channel_no_match<V: CueValue>(buf: Seq<V>)
    requires
        buf.len() >= 1,
        all_sentinel(buf),
    ensures
        !match_now(buf),
{
    assert(buf[0] == V::sentinel_spec());
}

/// Generating a full buffer of values replaces the buffer with exactly those
/// values, whatever the buffer held before.
proof fn lemma_buffer_after_full<V: CueValue>(start: Seq<V>, pushed: Seq<V>)
    requires
        pushed.len() == start.len(),
    ensures
        buffer_after(start, pushed) =~= pushed,
    decreases pushed.len(),
{
    if pushed.len() > 0 {
        let start2 = start.subrange(1, start.len() as int).push(pushed[0]);
        let pushed2 = pushed.subrange(1, pushed.len() as int);
        lemma_buffer_after_suffix(start2, pushed2);
    }
}

/// Generating `k` values into a buffer of `n+1` slots leaves the last `n+1`
/// entries of "old buffer, then the generated values" in the buffer; with
/// `k <= n+1` that is: the old buffer's last `n+1-k` entries, then all `k`
/// generated values.
proof fn lemma_buffer_after_suffix<V: CueValue>(start: Seq<V>, pushed: Seq<V>)
    requires
        pushed.len() <= start.len(),
    ensures
        buffer_after(start, pushed) =~= start.subrange(pushed.len() as int, start.len() as int)
            + pushed,
    decreases pushed.len(),
{
    if pushed.len() > 0 {
        let start2 = start.subrange(1, start.len() as int).push(pushed[0]);
        let pushed2 = pushed.subrange(1, pushed.len() as int);
        lemma_buffer_after_suffix(start2, pushed2);
        assert(start2.subrange(pushed2.len() as int, start2.len() as int) + pushed2 =~= start
            .subrange(pushed.len() as int, start.len() as int) + pushed);
    }
}

/// After generating exactly `n+1` values into a fresh channel of back
/// distance `n`, the match signal reflects strict equality between the first
/// and the last generated values, independent of the intermediate ones.
pub proof fn lemma_warmup_match<V: CueValue>(start: Seq<V>, pushed: Seq<V>)
    requires
        start.len() >= 2,
        all_sentinel(start),
        pushed.len() == start.len(),
        forall|i: int| 0 <= i < pushed.len() ==> pushed[i] != V::sentinel_spec(),
    ensures
        buffer_after(start, pushed) == pushed,
        match_now(buffer_after(start, pushed)) == (pushed[pushed.len() - 1] == pushed[0]),
{
    lemma_buffer_after_full(start, pushed);
    assert(pushed[0] != V::sentinel_spec());
}

/// Taking the forced-repeat branch on a warmed-up buffer always yields the
/// then-oldest buffered value, whatever value was drawn beside it.
pub proof fn lemma_forced_repeat_value<V: CueValue>(buf: Seq<V>, drawn: V)
    requires
        buf.len() >= 2,
        buf[0] != V::sentinel_spec(),
    ensures
        pushed_value(buf, true, drawn) == buf[0],
{
}

/// When on top of that the two oldest slots agree, the forced repeat makes
/// the following match signal true: the repeated value lands at the back
/// while its equal moves to the front. (With unequal oldest slots the forced
/// value is one step too old to match, and the signal stays false.)
pub proof fn lemma_forced_repeat_match<V: CueValue>(buf: Seq<V>, drawn: V)
    requires
        buf.len() >= 2,
        buf[0] != V::sentinel_spec(),
        buf[1] == buf[0],
    ensures
        match_now(stepped(buf, true, drawn)),
{
    let after = stepped(buf, true, drawn);
    assert(after[0] == buf[1]);
    assert(after[after.len() - 1] == buf[0]);
}

} // verus!
