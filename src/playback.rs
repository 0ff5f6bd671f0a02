use vstd::prelude::*;
use crate::params::MICRO;
use crate::voice::duration_elapsed;

verus! {

/// A voice being rendered: its signal generator `unit`; how long it takes to
/// reach its sustain level (`onset_us`, attack plus decay) and to fall silent
/// after its release signal (`release_us`), both in microseconds; the frames
/// rendered since it started; and the frames rendered since its release
/// signal, once that signal has come.
pub struct Playing<U> {
    pub id: u64,
    pub unit: U,
    pub onset_us: u64,
    pub release_us: u64,
    pub started_for: u64,
    pub released_for: Option<u64>,
}

/// `frames` at `sample_rate` frames per second last at least `duration_us` microseconds.
pub open spec fn lasts(frames: u64, sample_rate: u32, duration_us: u64) -> bool {
    frames as int * MICRO as int >= duration_us as int * sample_rate as int
}

/// The envelope of `p` is over: its release signal has come, its release
/// time has passed since that signal, and its attack and decay have passed
/// since it started. A voice released during its attack thus still waits
/// for the end of its attack and decay.
pub open spec fn is_done<U>(p: Playing<U>, sample_rate: u32) -> bool {
    match p.released_for {
        Some(n) => lasts(n, sample_rate, p.release_us) && lasts(p.started_for, sample_rate, p.onset_us),
        None => false,
    }
}

/// `p` after the release signal for voice `id`: its release clock starts,
/// unless it is already running.
pub open spec fn signalled<U>(p: Playing<U>, id: u64) -> Playing<U> {
    if p.id == id && p.released_for is None {
        Playing { released_for: Some(0), ..p }
    } else {
        p
    }
}

/// `n + frames`, held at the largest count.
pub open spec fn counted(n: u64, frames: u64) -> u64 {
    if n + frames > u64::MAX {
        u64::MAX
    } else {
        (n + frames) as u64
    }
}

/// `p` after `frames` more frames were rendered.
pub open spec fn advanced<U>(p: Playing<U>, frames: u64) -> Playing<U> {
    Playing {
        started_for: counted(p.started_for, frames),
        released_for: match p.released_for {
            Some(n) => Some(counted(n, frames)),
            None => None,
        },
        ..p
    }
}

/// `after` is `s` without its entry `i`, which is `p`: the first voice of `s`
/// whose envelope is over.
pub open spec fn taken_at<U>(
    s: Seq<Playing<U>>,
    after: Seq<Playing<U>>,
    p: Playing<U>,
    i: int,
    sample_rate: u32,
) -> bool {
    &&& 0 <= i < s.len()
    &&& s[i] == p
    &&& is_done(p, sample_rate)
    &&& forall|j: int| 0 <= j < i ==> !is_done(#[trigger] s[j], sample_rate)
    &&& after == s.remove(i)
}

/// A voice leaves the table only once its envelope is over: after its
/// release signal, its release time since that signal, and its attack and
/// decay since its start.
pub proof fn lemma_retired_only_after_release<U>(p: Playing<U>, sample_rate: u32)
    requires
        is_done(p, sample_rate),
    ensures
        p.released_for is Some,
        lasts(p.released_for->0, sample_rate, p.release_us),
        lasts(p.started_for, sample_rate, p.onset_us),
{
}

/// The table of voices the audio callback renders. It is polled once per
/// buffer to hand out, one at a time, the voices whose envelope is over. No
/// call allocates once the table has room for every voice it will hold.
pub struct PlayTable<U> {
    voices: Vec<Playing<U>>,
}

impl<U> View for PlayTable<U> {
    type V = Seq<Playing<U>>;

    closed spec fn view(&self) -> Seq<Playing<U>> {
        self.voices@
    }
}

impl<U> PlayTable<U> {
    /// An empty table with room for `capacity` voices.
    pub fn with_capacity(capacity: usize) -> (r: PlayTable<U>)
        ensures
            r@ == Seq::<Playing<U>>::empty(),
    {
        PlayTable { voices: Vec::with_capacity(capacity) }
    }

    pub fn len(&self) -> (r: usize)
        ensures
            r == self@.len(),
    {
        self.voices.len()
    }

    /// Starts rendering a voice; its release clock is not running yet.
    pub fn start(&mut self, id: u64, unit: U, onset_us: u64, release_us: u64)
        ensures
            final(self)@ == old(self)@.push(
                (Playing { id, unit, onset_us, release_us, started_for: 0, released_for: None }),
            ),
    {
        self.voices.push(Playing { id, unit, onset_us, release_us, started_for: 0, released_for: None });
    }

    /// Starts the release clock of voice `id`. Returns whether the table holds
    /// that voice with its clock not yet running.
    pub fn release(&mut self, id: u64) -> (started: bool)
        ensures
            final(self)@ == old(self)@.map_values(|p: Playing<U>| signalled(p, id)),
            started == exists|i: int|
                0 <= i < old(self)@.len() && (#[trigger] old(self)@[i]).id == id
                    && old(self)@[i].released_for is None,
    {
        let ghost start = self@;
        let mut started = false;
        let mut i: usize = 0;
        while i < self.voices.len()
            invariant
                self@.len() == start.len(),
                i <= self@.len(),
                forall|j: int| 0 <= j < i ==> #[trigger] self@[j] == signalled(start[j], id),
                forall|j: int| i <= j < self@.len() ==> #[trigger] self@[j] == start[j],
                started == exists|j: int|
                    0 <= j < i && (#[trigger] start[j]).id == id && start[j].released_for is None,
            decreases self@.len() - i,
        {
            if self.voices[i].id == id && self.voices[i].released_for.is_none() {
                self.voices[i].released_for = Some(0);
                started = true;
            }
            i = i + 1;
        }
        assert(self@ =~= start.map_values(|p: Playing<U>| signalled(p, id)));
        started
    }

    /// Counts `frames` more rendered frames on every voice's clocks.
    pub fn advance(&mut self, frames: u64)
        ensures
            final(self)@ == old(self)@.map_values(|p: Playing<U>| advanced(p, frames)),
    {
        let ghost start = self@;
        let mut i: usize = 0;
        while i < self.voices.len()
            invariant
                self@.len() == start.len(),
                i <= self@.len(),
                forall|j: int| 0 <= j < i ==> #[trigger] self@[j] == advanced(start[j], frames),
                forall|j: int| i <= j < self@.len() ==> #[trigger] self@[j] == start[j],
            decreases self@.len() - i,
        {
            let started_for = self.voices[i].started_for;
            self.voices[i].started_for = started_for.saturating_add(frames);
            match self.voices[i].released_for {
                Some(n) => {
                    self.voices[i].released_for = Some(n.saturating_add(frames));
                },
                None => {},
            }
            i = i + 1;
        }
        assert(self@ =~= start.map_values(|p: Playing<U>| advanced(p, frames)));
    }

    /// Takes out the first voice whose envelope is over, if there is one,
    /// keeping the others in order. A voice whose envelope is not over is
    /// never taken.
    pub fn take_done(&mut self, sample_rate: u32) -> (r: Option<Playing<U>>)
        ensures
            match r {
                Some(p) => exists|i: int| #[trigger] taken_at(old(self)@, final(self)@, p, i, sample_rate),
                None => final(self)@ == old(self)@ && forall|i: int|
                    0 <= i < old(self)@.len() ==> !is_done(#[trigger] old(self)@[i], sample_rate),
            },
    {
        let ghost start = self@;
        let mut i: usize = 0;
        while i < self.voices.len()
            invariant
                self@ == start,
                start == old(self)@,
                i <= self@.len(),
                forall|j: int| 0 <= j < i ==> !is_done(#[trigger] self@[j], sample_rate),
            decreases self@.len() - i,
        {
            let done = match self.voices[i].released_for {
                Some(n) => duration_elapsed(n, sample_rate, self.voices[i].release_us)
                    && duration_elapsed(self.voices[i].started_for, sample_rate, self.voices[i].onset_us),
                None => false,
            };
            if done {
                let p = self.voices.remove(i);
                let ghost k = i as int;
                assert(self@ =~= start.remove(k));
                assert(taken_at(start, self@, p, k, sample_rate));
                return Some(p);
            }
            i = i + 1;
        }
        None
    }

    /// The voices, for the audio callback to render.
    pub fn voices_mut(&mut self) -> (r: &mut [Playing<U>])
        ensures
            r@ == old(self)@,
            final(self)@ == final(r)@,
    {
        self.voices.as_mut_slice()
    }
}

} // verus!
