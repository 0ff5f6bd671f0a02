use vstd::prelude::*;
use std::collections::VecDeque;

verus! {

/// Most voices that exist at once. A note-on beyond this is not played: the
/// voices already sounding are never cut short to make room.
pub const MAX_VOICES: usize = 64;

/// Stage in the life of a voice. A voice sustains until it is told to
/// release; its envelope then decays, and once the decay is over the voice is
/// finished and may be reclaimed.
#[derive(Debug, Clone, Copy, PartialEq, Eq, Structural)]
pub enum VoiceState {
    Sustaining,
    Releasing,
    Finished,
}

/// Lifecycle record of one voice.
#[derive(Debug, Clone, Copy, PartialEq, Eq, Structural)]
pub struct VoiceEntry {
    pub id: u64,
    pub note: u8,
    pub velocity: u8,
    pub state: VoiceState,
}

/// Ids of the sustaining voices among `voices`, in the order of `voices`.
pub open spec fn sustaining_ids(voices: Seq<VoiceEntry>) -> Seq<u64>
    decreases voices.len(),
{
    if voices.len() == 0 {
        Seq::empty()
    } else {
        let rest = sustaining_ids(voices.drop_last());
        if voices.last().state == VoiceState::Sustaining {
            rest.push(voices.last().id)
        } else {
            rest
        }
    }
}

/// Ids of the finished voices among `voices`, in the order of `voices`.
pub open spec fn finished_ids(voices: Seq<VoiceEntry>) -> Seq<u64>
    decreases voices.len(),
{
    if voices.len() == 0 {
        Seq::empty()
    } else {
        let rest = finished_ids(voices.drop_last());
        if voices.last().state == VoiceState::Finished {
            rest.push(voices.last().id)
        } else {
            rest
        }
    }
}

/// The voices that are not finished, in their order.
pub open spec fn unfinished(voices: Seq<VoiceEntry>) -> Seq<VoiceEntry>
    decreases voices.len(),
{
    if voices.len() == 0 {
        Seq::empty()
    } else {
        let rest = unfinished(voices.drop_last());
        if voices.last().state == VoiceState::Finished {
            rest
        } else {
            rest.push(voices.last())
        }
    }
}

/// A voice after the release signal: a sustaining voice starts releasing,
/// any other stays as it is.
pub open spec fn released(e: VoiceEntry) -> VoiceEntry {
    if e.state == VoiceState::Sustaining {
        VoiceEntry { state: VoiceState::Releasing, ..e }
    } else {
        e
    }
}

/// A voice after its envelope reported the end of voice `id`'s release.
pub open spec fn finished_if(e: VoiceEntry, id: u64) -> VoiceEntry {
    if e.id == id && e.state == VoiceState::Releasing {
        VoiceEntry { state: VoiceState::Finished, ..e }
    } else {
        e
    }
}

/// Ids strictly increase along `voices`.
pub open spec fn ids_increasing(voices: Seq<VoiceEntry>) -> bool {
    forall|i: int, j: int| 0 <= i < j < voices.len() ==> voices[i].id < voices[j].id
}

/// Abstract content of a voice registry: the voices in order of creation,
/// the queue of voices waiting for a release signal (oldest first), and the
/// id the next voice will get.
pub struct RegistryModel {
    pub voices: Seq<VoiceEntry>,
    pub pending: Seq<u64>,
    pub next_id: u64,
}

impl RegistryModel {
    pub open spec fn empty() -> RegistryModel {
        RegistryModel { voices: Seq::empty(), pending: Seq::empty(), next_id: 0 }
    }

    /// Ids increase with creation and stay below the next id; notes and
    /// velocities are MIDI data values; the pending queue holds exactly the
    /// sustaining voices, oldest first.
    pub open spec fn wf(self) -> bool {
        &&& ids_increasing(self.voices)
        &&& forall|i: int|
            0 <= i < self.voices.len() ==> {
                &&& (#[trigger] self.voices[i]).id < self.next_id
                &&& self.voices[i].note < 128
                &&& self.voices[i].velocity < 128
            }
        &&& self.pending == sustaining_ids(self.voices)
        &&& self.voices.len() <= MAX_VOICES
    }

    /// A note-on can add a voice: an id is left and the registry is below
    /// its voice limit.
    pub open spec fn can_start(self) -> bool {
        self.next_id < u64::MAX && self.voices.len() < MAX_VOICES
    }

    pub open spec fn has_voice(self, id: u64) -> bool {
        exists|i: int| 0 <= i < self.voices.len() && (#[trigger] self.voices[i]).id == id
    }

    pub open spec fn is_releasing(self, id: u64) -> bool {
        exists|i: int|
            0 <= i < self.voices.len() && (#[trigger] self.voices[i]).id == id
                && self.voices[i].state == VoiceState::Releasing
    }

    /// A note-on adds a sustaining voice and queues it for release.
    pub open spec fn note_on(self, note: u8, velocity: u8) -> RegistryModel {
        RegistryModel {
            voices: self.voices.push(
                VoiceEntry { id: self.next_id, note, velocity, state: VoiceState::Sustaining },
            ),
            pending: self.pending.push(self.next_id),
            next_id: (self.next_id + 1) as u64,
        }
    }

    /// Every queued voice starts releasing and the queue is emptied.
    pub open spec fn release_all(self) -> RegistryModel {
        RegistryModel {
            voices: self.voices.map_values(|e: VoiceEntry| released(e)),
            pending: Seq::empty(),
            next_id: self.next_id,
        }
    }

    /// The releasing voice `id` has come to the end of its envelope.
    pub open spec fn finish(self, id: u64) -> RegistryModel {
        RegistryModel {
            voices: self.voices.map_values(|e: VoiceEntry| finished_if(e, id)),
            pending: self.pending,
            next_id: self.next_id,
        }
    }

    /// Finished voices leave the registry.
    pub open spec fn reclaim(self) -> RegistryModel {
        RegistryModel {
            voices: unfinished(self.voices),
            pending: self.pending,
            next_id: self.next_id,
        }
    }
}

/// The voices that exist, with the queue of those waiting for a release signal.
pub struct VoiceRegistry {
    voices: Vec<VoiceEntry>,
    pending: VecDeque<u64>,
    next_id: u64,
}

impl View for VoiceRegistry {
    type V = RegistryModel;

    closed spec fn view(&self) -> RegistryModel {
        RegistryModel { voices: self.voices@, pending: self.pending@, next_id: self.next_id }
    }
}

impl VoiceRegistry {
    pub fn new() -> (r: VoiceRegistry)
        ensures
            r@ == RegistryModel::empty(),
            r@.wf(),
    {
        let r = VoiceRegistry { voices: Vec::new(), pending: VecDeque::new(), next_id: 0 };
        assert(r@.voices =~= Seq::<VoiceEntry>::empty());
        r
    }

    /// Number of voices that have not been reclaimed.
    pub fn live_count(&self) -> (r: usize)
        ensures
            r == self@.voices.len(),
    {
        self.voices.len()
    }

    /// Number of voices waiting for a release signal.
    pub fn pending_len(&self) -> (r: usize)
        ensures
            r == self@.pending.len(),
    {
        self.pending.len()
    }

    /// The voices, in order of creation.
    pub fn entries(&self) -> (r: &[VoiceEntry])
        ensures
            r@ == self@.voices,
    {
        self.voices.as_slice()
    }

    /// The stage of voice `id`, if the registry holds it.
    pub fn state_of(&self, id: u64) -> (r: Option<VoiceState>)
        ensures
            r matches Some(st) ==> exists|i: int|
                0 <= i < self@.voices.len() && #[trigger] self@.voices[i].id == id
                    && self@.voices[i].state == st,
            r is None <==> !self@.has_voice(id),
    {
        let mut i: usize = 0;
        while i < self.voices.len()
            invariant
                i <= self@.voices.len(),
                forall|j: int| 0 <= j < i ==> (#[trigger] self@.voices[j]).id != id,
            decreases self@.voices.len() - i,
        {
            if self.voices[i].id == id {
                return Some(self.voices[i].state);
            }
            i = i + 1;
        }
        None
    }

    /// Adds a sustaining voice for a note-on and queues it for release. Returns
    /// its id; or `None`, with nothing changed, when the registry already
    /// holds `MAX_VOICES` voices or every id has been handed out.
    pub fn note_on(&mut self, note: u8, velocity: u8) -> (r: Option<u64>)
        requires
            old(self)@.wf(),
            note < 128,
            velocity < 128,
        ensures
            final(self)@.wf(),
            old(self)@.can_start() ==> r == Some(old(self)@.next_id) && final(self)@ == old(
                self,
            )@.note_on(note, velocity),
            !old(self)@.can_start() ==> r is None && final(self)@ == old(self)@,
    {
        if self.next_id == u64::MAX || self.voices.len() >= MAX_VOICES {
            return None;
        }
        let id = self.next_id;
        let e = VoiceEntry { id, note, velocity, state: VoiceState::Sustaining };
        proof {
            lemma_sustaining_ids_push(self@.voices, e);
        }
        self.voices.push(e);
        self.pending.push_back(id);
        self.next_id = id + 1;
        Some(id)
    }

    /// Sends the release signal to every queued voice and empties the queue.
    /// Returns the ids that were signalled, oldest first.
    pub fn release_all(&mut self) -> (signalled: Vec<u64>)
        requires
            old(self)@.wf(),
        ensures
            final(self)@.wf(),
            signalled@ == old(self)@.pending,
            final(self)@ == old(self)@.release_all(),
    {
        let ghost old_model = self@;
        let mut signalled: Vec<u64> = Vec::new();
        loop
            invariant_except_break
                signalled@ + self@.pending == old_model.pending,
            invariant
                self@.voices == old_model.voices,
                self@.next_id == old_model.next_id,
            ensures
                signalled@ == old_model.pending,
                self@.pending.len() == 0,
            decreases self@.pending.len(),
        {
            match self.pending.pop_front() {
                Some(id) => {
                    signalled.push(id);
                    assert(signalled@ + self@.pending =~= old_model.pending);
                },
                None => {
                    assert(signalled@ =~= old_model.pending);
                    break ;
                },
            }
        }
        let mut i: usize = 0;
        while i < self.voices.len()
            invariant
                self@.voices.len() == old_model.voices.len(),
                i <= self@.voices.len(),
                forall|j: int| 0 <= j < i ==> #[trigger] self@.voices[j] == released(old_model.voices[j]),
                forall|j: int| i <= j < self@.voices.len() ==> #[trigger] self@.voices[j] == old_model.voices[j],
                self@.next_id == old_model.next_id,
                self@.pending.len() == 0,
            decreases self@.voices.len() - i,
        {
            let e = self.voices[i];
            if e.state == VoiceState::Sustaining {
                self.voices.set(i, VoiceEntry { state: VoiceState::Releasing, ..e });
            }
            i = i + 1;
        }
        proof {
            let after = old_model.release_all();
            assert(self@.voices =~= after.voices);
            assert(self@.pending =~= after.pending);
            lemma_no_sustaining(after.voices);
        }
        signalled
    }

    /// Records that the envelope of voice `id` has finished its release.
    /// Only a releasing voice can finish; the call changes nothing otherwise,
    /// and returns whether it applied.
    pub fn finish(&mut self, id: u64) -> (applied: bool)
        requires
            old(self)@.wf(),
        ensures
            final(self)@.wf(),
            applied == old(self)@.is_releasing(id),
            final(self)@ == old(self)@.finish(id),
    {
        let ghost old_model = self@;
        let mut applied = false;
        let mut i: usize = 0;
        while i < self.voices.len()
            invariant
                self@.voices.len() == old_model.voices.len(),
                i <= self@.voices.len(),
                forall|j: int| 0 <= j < i ==> #[trigger] self@.voices[j] == finished_if(old_model.voices[j], id),
                forall|j: int| i <= j < self@.voices.len() ==> #[trigger] self@.voices[j] == old_model.voices[j],
                self@.next_id == old_model.next_id,
                self@.pending == old_model.pending,
                applied == exists|j: int|
                    0 <= j < i && (#[trigger] old_model.voices[j]).id == id && old_model.voices[j].state
                        == VoiceState::Releasing,
            decreases self@.voices.len() - i,
        {
            let e = self.voices[i];
            if e.id == id && e.state == VoiceState::Releasing {
                self.voices.set(i, VoiceEntry { state: VoiceState::Finished, ..e });
                applied = true;
            }
            i = i + 1;
        }
        proof {
            let after = old_model.finish(id);
            assert(self@.voices =~= after.voices);
            lemma_sustaining_ids_same(old_model.voices, after.voices);
        }
        applied
    }

    /// Removes every finished voice. Returns their ids, in order of creation.
    pub fn reclaim(&mut self) -> (reclaimed: Vec<u64>)
        requires
            old(self)@.wf(),
        ensures
            final(self)@.wf(),
            reclaimed@ == finished_ids(old(self)@.voices),
            final(self)@ == old(self)@.reclaim(),
    {
        let ghost old_model = self@;
        let mut kept: Vec<VoiceEntry> = Vec::new();
        let mut reclaimed: Vec<u64> = Vec::new();
        let mut i: usize = 0;
        while i < self.voices.len()
            invariant
                self@ == old_model,
                i <= self@.voices.len(),
                kept@ == unfinished(old_model.voices.take(i as int)),
                reclaimed@ == finished_ids(old_model.voices.take(i as int)),
            decreases self@.voices.len() - i,
        {
            let e = self.voices[i];
            proof {
                assert(old_model.voices.take(i + 1) =~= old_model.voices.take(i as int).push(e));
                lemma_unfinished_push(old_model.voices.take(i as int), e);
            }
            if e.state == VoiceState::Finished {
                reclaimed.push(e.id);
            } else {
                kept.push(e);
            }
            i = i + 1;
        }
        proof {
            assert(old_model.voices.take(i as int) =~= old_model.voices);
            lemma_unfinished(old_model.voices);
        }
        self.voices = kept;
        proof {
            let u = unfinished(old_model.voices);
            assert forall|k: int| 0 <= k < u.len() implies (#[trigger] u[k]).id < old_model.next_id
                && u[k].note < 128 && u[k].velocity < 128 by {
                let i = choose|i: int| 0 <= i < old_model.voices.len() && u[k] == old_model.voices[i];
            }
        }
        reclaimed
    }
}

proof fn lemma_sustaining_ids_push(voices: Seq<VoiceEntry>, e: VoiceEntry)
    ensures
        sustaining_ids(voices.push(e)) == if e.state == VoiceState::Sustaining {
            sustaining_ids(voices).push(e.id)
        } else {
            sustaining_ids(voices)
        },
{
    assert(voices.push(e).drop_last() =~= voices);
}

proof fn lemma_unfinished_push(voices: Seq<VoiceEntry>, e: VoiceEntry)
    ensures
        unfinished(voices.push(e)) == if e.state == VoiceState::Finished {
            unfinished(voices)
        } else {
            unfinished(voices).push(e)
        },
        finished_ids(voices.push(e)) == if e.state == VoiceState::Finished {
            finished_ids(voices).push(e.id)
        } else {
            finished_ids(voices)
        },
{
    assert(voices.push(e).drop_last() =~= voices);
}

/// Once no voice sustains, no id is queued.
proof fn lemma_no_sustaining(voices: Seq<VoiceEntry>)
    requires
        forall|i: int| 0 <= i < voices.len() ==> (#[trigger] voices[i]).state != VoiceState::Sustaining,
    ensures
        sustaining_ids(voices) == Seq::<u64>::empty(),
    decreases voices.len(),
{
    if voices.len() > 0 {
        lemma_no_sustaining(voices.drop_last());
    }
}

/// Changes that keep each voice's id and whether it sustains keep the queue.
proof fn lemma_sustaining_ids_same(a: Seq<VoiceEntry>, b: Seq<VoiceEntry>)
    requires
        a.len() == b.len(),
        forall|i: int|
            0 <= i < a.len() ==> (#[trigger] a[i]).id == b[i].id && (a[i].state
                == VoiceState::Sustaining <==> b[i].state == VoiceState::Sustaining),
    ensures
        sustaining_ids(a) == sustaining_ids(b),
    decreases a.len(),
{
    if a.len() > 0 {
        lemma_sustaining_ids_same(a.drop_last(), b.drop_last());
    }
}

/// Dropping finished voices keeps the queue, and keeps ids increasing and bounded.
proof fn lemma_unfinished(voices: Seq<VoiceEntry>)
    ensures
        sustaining_ids(unfinished(voices)) == sustaining_ids(voices),
        unfinished(voices).len() <= voices.len(),
        ids_increasing(voices) ==> ids_increasing(unfinished(voices)),
        forall|k: int|
            0 <= k < unfinished(voices).len() ==> exists|i: int|
                0 <= i < voices.len() && #[trigger] unfinished(voices)[k] == voices[i],
    decreases voices.len(),
{
    if voices.len() > 0 {
        let rest = voices.drop_last();
        lemma_unfinished(rest);
        let u = unfinished(voices);
        if voices.last().state != VoiceState::Finished {
            lemma_sustaining_ids_push(unfinished(rest), voices.last());
            if ids_increasing(voices) {
                assert(ids_increasing(rest));
                assert forall|k1: int, k2: int| 0 <= k1 < k2 < u.len() implies u[k1].id < u[k2].id by {
                    let i = choose|i: int| 0 <= i < rest.len() && unfinished(rest)[k1] == rest[i];
                    if k2 == u.len() - 1 {
                        assert(u[k2] == voices[voices.len() - 1]);
                    }
                }
            }
            assert forall|k: int| 0 <= k < u.len() implies exists|i: int|
                0 <= i < voices.len() && #[trigger] u[k] == voices[i] by {
                if k < u.len() - 1 {
                    let i = choose|i: int| 0 <= i < rest.len() && unfinished(rest)[k] == rest[i];
                    assert(u[k] == voices[i]);
                } else {
                    assert(u[k] == voices[voices.len() - 1]);
                }
            }
        } else {
            assert forall|k: int| 0 <= k < u.len() implies exists|i: int|
                0 <= i < voices.len() && #[trigger] u[k] == voices[i] by {
                let i = choose|i: int| 0 <= i < rest.len() && unfinished(rest)[k] == rest[i];
                assert(u[k] == voices[i]);
            }
            if ids_increasing(voices) {
                assert(ids_increasing(rest));
            }
        }
    }
}

/// Releasing twice in a row: the second release finds the queue empty,
/// signals no voice and changes nothing.
pub proof fn lemma_release_all_idempotent(m: RegistryModel)
    requires
        m.wf(),
    ensures
        m.release_all().pending.len() == 0,
        m.release_all().release_all() == m.release_all(),
{
    assert(m.release_all().release_all().voices =~= m.release_all().voices);
}

/// A voice that has not been told to release cannot finish: a report of the
/// end of its envelope changes nothing.
pub proof fn lemma_only_releasing_voices_finish(m: RegistryModel, id: u64)
    requires
        m.wf(),
        !m.is_releasing(id),
    ensures
        m.finish(id) == m,
{
    assert(m.finish(id).voices =~= m.voices);
}

/// A note-on followed at once by a note-off leaves the new voice releasing
/// rather than cut: reclaiming keeps it until its envelope reports the end of
/// the release, and removes it after that.
pub proof fn lemma_note_off_releases_without_cutting(m: RegistryModel, note: u8, velocity: u8)
    requires
        m.wf(),
        note < 128,
        velocity < 128,
        m.can_start(),
    ensures
        m.note_on(note, velocity).release_all().is_releasing(m.next_id),
        m.note_on(note, velocity).release_all().reclaim().has_voice(m.next_id),
        !m.note_on(note, velocity).release_all().finish(m.next_id).reclaim().has_voice(m.next_id),
{
    let id = m.next_id;
    let on = m.note_on(note, velocity);
    let r = on.release_all();
    let n = on.voices.len() - 1;
    assert(r.voices[n].id == id && r.voices[n].state == VoiceState::Releasing);
    lemma_unfinished_keeps_unfinished(r.voices, n);
    let f = r.finish(id);
    assert forall|i: int| 0 <= i < f.voices.len() && (#[trigger] f.voices[i]).id == id implies f.voices[i].state
        == VoiceState::Finished by {
        if i < n {
            assert(m.voices[i].id < id);
        }
    }
    lemma_unfinished_drops_finished(f.voices, id);
}

proof fn lemma_unfinished_keeps_unfinished(voices: Seq<VoiceEntry>, n: int)
    requires
        0 <= n < voices.len(),
        voices[n].state != VoiceState::Finished,
    ensures
        exists|k: int| 0 <= k < unfinished(voices).len() && #[trigger] unfinished(voices)[k] == voices[n],
    decreases voices.len(),
{
    let rest = voices.drop_last();
    if n < voices.len() - 1 {
        lemma_unfinished_keeps_unfinished(rest, n);
        let k = choose|k: int| 0 <= k < unfinished(rest).len() && unfinished(rest)[k] == rest[n];
        assert(rest[n] == voices[n]);
        if voices.last().state != VoiceState::Finished {
            assert(unfinished(voices) == unfinished(rest).push(voices.last()));
            assert(unfinished(voices)[k] == voices[n]);
        } else {
            assert(unfinished(voices) == unfinished(rest));
        }
    } else {
        assert(unfinished(voices) == unfinished(rest).push(voices.last()));
        assert(unfinished(voices)[unfinished(voices).len() - 1] == voices[n]);
    }
}

proof fn lemma_unfinished_drops_finished(voices: Seq<VoiceEntry>, id: u64)
    requires
        forall|i: int| 0 <= i < voices.len() && (#[trigger] voices[i]).id == id ==> voices[i].state
            == VoiceState::Finished,
    ensures
        forall|k: int| 0 <= k < unfinished(voices).len() ==> (#[trigger] unfinished(voices)[k]).id != id,
    decreases voices.len(),
{
    if voices.len() > 0 {
        lemma_unfinished_drops_finished(voices.drop_last(), id);
    }
}

} // verus!
