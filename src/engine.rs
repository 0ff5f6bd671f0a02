use vstd::prelude::*;
use crate::midi::NoteEvent;
use crate::params::ParameterStore;
use crate::registry::{RegistryModel, VoiceRegistry, finished_ids};
use crate::voice::{Voice, born_voice, create_voice};

verus! {

/// What the render loop must do after the engine has handled an event.
pub enum Action {
    /// Build and start rendering `voice`, which the registry knows as `id`.
    Start { id: u64, voice: Voice },
    /// Send the release signal to these voices, in this order.
    Release { ids: Vec<u64> },
    /// Nothing to do.
    Ignore,
}

/// Handles one event of the incoming queue. A note-on adds a voice (the
/// engine is polyphonic, up to its voice limit) with the parameters that the
/// store holds now;
/// a note-off, whatever its note, releases every sustaining voice; anything
/// else is ignored.
pub fn handle_event(registry: &mut VoiceRegistry, store: &ParameterStore, event: NoteEvent) -> (a:
    Action)
    requires
        old(registry)@.wf(),
        store@.wf(),
        event.wf(),
    ensures
        final(registry)@.wf(),
        match event {
            NoteEvent::NoteOn { note, velocity } => if old(registry)@.can_start() {
                &&& a matches Action::Start { id, voice } && id == old(registry)@.next_id
                    && voice@ == born_voice(note, velocity, store@)
                &&& final(registry)@ == old(registry)@.note_on(note, velocity)
            } else {
                a is Ignore && final(registry)@ == old(registry)@
            },
            NoteEvent::NoteOff { .. } => {
                &&& a matches Action::Release { ids } && ids@ == old(registry)@.pending
                &&& final(registry)@ == old(registry)@.release_all()
            },
            NoteEvent::Other => a is Ignore && final(registry)@ == old(registry)@,
        },
{
    match event {
        NoteEvent::NoteOn { note, velocity } => match registry.note_on(note, velocity) {
            Some(id) => Action::Start { id, voice: create_voice(note, velocity, store) },
            None => Action::Ignore,
        },
        NoteEvent::NoteOff { .. } => Action::Release { ids: registry.release_all() },
        NoteEvent::Other => Action::Ignore,
    }
}

/// The registry after the envelopes of `ids` reported, one after the other,
/// the end of their release.
pub open spec fn finish_each(m: RegistryModel, ids: Seq<u64>) -> RegistryModel
    decreases ids.len(),
{
    if ids.len() == 0 {
        m
    } else {
        finish_each(m, ids.drop_last()).finish(ids.last())
    }
}

/// One lifetime poll of the render loop: records the voices whose envelopes
/// have finished, then removes every finished voice from the registry.
/// Returns the removed ids, whose generators the render loop may drop.
pub fn retire(registry: &mut VoiceRegistry, finished: &[u64]) -> (removed: Vec<u64>)
    requires
        old(registry)@.wf(),
    ensures
        final(registry)@.wf(),
        final(registry)@ == finish_each(old(registry)@, finished@).reclaim(),
        removed@ == finished_ids(finish_each(old(registry)@, finished@).voices),
{
    let ghost start = registry@;
    let mut i: usize = 0;
    while i < finished.len()
        invariant
            i <= finished@.len(),
            registry@.wf(),
            registry@ == finish_each(start, finished@.take(i as int)),
        decreases finished@.len() - i,
    {
        registry.finish(finished[i]);
        proof {
            assert(finished@.take(i + 1).drop_last() =~= finished@.take(i as int));
        }
        i = i + 1;
    }
    proof {
        assert(finished@.take(i as int) =~= finished@);
    }
    registry.reclaim()
}

} // verus!
