use vstd::prelude::*;
use crate::params::{Layer, MICRO, Oscillator, ParameterStore, StoreModel};

verus! {

/// Linear amplitude factor of a voice, as the ratio `numerator / denominator`.
#[derive(Debug, Clone, Copy, PartialEq, Eq, Structural)]
pub struct Gain {
    pub numerator: u16,
    pub denominator: u16,
}

/// Gain of a note struck with `velocity`: `velocity / 127`, doubled for
/// headroom, so full velocity gives `254 / 127`.
pub fn velocity_gain(velocity: u8) -> (g: Gain)
    ensures
        g.numerator == 2 * velocity,
        g.denominator == 127,
{
    Gain { numerator: 2 * (velocity as u16), denominator: 127 }
}

/// What a voice is: its note, its velocity and the sound of each slot as it
/// was when the note began.
pub struct VoiceModel {
    pub note: u8,
    pub velocity: u8,
    pub layers: Seq<Layer>,
}

/// The voice that a note-on with these values creates while the store holds `store`.
pub open spec fn born_voice(note: u8, velocity: u8, store: StoreModel) -> VoiceModel {
    VoiceModel { note, velocity, layers: store.layers() }
}

/// One sounding note. Its parameters are copied from the store once, when
/// it is created, and never read again: later edits of the store leave it as it is.
pub struct Voice {
    note: u8,
    velocity: u8,
    layers: Vec<Layer>,
}

impl View for Voice {
    type V = VoiceModel;

    closed spec fn view(&self) -> VoiceModel {
        VoiceModel { note: self.note, velocity: self.velocity, layers: self.layers@ }
    }
}

/// Builds the voice for a note-on from the parameters that the store holds now.
pub fn create_voice(note: u8, velocity: u8, store: &ParameterStore) -> (v: Voice)
    requires
        note < 128,
        velocity < 128,
        store@.wf(),
    ensures
        v@ == born_voice(note, velocity, store@),
{
    Voice { note, velocity, layers: store.layers() }
}

/// Longest release time among `layers`, in microseconds (zero for no layer).
pub open spec fn longest_release(layers: Seq<Layer>) -> u64
    decreases layers.len(),
{
    if layers.len() == 0 {
        0
    } else {
        let rest = longest_release(layers.drop_last());
        let r = layers.last().oscillator.adsr.3;
        if r > rest {
            r
        } else {
            rest
        }
    }
}

/// Attack plus decay of one slot, in microseconds, held at the largest
/// count should the sum not fit.
pub open spec fn onset_of(l: Layer) -> u64 {
    let a = l.oscillator.adsr;
    if a.0 + a.1 > u64::MAX {
        u64::MAX
    } else {
        (a.0 + a.1) as u64
    }
}

/// Longest attack plus decay among `layers`, in microseconds (zero for no layer).
pub open spec fn longest_onset(layers: Seq<Layer>) -> u64
    decreases layers.len(),
{
    if layers.len() == 0 {
        0
    } else {
        let rest = longest_onset(layers.drop_last());
        let o = onset_of(layers.last());
        if o > rest {
            o
        } else {
            rest
        }
    }
}

/// Whether `elapsed` frames at `sample_rate` frames per second last at
/// least `duration_us` microseconds.
pub fn duration_elapsed(elapsed: u64, sample_rate: u32, duration_us: u64) -> (r: bool)
    ensures
        r <==> elapsed as int * MICRO as int >= duration_us as int * sample_rate as int,
{
    let e: u128 = elapsed as u128;
    let rate: u128 = sample_rate as u128;
    let rel: u128 = duration_us as u128;
    assert(e * 1_000_000 <= 0xffff_ffff_ffff_ffff * 1_000_000) by (nonlinear_arith)
        requires e <= 0xffff_ffff_ffff_ffff;
    assert(rel * rate <= 0xffff_ffff_ffff_ffff * 0xffff_ffff) by (nonlinear_arith)
        requires rel <= 0xffff_ffff_ffff_ffff, rate <= 0xffff_ffff;
    e * 1_000_000 >= rel * rate
}

impl Voice {
    pub fn note(&self) -> (r: u8)
        ensures
            r == self@.note,
    {
        self.note
    }

    pub fn velocity(&self) -> (r: u8)
        ensures
            r == self@.velocity,
    {
        self.velocity
    }

    /// The slots of this voice, each an oscillator with its filter.
    pub fn layers(&self) -> (r: &[Layer])
        ensures
            r@ == self@.layers,
    {
        self.layers.as_slice()
    }

    /// How long this voice sounds after its release signal: the longest
    /// release among its slots, in microseconds.
    pub fn release_duration(&self) -> (r: u64)
        ensures
            r == longest_release(self@.layers),
    {
        let mut r: u64 = 0;
        let mut i: usize = 0;
        while i < self.layers.len()
            invariant
                i <= self.layers@.len(),
                r == longest_release(self.layers@.take(i as int)),
            decreases self.layers@.len() - i,
        {
            let rel = self.layers[i].oscillator.adsr.3;
            proof {
                assert(self.layers@.take(i + 1).drop_last() =~= self.layers@.take(i as int));
            }
            if rel > r {
                r = rel;
            }
            i = i + 1;
        }
        proof {
            assert(self.layers@.take(i as int) =~= self.layers@);
        }
        r
    }

    /// How long this voice takes to reach its sustain level: the longest
    /// attack plus decay among its slots, in microseconds.
    pub fn onset_duration(&self) -> (r: u64)
        ensures
            r == longest_onset(self@.layers),
    {
        let mut r: u64 = 0;
        let mut i: usize = 0;
        while i < self.layers.len()
            invariant
                i <= self.layers@.len(),
                r == longest_onset(self.layers@.take(i as int)),
            decreases self.layers@.len() - i,
        {
            let adsr = self.layers[i].oscillator.adsr;
            let o: u64 = adsr.0.saturating_add(adsr.1);
            proof {
                assert(self.layers@.take(i + 1).drop_last() =~= self.layers@.take(i as int));
            }
            if o > r {
                r = o;
            }
            i = i + 1;
        }
        proof {
            assert(self.layers@.take(i as int) =~= self.layers@);
        }
        r
    }

    /// Amplitude factor applied to every slot of this voice.
    pub fn gain(&self) -> (g: Gain)
        ensures
            g.numerator == 2 * self@.velocity,
            g.denominator == 127,
    {
        velocity_gain(self.velocity)
    }
}

/// A voice keeps the sound it was born with. When the detune of a slot is
/// changed after a note-on, the voice of that note-on still holds the old
/// detune, while the next note-on gets the new one; every other slot is the
/// same in both voices.
pub proof fn lemma_frozen_at_birth(
    store: StoreModel,
    slot: int,
    detune: i64,
    note: u8,
    velocity: u8,
    next_note: u8,
    next_velocity: u8,
)
    requires
        store.wf(),
        0 <= slot < store.slot_count(),
    ensures
        ({
            let earlier = born_voice(note, velocity, store);
            let edited = store.with_oscillator(
                slot,
                Oscillator { detune, ..store.oscillators[slot] },
            );
            let later = born_voice(next_note, next_velocity, edited);
            &&& earlier.layers[slot].oscillator.detune == store.oscillators[slot].detune
            &&& later.layers[slot].oscillator.detune == detune
            &&& later.layers.len() == earlier.layers.len()
            &&& forall|j: int|
                0 <= j < later.layers.len() && j != slot ==> #[trigger] later.layers[j]
                    == earlier.layers[j]
        }),
{
}

} // verus!
