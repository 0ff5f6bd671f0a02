use vstd::prelude::*;
use crate::waveform::Waveform;

verus! {

/// Fixed-point steps in one unit: durations are held in microseconds,
/// frequencies in microhertz and dimensionless levels in millionths.
pub const MICRO: u64 = 1_000_000;

/// Amplitude envelope of an oscillator: attack, decay and release durations
/// in microseconds, and the sustain level in millionths of full amplitude.
#[derive(Debug, Clone, Copy, PartialEq, Eq, Structural)]
pub struct ADSR(pub u64, pub u64, pub u64, pub u64);

/// Sound of one oscillator slot: waveform, envelope and a detune offset in
/// microhertz that is added to the note's fundamental.
#[derive(Debug, Clone, Copy, PartialEq, Eq, Structural)]
pub struct Oscillator {
    pub waveform: Waveform,
    pub adsr: ADSR,
    pub detune: i64,
}

/// Low-pass filter of one slot: cutoff frequency in microhertz and
/// resonance (Q) in millionths.
#[derive(Debug, Clone, Copy, PartialEq, Eq, Structural)]
pub struct Filter {
    pub cutoff: u64,
    pub resonance: u64,
}

/// One slot of a voice: an oscillator together with the filter it feeds.
#[derive(Debug, Clone, Copy, PartialEq, Eq, Structural)]
pub struct Layer {
    pub oscillator: Oscillator,
    pub filter: Filter,
}

impl Filter {
    /// A filter needs a positive cutoff frequency.
    pub open spec fn wf(self) -> bool {
        self.cutoff > 0
    }
}

impl Oscillator {
    pub fn new(waveform: Waveform, adsr: ADSR, detune: i64) -> (r: Oscillator)
        ensures
            r == (Oscillator { waveform, adsr, detune }),
    {
        Oscillator { waveform, adsr, detune }
    }
}

impl Default for Oscillator {
    /// A sine with 0.1 s attack, 0.2 s decay, sustain at 0.4 and no release.
    fn default() -> (r: Oscillator)
        ensures
            r == (Oscillator {
                waveform: Waveform::Sine,
                adsr: ADSR(100_000, 200_000, 400_000, 0),
                detune: 0,
            }),
    {
        Oscillator { waveform: Waveform::Sine, adsr: ADSR(100_000, 200_000, 400_000, 0), detune: 0 }
    }
}

/// Why a write to the parameter store was refused.
#[derive(Debug, Clone, Copy, PartialEq, Eq, Structural)]
pub enum ParamError {
    /// The slot index is not below the number of slots.
    NoSuchSlot,
    /// A filter cutoff of zero hertz.
    ZeroCutoff,
    /// Oscillator and filter lists of different lengths.
    SlotCountMismatch,
}

pub open spec fn all_cutoffs_positive(filters: Seq<Filter>) -> bool {
    forall|i: int| 0 <= i < filters.len() ==> (#[trigger] filters[i]).wf()
}

/// Abstract content of a parameter store: one oscillator and one filter per slot.
pub struct StoreModel {
    pub oscillators: Seq<Oscillator>,
    pub filters: Seq<Filter>,
}

impl StoreModel {
    pub open spec fn wf(self) -> bool {
        &&& self.oscillators.len() == self.filters.len()
        &&& all_cutoffs_positive(self.filters)
    }

    pub open spec fn slot_count(self) -> nat {
        self.oscillators.len()
    }

    /// The layers a voice born now would be built from, slot by slot.
    pub open spec fn layers(self) -> Seq<Layer> {
        Seq::new(
            self.oscillators.len(),
            |i: int| Layer { oscillator: self.oscillators[i], filter: self.filters[i] },
        )
    }

    pub open spec fn with_oscillator(self, slot: int, o: Oscillator) -> StoreModel {
        StoreModel { oscillators: self.oscillators.update(slot, o), filters: self.filters }
    }

    pub open spec fn with_filter(self, slot: int, f: Filter) -> StoreModel {
        StoreModel { oscillators: self.oscillators, filters: self.filters.update(slot, f) }
    }
}

/// One edit from the control surface: which field of which slot takes which value.
#[derive(Debug, Clone, Copy, PartialEq, Eq, Structural)]
pub enum ControlChange {
    Waveform(usize, Waveform),
    Detune(usize, i64),
    Attack(usize, u64),
    Decay(usize, u64),
    Sustain(usize, u64),
    Release(usize, u64),
    Cutoff(usize, u64),
    Resonance(usize, u64),
}

impl ControlChange {
    pub open spec fn slot(self) -> usize {
        match self {
            ControlChange::Waveform(s, _) => s,
            ControlChange::Detune(s, _) => s,
            ControlChange::Attack(s, _) => s,
            ControlChange::Decay(s, _) => s,
            ControlChange::Sustain(s, _) => s,
            ControlChange::Release(s, _) => s,
            ControlChange::Cutoff(s, _) => s,
            ControlChange::Resonance(s, _) => s,
        }
    }
}

impl StoreModel {
    /// Why the store refuses `c`, if it does.
    pub open spec fn refusal(self, c: ControlChange) -> Option<ParamError> {
        if c.slot() >= self.slot_count() {
            Some(ParamError::NoSuchSlot)
        } else if c matches ControlChange::Cutoff(_, 0) {
            Some(ParamError::ZeroCutoff)
        } else {
            None
        }
    }

    /// The store after an accepted edit `c`.
    pub open spec fn after(self, c: ControlChange) -> StoreModel {
        let i = c.slot() as int;
        let o = self.oscillators[i];
        let f = self.filters[i];
        match c {
            ControlChange::Waveform(_, waveform) => self.with_oscillator(i, Oscillator { waveform, ..o }),
            ControlChange::Detune(_, detune) => self.with_oscillator(i, Oscillator { detune, ..o }),
            ControlChange::Attack(_, v) => self.with_oscillator(
                i,
                Oscillator { adsr: ADSR(v, o.adsr.1, o.adsr.2, o.adsr.3), ..o },
            ),
            ControlChange::Decay(_, v) => self.with_oscillator(
                i,
                Oscillator { adsr: ADSR(o.adsr.0, v, o.adsr.2, o.adsr.3), ..o },
            ),
            ControlChange::Sustain(_, v) => self.with_oscillator(
                i,
                Oscillator { adsr: ADSR(o.adsr.0, o.adsr.1, v, o.adsr.3), ..o },
            ),
            ControlChange::Release(_, v) => self.with_oscillator(
                i,
                Oscillator { adsr: ADSR(o.adsr.0, o.adsr.1, o.adsr.2, v), ..o },
            ),
            ControlChange::Cutoff(_, cutoff) => self.with_filter(i, Filter { cutoff, ..f }),
            ControlChange::Resonance(_, resonance) => self.with_filter(i, Filter { resonance, ..f }),
        }
    }

    /// `r` and `next` are what edit `c` gives on this store: the refusal and
    /// an unchanged store, or success and the edited store.
    pub open spec fn edit_outcome(
        self,
        c: ControlChange,
        r: Result<(), ParamError>,
        next: StoreModel,
    ) -> bool {
        match self.refusal(c) {
            Some(e) => r == Err::<(), ParamError>(e) && next == self,
            None => r is Ok && next == self.after(c),
        }
    }
}

/// The sound parameters that the control surface edits and that every new
/// voice copies at its note-on.
pub struct ParameterStore {
    oscillators: Vec<Oscillator>,
    filters: Vec<Filter>,
}

impl View for ParameterStore {
    type V = StoreModel;

    closed spec fn view(&self) -> StoreModel {
        StoreModel { oscillators: self.oscillators@, filters: self.filters@ }
    }
}

impl ParameterStore {
    /// A store with one slot per oscillator; `filters[i]` belongs to `oscillators[i]`.
    pub fn new(oscillators: Vec<Oscillator>, filters: Vec<Filter>) -> (r: Result<
        ParameterStore,
        ParamError,
    >)
        ensures
            r is Ok <==> oscillators@.len() == filters@.len() && all_cutoffs_positive(filters@),
            r matches Ok(s) ==> s@ == (StoreModel { oscillators: oscillators@, filters: filters@ })
                && s@.wf(),
            r == Err::<ParameterStore, ParamError>(ParamError::SlotCountMismatch)
                <==> oscillators@.len() != filters@.len(),
            r == Err::<ParameterStore, ParamError>(ParamError::ZeroCutoff)
                <==> oscillators@.len() == filters@.len() && !all_cutoffs_positive(filters@),
    {
        if oscillators.len() != filters.len() {
            return Err(ParamError::SlotCountMismatch);
        }
        let mut i: usize = 0;
        while i < filters.len()
            invariant
                i <= filters@.len(),
                oscillators@.len() == filters@.len(),
                forall|j: int| 0 <= j < i ==> (#[trigger] filters@[j]).wf(),
            decreases filters@.len() - i,
        {
            if filters[i].cutoff == 0 {
                return Err(ParamError::ZeroCutoff);
            }
            i = i + 1;
        }
        Ok(ParameterStore { oscillators, filters })
    }

    pub fn slot_count(&self) -> (r: usize)
        ensures
            r == self@.slot_count(),
    {
        self.oscillators.len()
    }

    /// The oscillator of a slot, if the slot exists.
    pub fn oscillator(&self, slot: usize) -> (r: Option<Oscillator>)
        ensures
            slot < self@.oscillators.len() ==> r == Some(self@.oscillators[slot as int]),
            slot >= self@.oscillators.len() ==> r is None,
    {
        if slot < self.oscillators.len() {
            Some(self.oscillators[slot])
        } else {
            None
        }
    }

    /// The filter of a slot, if the slot exists.
    pub fn filter(&self, slot: usize) -> (r: Option<Filter>)
        ensures
            slot < self@.filters.len() ==> r == Some(self@.filters[slot as int]),
            slot >= self@.filters.len() ==> r is None,
    {
        if slot < self.filters.len() {
            Some(self.filters[slot])
        } else {
            None
        }
    }

    /// Selects the waveform of a slot.
    pub fn set_waveform(&mut self, slot: usize, waveform: Waveform) -> (r: Result<(), ParamError>)
        requires
            old(self)@.wf(),
        ensures
            final(self)@.wf(),
            old(self)@.edit_outcome(ControlChange::Waveform(slot, waveform), r, final(self)@),
    {
        if slot >= self.oscillators.len() {
            return Err(ParamError::NoSuchSlot);
        }
        let o = self.oscillators[slot];
        self.oscillators.set(slot, Oscillator { waveform, ..o });
        Ok(())
    }

    /// Sets the detune of a slot, in microhertz.
    pub fn set_detune(&mut self, slot: usize, detune: i64) -> (r: Result<(), ParamError>)
        requires
            old(self)@.wf(),
        ensures
            final(self)@.wf(),
            old(self)@.edit_outcome(ControlChange::Detune(slot, detune), r, final(self)@),
    {
        if slot >= self.oscillators.len() {
            return Err(ParamError::NoSuchSlot);
        }
        let o = self.oscillators[slot];
        self.oscillators.set(slot, Oscillator { detune, ..o });
        Ok(())
    }

    /// Sets the attack time of a slot, in microseconds.
    pub fn set_attack(&mut self, slot: usize, attack: u64) -> (r: Result<(), ParamError>)
        requires
            old(self)@.wf(),
        ensures
            final(self)@.wf(),
            old(self)@.edit_outcome(ControlChange::Attack(slot, attack), r, final(self)@),
    {
        if slot >= self.oscillators.len() {
            return Err(ParamError::NoSuchSlot);
        }
        let o = self.oscillators[slot];
        self.oscillators.set(slot, Oscillator { adsr: ADSR(attack, o.adsr.1, o.adsr.2, o.adsr.3), ..o });
        Ok(())
    }

    /// Sets the decay time of a slot, in microseconds.
    pub fn set_decay(&mut self, slot: usize, decay: u64) -> (r: Result<(), ParamError>)
        requires
            old(self)@.wf(),
        ensures
            final(self)@.wf(),
            old(self)@.edit_outcome(ControlChange::Decay(slot, decay), r, final(self)@),
    {
        if slot >= self.oscillators.len() {
            return Err(ParamError::NoSuchSlot);
        }
        let o = self.oscillators[slot];
        self.oscillators.set(slot, Oscillator { adsr: ADSR(o.adsr.0, decay, o.adsr.2, o.adsr.3), ..o });
        Ok(())
    }

    /// Sets the sustain level of a slot, in millionths.
    pub fn set_sustain(&mut self, slot: usize, sustain: u64) -> (r: Result<(), ParamError>)
        requires
            old(self)@.wf(),
        ensures
            final(self)@.wf(),
            old(self)@.edit_outcome(ControlChange::Sustain(slot, sustain), r, final(self)@),
    {
        if slot >= self.oscillators.len() {
            return Err(ParamError::NoSuchSlot);
        }
        let o = self.oscillators[slot];
        self.oscillators.set(slot, Oscillator { adsr: ADSR(o.adsr.0, o.adsr.1, sustain, o.adsr.3), ..o });
        Ok(())
    }

    /// Sets the release time of a slot, in microseconds.
    pub fn set_release(&mut self, slot: usize, release: u64) -> (r: Result<(), ParamError>)
        requires
            old(self)@.wf(),
        ensures
            final(self)@.wf(),
            old(self)@.edit_outcome(ControlChange::Release(slot, release), r, final(self)@),
    {
        if slot >= self.oscillators.len() {
            return Err(ParamError::NoSuchSlot);
        }
        let o = self.oscillators[slot];
        self.oscillators.set(slot, Oscillator { adsr: ADSR(o.adsr.0, o.adsr.1, o.adsr.2, release), ..o });
        Ok(())
    }

    /// Sets the cutoff frequency of a slot's filter, in microhertz; zero is refused.
    pub fn set_cutoff(&mut self, slot: usize, cutoff: u64) -> (r: Result<(), ParamError>)
        requires
            old(self)@.wf(),
        ensures
            final(self)@.wf(),
            old(self)@.edit_outcome(ControlChange::Cutoff(slot, cutoff), r, final(self)@),
    {
        if slot >= self.filters.len() {
            return Err(ParamError::NoSuchSlot);
        }
        if cutoff == 0 {
            return Err(ParamError::ZeroCutoff);
        }
        let f = self.filters[slot];
        self.filters.set(slot, Filter { cutoff, ..f });
        Ok(())
    }

    /// Sets the resonance of a slot's filter, in millionths.
    pub fn set_resonance(&mut self, slot: usize, resonance: u64) -> (r: Result<(), ParamError>)
        requires
            old(self)@.wf(),
        ensures
            final(self)@.wf(),
            old(self)@.edit_outcome(ControlChange::Resonance(slot, resonance), r, final(self)@),
    {
        if slot >= self.filters.len() {
            return Err(ParamError::NoSuchSlot);
        }
        let f = self.filters[slot];
        self.filters.set(slot, Filter { resonance, ..f });
        Ok(())
    }

    /// Applies one edit from the control surface. A refused edit leaves the
    /// store as it was.
    pub fn apply(&mut self, c: ControlChange) -> (r: Result<(), ParamError>)
        requires
            old(self)@.wf(),
        ensures
            final(self)@.wf(),
            old(self)@.edit_outcome(c, r, final(self)@),
    {
        match c {
            ControlChange::Waveform(slot, w) => self.set_waveform(slot, w),
            ControlChange::Detune(slot, v) => self.set_detune(slot, v),
            ControlChange::Attack(slot, v) => self.set_attack(slot, v),
            ControlChange::Decay(slot, v) => self.set_decay(slot, v),
            ControlChange::Sustain(slot, v) => self.set_sustain(slot, v),
            ControlChange::Release(slot, v) => self.set_release(slot, v),
            ControlChange::Cutoff(slot, v) => self.set_cutoff(slot, v),
            ControlChange::Resonance(slot, v) => self.set_resonance(slot, v),
        }
    }

    /// The patch the synthesizer starts with: a square and a sine slot, both
    /// with 0.11 s attack, 0.14 s decay, sustain at 0.47 and 0.63 s release,
    /// no detune, and each filter open at 20 kHz with a resonance of 1.
    pub fn startup_patch() -> (r: ParameterStore)
        ensures
            r@.wf(),
            r@.slot_count() == 2,
            r@.oscillators[0] == (Oscillator { waveform: Waveform::Square, adsr: ADSR(110_000, 140_000, 470_000, 630_000), detune: 0 }),
            r@.oscillators[1] == (Oscillator { waveform: Waveform::Sine, adsr: ADSR(110_000, 140_000, 470_000, 630_000), detune: 0 }),
            r@.filters[0] == (Filter { cutoff: 20_000_000_000, resonance: 1_000_000 }),
            r@.filters[1] == (Filter { cutoff: 20_000_000_000, resonance: 1_000_000 }),
    {
        let adsr = ADSR(110_000, 140_000, 470_000, 630_000);
        let open = Filter { cutoff: 20_000 * MICRO, resonance: MICRO };
        ParameterStore {
            oscillators: vec![Oscillator::new(Waveform::Square, adsr, 0), Oscillator::new(Waveform::Sine, adsr, 0)],
            filters: vec![open, open],
        }
    }

    /// A copy of every slot, read once when a voice is born.
    pub fn layers(&self) -> (r: Vec<Layer>)
        requires
            self@.wf(),
        ensures
            r@ == self@.layers(),
    {
        let mut r: Vec<Layer> = Vec::new();
        let mut i: usize = 0;
        while i < self.oscillators.len()
            invariant
                self@.wf(),
                i <= self@.slot_count(),
                r@ == self@.layers().take(i as int),
            decreases self@.slot_count() - i,
        {
            r.push(Layer { oscillator: self.oscillators[i], filter: self.filters[i] });
            i = i + 1;
            assert(r@ =~= self@.layers().take(i as int));
        }
        assert(r@ =~= self@.layers());
        r
    }
}

} // verus!
