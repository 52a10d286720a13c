//! Noticing the natural end of a playback.
use vstd::prelude::*;

verus! {

/// What a playback needs to tell its natural end once. An empty audio output does not tell that:
/// it is empty for a moment after a song was queued, too.
#[derive(Clone, Copy, Debug, PartialEq, Eq, Structural)]
pub struct EndSignal {
    /// The number of the playback.
    pub epoch: u64,
    /// Whether the end was told.
    pub signaled: bool,
}

impl EndSignal {
    /// What is told after the audio was asked for a sample; `ended` says that there was none.
    pub open spec fn told(self, ended: bool) -> Option<u64> {
        if ended && !self.signaled {
            Some(self.epoch)
        } else {
            None
        }
    }

    /// The signal after that.
    pub open spec fn after(self, ended: bool) -> EndSignal {
        EndSignal { signaled: self.signaled || ended, ..self }
    }

    /// The signal after several samples.
    pub open spec fn after_all(self, samples: Seq<bool>) -> EndSignal
        decreases samples.len(),
    {
        if samples.len() == 0 {
            self
        } else {
            self.after_all(samples.drop_last()).after(samples.last())
        }
    }

    /// What is told while several samples are asked for.
    pub open spec fn told_in_all(self, samples: Seq<bool>) -> Seq<u64>
        decreases samples.len(),
    {
        if samples.len() == 0 {
            Seq::empty()
        } else {
            let before = self.told_in_all(samples.drop_last());
            match self.after_all(samples.drop_last()).told(samples.last()) {
                Some(epoch) => before.push(epoch),
                None => before,
            }
        }
    }

    /// The signal of a playback that begins.
    pub fn new(epoch: u64) -> (signal: EndSignal)
        ensures
            signal == (EndSignal { epoch, signaled: false }),
    {
        EndSignal { epoch, signaled: false }
    }

    /// Takes notice of a sample. What is returned, if anything, is the number of the playback
    /// that has come to its end.
    pub fn sampled(&mut self, ended: bool) -> (store: Option<u64>)
        ensures
            store == old(self).told(ended),
            *final(self) == old(self).after(ended),
    {
        if ended && !self.signaled {
            self.signaled = true;
            Some(self.epoch)
        } else {
            None
        }
    }
}

/// However often the audio is asked for samples, the end of a playback is told once if there is
/// one, and never otherwise.
pub proof fn lemma_end_is_told_once(signal: EndSignal, samples: Seq<bool>)
    requires
        !signal.signaled,
    ensures
        signal.told_in_all(samples) == (if samples.contains(true) {
            seq![signal.epoch]
        } else {
            Seq::empty()
        }),
        signal.after_all(samples) == (EndSignal { signaled: samples.contains(true), ..signal }),
    decreases samples.len(),
{
    if samples.len() > 0 {
        let shorter = samples.drop_last();
        lemma_end_is_told_once(signal, shorter);
        assert(samples =~= shorter.push(samples.last()));
        if shorter.contains(true) {
            let i = choose|i: int| 0 <= i < shorter.len() && shorter[i];
            assert(samples[i]);
        }
        if samples.contains(true) && !samples.last() {
            let i = choose|i: int| 0 <= i < samples.len() && samples[i];
            assert(shorter[i]);
        }
        if samples.last() {
            assert(samples[samples.len() - 1]);
        }
        assert(signal.told_in_all(samples) =~= (if samples.contains(true) {
            seq![signal.epoch]
        } else {
            Seq::empty()
        }));
    }
}

} // verus!
