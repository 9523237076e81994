use vstd::prelude::*;

verus! {

/// What the dialogue detector believes the current block holds.
#[derive(Clone, Copy, Debug, PartialEq, Eq, Structural)]
pub enum DialoguePresence {
    Unknown,
    Speech,
    NonSpeech,
}

impl DialoguePresence {
    /// What the detector reports after a block: with detection disabled the
    /// presence falls back to `Unknown`; otherwise the current belief stands.
    pub fn after_block(self, detection_enabled: bool) -> (presence: DialoguePresence)
        ensures
            presence == if detection_enabled {
                self
            } else {
                DialoguePresence::Unknown
            },
    {
        if !detection_enabled {
            return DialoguePresence::Unknown;
        }
        self
    }
}

} // verus!
