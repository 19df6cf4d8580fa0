use vstd::prelude::*;

verus! {

/// A terminal attribute set, held as plain values: the four flag words
/// and the control-character array of the POSIX terminal interface.
#[derive(Clone, PartialEq, Eq, Debug)]
pub struct TermSettings {
    pub input_flags: u64,
    pub output_flags: u64,
    pub control_flags: u64,
    pub local_flags: u64,
    pub control_chars: Vec<u8>,
}

/// The bits the raw-mode derivation touches: which flags it clears on
/// each word and which it sets. Their values are the platform's.
#[derive(Clone, Copy, PartialEq, Eq, Structural, Debug)]
pub struct RawMasks {
    /// Cleared from the input flags: break-interrupt, carriage-return
    /// translation, parity checking, bit stripping and flow control.
    pub input_clear: u64,
    /// Cleared from the output flags: newline post-processing.
    pub output_clear: u64,
    /// Set on the control flags: 8-bit character frames.
    pub control_set: u64,
    /// Cleared from the local flags: echo, canonical mode, extended
    /// input handling and signal generation.
    pub local_clear: u64,
}

/// What one attribute set looks like after the raw-mode derivation with
/// the given masks: each mask applied to its word, the non-canonical
/// read configured to a minimum of `0` bytes at `vmin_index` and a
/// one-unit poll timeout at `vtime_index`.
pub open spec fn raw_derivation(
    orig: TermSettings,
    masks: RawMasks,
    vmin_index: int,
    vtime_index: int,
    r: TermSettings,
) -> bool {
    &&& r.input_flags == orig.input_flags & !masks.input_clear
    &&& r.output_flags == orig.output_flags & !masks.output_clear
    &&& r.control_flags == orig.control_flags | masks.control_set
    &&& r.local_flags == orig.local_flags & !masks.local_clear
    &&& r.control_chars@ == orig.control_chars@.update(vmin_index, 0u8).update(vtime_index, 1u8)
}

/// Owns the attribute set captured at startup; it is read to derive the
/// raw set and handed back, untouched, for the restoration at exit.
pub struct RawModeGuard {
    pub saved: TermSettings,
}

impl RawModeGuard {
    /// Capture the terminal's current attribute set, exactly as given.
    pub fn capture(settings: TermSettings) -> (g: RawModeGuard)
        ensures
            g.saved == settings,
    {
        RawModeGuard { saved: settings }
    }

    /// The attribute set that restoration must apply: bit for bit the
    /// one captured at startup.
    pub fn restore_settings(&self) -> (r: &TermSettings)
        ensures
            *r == self.saved,
    {
        &self.saved
    }

    /// Derive the raw-mode attribute set from the captured one, leaving
    /// the captured set itself untouched.
    pub fn raw_settings(&self, masks: RawMasks, vmin_index: usize, vtime_index: usize) -> (r:
        TermSettings)
        requires
            vmin_index < self.saved.control_chars@.len(),
            vtime_index < self.saved.control_chars@.len(),
        ensures
            raw_derivation(self.saved, masks, vmin_index as int, vtime_index as int, r),
    {
        let orig = &self.saved;
        let mut cc: Vec<u8> = Vec::new();
        let ghost target = orig.control_chars@.update(vmin_index as int, 0u8).update(
            vtime_index as int,
            1u8,
        );
        let mut i: usize = 0;
        while i < orig.control_chars.len()
            invariant
                i <= orig.control_chars@.len(),
                vmin_index < orig.control_chars@.len(),
                vtime_index < orig.control_chars@.len(),
                target == orig.control_chars@.update(vmin_index as int, 0u8).update(
                    vtime_index as int,
                    1u8,
                ),
                cc@.len() == i,
                forall|k: int| 0 <= k < i ==> cc@[k] == target[k],
            decreases orig.control_chars@.len() - i,
        {
            let v: u8 = if i == vtime_index {
                1
            } else if i == vmin_index {
                0
            } else {
                orig.control_chars[i]
            };
            cc.push(v);
            i = i + 1;
        }
        proof {
            assert(cc@ =~= target);
        }
        TermSettings {
            input_flags: orig.input_flags & !masks.input_clear,
            output_flags: orig.output_flags & !masks.output_clear,
            control_flags: orig.control_flags | masks.control_set,
            local_flags: orig.local_flags & !masks.local_clear,
            control_chars: cc,
        }
    }
}

} // verus!
