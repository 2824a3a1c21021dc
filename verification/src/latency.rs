use vstd::prelude::*;

verus! {

/// Latency mode for streaming ASR.
///
/// Each mode fixes the attention right context (the number of lookahead
/// encoder frames) that the engine is configured with.
#[derive(Debug, Copy, Clone, PartialEq, Eq, Structural)]
pub enum LatencyMode {
    /// Pure causal, 80ms latency
    PureCausal,
    /// 160ms latency
    UltraLow,
    /// 560ms latency
    Low,
    /// 1.12s latency (best quality)
    Default,
}

/// The attention right context that a latency mode stands for.
pub open spec fn mode_right_context(mode: LatencyMode) -> int {
    match mode {
        LatencyMode::PureCausal => 0,
        LatencyMode::UltraLow => 1,
        LatencyMode::Low => 6,
        LatencyMode::Default => 13,
    }
}

/// The latency mode whose right context is `context`, if there is one.
pub open spec fn mode_for_right_context(context: int) -> Option<LatencyMode> {
    if context == 0 {
        Some(LatencyMode::PureCausal)
    } else if context == 1 {
        Some(LatencyMode::UltraLow)
    } else if context == 6 {
        Some(LatencyMode::Low)
    } else if context == 13 {
        Some(LatencyMode::Default)
    } else {
        None
    }
}

impl LatencyMode {
    /// The attention right context (lookahead frames) of this mode:
    /// 0, 1, 6 or 13.
    pub fn att_right_context(self) -> (r: i32)
        ensures
            r == mode_right_context(self),
    {
        match self {
            LatencyMode::PureCausal => 0,
            LatencyMode::UltraLow => 1,
            LatencyMode::Low => 6,
            LatencyMode::Default => 13,
        }
    }

    /// The latency mode whose right context is `context`, if it is one of
    /// the four standard values.
    pub fn from_right_context(context: i32) -> (r: Option<LatencyMode>)
        ensures
            r == mode_for_right_context(context as int),
    {
        if context == 0 {
            Some(LatencyMode::PureCausal)
        } else if context == 1 {
            Some(LatencyMode::UltraLow)
        } else if context == 6 {
            Some(LatencyMode::Low)
        } else if context == 13 {
            Some(LatencyMode::Default)
        } else {
            None
        }
    }
}

/// A latency mode is found again from its right context, and a right context
/// that names a mode is that mode's right context: `from_right_context` undoes
/// `att_right_context`.
pub proof fn lemma_right_context_round_trip(mode: LatencyMode, context: int)
    ensures
        mode_for_right_context(mode_right_context(mode)) == Some(mode),
        mode_for_right_context(context) matches Some(m) ==> mode_right_context(m) == context,
{
}

/// A standard right context is one of 0, 1, 6 and 13, and those are exactly
/// the right contexts of the four latency modes.
pub proof fn lemma_standard_right_contexts(context: int)
    ensures
        mode_for_right_context(context) is Some <==> (context == 0 || context == 1 || context == 6
            || context == 13),
        (exists|m: LatencyMode| mode_right_context(m) == context) <==> (mode_for_right_context(
            context,
        ) is Some),
{
    if mode_for_right_context(context) is Some {
        let m = mode_for_right_context(context).unwrap();
        assert(mode_right_context(m) == context);
    }
}

} // verus!
