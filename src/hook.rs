//! The decision taken for each low-level keyboard event.

use vstd::prelude::*;

use crate::suppression::SuppressionSet;

verus! {

/// The message identifier of a key press.
pub const KEY_DOWN_MESSAGE: usize = 0x0100;

/// The message identifier of a key release.
pub const KEY_UP_MESSAGE: usize = 0x0101;

/// One invocation of the keyboard hook: the stage code and the two message
/// parameters, exactly as the system passed them.
#[derive(Clone, Copy, Debug, PartialEq, Eq, Structural)]
pub struct HookCall {
    pub stage: i32,
    pub w_param: usize,
    pub l_param: isize,
}

/// What the hook does with an event: swallow it, or hand the call, unchanged,
/// to the next hook in the chain.
#[derive(Clone, Copy, Debug, PartialEq, Eq, Structural)]
pub enum Verdict {
    Consume,
    Forward(HookCall),
}

/// The verdict for a call whose event carries the virtual-key code `vk_code`.
/// A negative stage is a notification whose payload must not be read.
pub open spec fn verdict_of(set: Set<i32>, call: HookCall, vk_code: u32) -> Verdict {
    if call.stage >= 0 && call.w_param == KEY_DOWN_MESSAGE && set.contains(vk_code as i32) {
        Verdict::Consume
    } else {
        Verdict::Forward(call)
    }
}

impl HookCall {
    /// Whether the event payload is to be read: only for a non-negative stage.
    pub fn reads_payload(&self) -> (r: bool)
        ensures
            r == (self.stage >= 0),
    {
        self.stage >= 0
    }
}

impl SuppressionSet {
    /// Decides a keyboard event: a press of a suppressed key is consumed;
    /// everything else, releases included, is forwarded unchanged. Where the
    /// stage is negative `vk_code` is not consulted.
    pub fn intercept(&self, call: HookCall, vk_code: u32) -> (r: Verdict)
        ensures
            r == verdict_of(self@, call, vk_code),
    {
        if call.stage >= 0 && call.w_param == KEY_DOWN_MESSAGE && self.contains(vk_code as i32) {
            Verdict::Consume
        } else {
            Verdict::Forward(call)
        }
    }
}

/// A press of a suppressed key is consumed, and its release is forwarded.
pub proof fn lemma_suppressed_key(set: Set<i32>, stage: i32, vk_code: u32, l_param: isize)
    requires
        stage >= 0,
        set.contains(vk_code as i32),
    ensures
        verdict_of(set, (HookCall { stage, w_param: KEY_DOWN_MESSAGE, l_param }), vk_code)
            == Verdict::Consume,
        verdict_of(set, (HookCall { stage, w_param: KEY_UP_MESSAGE, l_param }), vk_code)
            == Verdict::Forward(HookCall { stage, w_param: KEY_UP_MESSAGE, l_param }),
{
}

/// Every event of a key that is not suppressed, and every event whatever its
/// key at a negative stage or other than a press, is forwarded with the
/// stage and both parameters unchanged.
pub proof fn lemma_forwarded_unchanged(set: Set<i32>, call: HookCall, vk_code: u32)
    requires
        !set.contains(vk_code as i32) || call.stage < 0 || call.w_param != KEY_DOWN_MESSAGE,
    ensures
        verdict_of(set, call, vk_code) == Verdict::Forward(call),
{
}

} // verus!
