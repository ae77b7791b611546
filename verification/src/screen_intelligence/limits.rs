//! Buffer sizes and string limits for screen intelligence.

use vstd::prelude::*;

verus! {

pub const MAX_EPHEMERAL_FRAMES: usize = 120;
pub const MAX_EPHEMERAL_VISION_SUMMARIES: usize = 120;
pub const MAX_SCREENSHOT_BYTES: usize = 1_500_000;
pub const MAX_CONTEXT_CHARS: usize = 256;
pub const MAX_SUGGESTION_CHARS: usize = 128;

} // verus!
