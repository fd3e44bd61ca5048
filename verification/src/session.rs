use vstd::prelude::*;

verus! {

/// One open recruitment: a label for the activity and the number of
/// slots still unfilled.
///
/// A session only ever lives inside the store; callers hold nothing but
/// its token. `remaining` is signed because the inbound event carries a
/// signed count; the lifecycle refuses to create a session with a
/// non-positive count, so a stored session always has `remaining >= 1`.
pub struct Session {
    pub title: String,
    pub remaining: i64,
}

} // verus!
