use vstd::prelude::*;

verus! {

/// A track that can be queued and played.
#[derive(Debug)]
pub struct YTVideoInfo {
    pub id: String,
    pub title: String,
    /// Length of the track in whole seconds.
    pub duration: u64,
}

impl Clone for YTVideoInfo {
    fn clone(&self) -> (res: Self)
        ensures
            res == *self,
    {
        YTVideoInfo { id: self.id.clone(), title: self.title.clone(), duration: self.duration }
    }
}

/// How the queue behaves when it runs past its ends.
#[derive(Clone, Copy, Debug, PartialEq, Eq, Structural)]
pub enum RepeatMode {
    Off,
    All,
    One,
}

/// The mode that follows `m` when the user presses the repeat button.
pub open spec fn next_repeat_mode(m: RepeatMode) -> RepeatMode {
    match m {
        RepeatMode::Off => RepeatMode::All,
        RepeatMode::All => RepeatMode::One,
        RepeatMode::One => RepeatMode::Off,
    }
}

impl RepeatMode {
    /// Off, then All, then One, then Off again.
    pub fn cycle(self) -> (res: RepeatMode)
        ensures
            res == next_repeat_mode(self),
    {
        match self {
            RepeatMode::Off => RepeatMode::All,
            RepeatMode::All => RepeatMode::One,
            RepeatMode::One => RepeatMode::Off,
        }
    }

    /// A short lower-case name for the mode.
    pub fn as_str(&self) -> (res: &'static str)
        ensures
            *self == RepeatMode::Off ==> res@ == "off"@,
            *self == RepeatMode::All ==> res@ == "all"@,
            *self == RepeatMode::One ==> res@ == "one"@,
    {
        match self {
            RepeatMode::Off => "off",
            RepeatMode::All => "all",
            RepeatMode::One => "one",
        }
    }
}

/// Cycling the repeat mode three times comes back to where it started.
pub proof fn lemma_cycle_three_times(m: RepeatMode)
    ensures
        next_repeat_mode(next_repeat_mode(next_repeat_mode(m))) == m,
{
}

} // verus!
