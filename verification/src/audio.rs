//! Audio plumbing that is decided here and run elsewhere: the metronome click
//! thread's commands, the capture configuration, how captured frames are
//! gathered into blocks, and how a capture device is chosen by name.
use vstd::prelude::*;

use crate::tuner::{every_nth, take_every_nth};

verus! {

/// Commands for the metronome click thread.
#[derive(Clone, Copy, Debug, PartialEq, Eq, Structural)]
pub enum AudioCommand {
    /// Start or stop clicking.
    Toggle,
    /// Click at this many beats per minute.
    SetBpm(u64),
    /// End the thread.
    Quit,
}

/// What the click thread knows: whether it clicks, and at what tempo.
pub struct AudioThreadState {
    pub playing: bool,
    pub bpm: u64,
}

impl AudioThreadState {
    /// Silent, at 120 beats per minute.
    pub fn new() -> (s: Self)
        ensures
            !s.playing,
            s.bpm == 120,
    {
        AudioThreadState { playing: false, bpm: 120 }
    }

    /// Takes in a command; returns whether the thread keeps running.
    pub fn apply(&mut self, command: AudioCommand) -> (running: bool)
        ensures
            running == !(command is Quit),
            command is Toggle ==> final(self).playing == !old(self).playing,
            command is Toggle ==> final(self).bpm == old(self).bpm,
            command matches AudioCommand::SetBpm(b) ==> final(self).bpm == b,
            command is SetBpm ==> final(self).playing == old(self).playing,
            command is Quit ==> final(self).playing == old(self).playing,
            command is Quit ==> final(self).bpm == old(self).bpm,
    {
        match command {
            AudioCommand::Toggle => {
                self.playing = !self.playing;
                true
            },
            AudioCommand::SetBpm(b) => {
                self.bpm = b;
                true
            },
            AudioCommand::Quit => false,
        }
    }
}

/// The number of frames gathered into one captured block by default.
pub const DEFAULT_BUFFER_SIZE: usize = 2048;

/// How captured audio is handed over: in blocks of `buffer_size` frames.
#[derive(Clone, Copy, Debug)]
pub struct CaptureConfig {
    pub buffer_size: usize,
}

impl Default for CaptureConfig {
    fn default() -> (c: Self)
        ensures
            c.buffer_size == DEFAULT_BUFFER_SIZE,
    {
        CaptureConfig { buffer_size: DEFAULT_BUFFER_SIZE }
    }
}

/// The blocks completed, and the block left in progress, when `frames` are
/// added one by one to `pending`: a block is complete once it holds at least
/// `target` frames.
pub open spec fn gathered<T>(pending: Seq<T>, frames: Seq<T>, target: nat) -> (Seq<Seq<T>>, Seq<T>)
    decreases frames.len(),
{
    if frames.len() == 0 {
        (Seq::empty(), pending)
    } else {
        let (blocks, current) = gathered(pending, frames.drop_last(), target);
        let next = current.push(frames.last());
        if next.len() >= target {
            (blocks.push(next), Seq::empty())
        } else {
            (blocks, next)
        }
    }
}

pub open spec fn block_views<T>(v: Seq<Vec<T>>) -> Seq<Seq<T>> {
    v.map_values(|b: Vec<T>| b@)
}

/// Takes the first channel of each interleaved frame of `data` into `pending`,
/// returning every block that reached `target` frames (the pending block starts
/// over after each).
pub fn gather_first_channel<T: Copy>(
    data: &[T],
    channels: usize,
    pending: &mut Vec<T>,
    target: usize,
) -> (blocks: Vec<Vec<T>>)
    requires
        channels > 0,
    ensures
        (block_views(blocks@), final(pending)@) == gathered(
            old(pending)@,
            every_nth(data@, channels as nat),
            target as nat,
        ),
{
    let frames = take_every_nth(data, channels);
    let ghost start = pending@;
    let mut blocks: Vec<Vec<T>> = Vec::new();
    let mut i: usize = 0;
    while i < frames.len()
        invariant
            i <= frames@.len(),
            (block_views(blocks@), pending@) == gathered(start, frames@.take(i as int), target as nat),
        decreases frames.len() - i,
    {
        proof {
            assert(frames@.take(i + 1).drop_last() =~= frames@.take(i as int));
        }
        pending.push(frames[i]);
        if pending.len() >= target {
            let mut full: Vec<T> = Vec::new();
            std::mem::swap(&mut full, pending);
            let ghost before = blocks@;
            blocks.push(full);
            assert(block_views(blocks@) =~= block_views(before).push(full@));
        }
        i = i + 1;
    }
    assert(frames@.take(frames@.len() as int) =~= frames@);
    blocks
}

/// The first position whose device name is `wanted`; devices without a name never match.
pub open spec fn named_position_from(names: Seq<Option<Seq<char>>>, wanted: Seq<char>, i: int) -> Option<int>
    decreases names.len() - i,
{
    if i < 0 || i >= names.len() {
        None
    } else if names[i] == Some(wanted) {
        Some(i)
    } else {
        named_position_from(names, wanted, i + 1)
    }
}

pub open spec fn name_views(v: Seq<Option<String>>) -> Seq<Option<Seq<char>>> {
    v.map_values(|n: Option<String>| crate::backing::opt_view(n))
}

/// The position of the first device called `wanted`.
pub fn find_device_named(names: &Vec<Option<String>>, wanted: &str) -> (r: Option<usize>)
    ensures
        r matches Some(i) ==> named_position_from(name_views(names@), wanted@, 0) == Some(i as int),
        r is None ==> named_position_from(name_views(names@), wanted@, 0) is None,
{
    let wanted_chars = crate::text::chars_of(wanted);
    let mut i: usize = 0;
    while i < names.len()
        invariant
            i <= names.len(),
            wanted_chars@ == wanted@,
            named_position_from(name_views(names@), wanted@, 0) == named_position_from(
                name_views(names@),
                wanted@,
                i as int,
            ),
        decreases names.len() - i,
    {
        assert(name_views(names@)[i as int] == crate::backing::opt_view(names@[i as int]));
        match &names[i] {
            Some(n) => {
                let c = crate::text::chars_of(n.as_str());
                if crate::text::chars_eq(&c, &wanted_chars) {
                    return Some(i);
                }
            },
            None => {},
        }
        i = i + 1;
    }
    None
}

} // verus!
