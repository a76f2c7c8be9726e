//! The tuner's controls (input device, capture on or off, input gain, tuning
//! mode, target string) and the sample buffers it keeps. Opening the audio
//! device and measuring pitch and level are left to the caller: the state says
//! what to do with the capture and is told what happened.
use vstd::prelude::*;

use crate::text::{owned, string_views};

verus! {

/// Auto detects the nearest string; Manual tunes toward a chosen string.
#[derive(Clone, Copy, Debug, PartialEq, Eq, Structural)]
pub enum TuningMode {
    Auto,
    Manual,
}

/// Number of guitar strings offered as tuning targets.
pub const TUNER_STRING_COUNT: usize = 6;

/// Input gain is kept in half steps: from 0 to 20 half steps (0.0 to 10.0).
pub const INPUT_GAIN_MAX_STEPS: u32 = 20;

/// The gain that a new tuner starts with: 16 half steps (8.0).
pub const INPUT_GAIN_DEFAULT_STEPS: u32 = 16;

/// The block size that the tuner asks the capture for.
pub const TUNER_CAPTURE_BLOCK: usize = 1024;

/// The sample rate assumed until a capture reports its own.
pub const DEFAULT_SAMPLE_RATE: u32 = 44100;

/// The names of the target strings, from low E to high E.
pub open spec fn tuner_string_name(i: int) -> Seq<char> {
    if i == 0 {
        "E2"@
    } else if i == 1 {
        "A2"@
    } else if i == 2 {
        "D3"@
    } else if i == 3 {
        "G3"@
    } else if i == 4 {
        "B3"@
    } else {
        "E4"@
    }
}

pub fn tuner_string_label(i: usize) -> (s: &'static str)
    requires
        i < TUNER_STRING_COUNT,
    ensures
        s@ == tuner_string_name(i as int),
{
    match i {
        0 => "E2",
        1 => "A2",
        2 => "D3",
        3 => "G3",
        4 => "B3",
        _ => "E4",
    }
}

/// What the audio capture should do after a tuner control was used.
pub enum CaptureAction {
    /// Nothing changes.
    Nothing,
    /// Open the capture on the named device, or on the default device.
    Start(Option<String>),
    /// Close the capture.
    Stop,
    /// Close the capture and open it again on the named (or default) device.
    Restart(Option<String>),
}

/// The tuner controls as plain values.
pub struct TunerModel {
    pub devices: Seq<Seq<char>>,
    pub device_index: nat,
    pub capturing: bool,
    pub error: Option<Seq<char>>,
    pub mode: TuningMode,
    pub string_index: nat,
    pub gain_steps: nat,
    pub sample_rate: u32,
}

/// The device that a capture would open: the selected one, if the selection
/// points at a device.
pub open spec fn chosen_device(m: TunerModel) -> Option<Seq<char>> {
    if m.device_index < m.devices.len() {
        Some(m.devices[m.device_index as int])
    } else {
        None
    }
}

/// The state after the capture was closed.
pub open spec fn capture_closed(m: TunerModel) -> TunerModel {
    TunerModel { capturing: false, ..m }
}

/// The state while a capture is being opened.
pub open spec fn capture_opening(m: TunerModel) -> TunerModel {
    TunerModel { error: None, ..m }
}

/// A new tuner on a device list: not capturing, the first device and string
/// selected, automatic mode, default gain.
pub open spec fn fresh_tuner(devices: Seq<Seq<char>>) -> TunerModel {
    TunerModel {
        devices,
        device_index: 0,
        capturing: false,
        error: None,
        mode: TuningMode::Auto,
        string_index: 0,
        gain_steps: INPUT_GAIN_DEFAULT_STEPS as nat,
        sample_rate: DEFAULT_SAMPLE_RATE,
    }
}

/// The tuner's controls.
pub struct TunerState {
    available_devices: Vec<String>,
    selected_device_index: usize,
    is_capturing: bool,
    error_message: Option<String>,
    tuning_mode: TuningMode,
    selected_string_index: usize,
    input_gain_steps: u32,
    sample_rate: u32,
}

impl View for TunerState {
    type V = TunerModel;

    closed spec fn view(&self) -> TunerModel {
        TunerModel {
            devices: string_views(self.available_devices@),
            device_index: self.selected_device_index as nat,
            capturing: self.is_capturing,
            error: match self.error_message {
                Some(e) => Some(e@),
                None => None,
            },
            mode: self.tuning_mode,
            string_index: self.selected_string_index as nat,
            gain_steps: self.input_gain_steps as nat,
            sample_rate: self.sample_rate,
        }
    }
}

impl TunerState {
    /// The selections and the gain lie within their ranges.
    pub open spec fn wf(&self) -> bool {
        &&& (self@.device_index == 0 || self@.device_index < self@.devices.len())
        &&& self@.string_index < TUNER_STRING_COUNT
        &&& self@.gain_steps <= INPUT_GAIN_MAX_STEPS
    }

    /// Not capturing, the first device and string selected, automatic mode, default gain.
    pub fn new(devices: Vec<String>) -> (s: Self)
        ensures
            s.wf(),
            s@ == fresh_tuner(string_views(devices@)),
    {
        TunerState {
            available_devices: devices,
            selected_device_index: 0,
            is_capturing: false,
            error_message: None,
            tuning_mode: TuningMode::Auto,
            selected_string_index: 0,
            input_gain_steps: INPUT_GAIN_DEFAULT_STEPS,
            sample_rate: DEFAULT_SAMPLE_RATE,
        }
    }

    pub fn available_devices(&self) -> (d: &[String])
        ensures
            string_views(d@) == self@.devices,
    {
        self.available_devices.as_slice()
    }

    pub fn selected_device(&self) -> (d: Option<&str>)
        ensures
            d is Some == chosen_device(self@) is Some,
            d matches Some(n) ==> n@ == chosen_device(self@)->0,
    {
        if self.selected_device_index < self.available_devices.len() {
            Some(self.available_devices[self.selected_device_index].as_str())
        } else {
            None
        }
    }

    pub fn selected_device_index(&self) -> (i: usize)
        ensures
            i == self@.device_index,
    {
        self.selected_device_index
    }

    pub fn is_capturing(&self) -> (b: bool)
        ensures
            b == self@.capturing,
    {
        self.is_capturing
    }

    pub fn error_message(&self) -> (e: Option<&str>)
        ensures
            e is Some == self@.error is Some,
            e matches Some(m) ==> m@ == self@.error->0,
    {
        match &self.error_message {
            Some(m) => Some(m.as_str()),
            None => None,
        }
    }

    pub fn tuning_mode(&self) -> (m: TuningMode)
        ensures
            m == self@.mode,
    {
        self.tuning_mode
    }

    pub fn sample_rate(&self) -> (r: u32)
        ensures
            r == self@.sample_rate,
    {
        self.sample_rate
    }

    /// The input gain in half steps (the gain is half this number).
    pub fn input_gain_steps(&self) -> (g: u32)
        ensures
            g == self@.gain_steps,
    {
        self.input_gain_steps
    }

    pub fn selected_string_index(&self) -> (i: usize)
        ensures
            i == self@.string_index,
    {
        self.selected_string_index
    }

    pub fn selected_string_label(&self) -> (s: &'static str)
        requires
            self.wf(),
        ensures
            s@ == tuner_string_name(self@.string_index as int),
    {
        tuner_string_label(self.selected_string_index)
    }

    pub fn toggle_tuning_mode(&mut self)
        requires
            old(self).wf(),
        ensures
            final(self).wf(),
            final(self)@ == (TunerModel {
                mode: if old(self)@.mode == TuningMode::Auto {
                    TuningMode::Manual
                } else {
                    TuningMode::Auto
                },
                ..old(self)@
            }),
    {
        self.tuning_mode = match self.tuning_mode {
            TuningMode::Auto => TuningMode::Manual,
            TuningMode::Manual => TuningMode::Auto,
        };
    }

    pub fn next_string(&mut self)
        requires
            old(self).wf(),
        ensures
            final(self).wf(),
            final(self)@ == (TunerModel {
                string_index: crate::music::cycle_next(old(self)@.string_index as int, TUNER_STRING_COUNT as int) as nat,
                ..old(self)@
            }),
    {
        self.selected_string_index = (self.selected_string_index + 1) % TUNER_STRING_COUNT;
    }

    pub fn prev_string(&mut self)
        requires
            old(self).wf(),
        ensures
            final(self).wf(),
            final(self)@ == (TunerModel {
                string_index: crate::music::cycle_prev(old(self)@.string_index as int, TUNER_STRING_COUNT as int) as nat,
                ..old(self)@
            }),
    {
        if self.selected_string_index == 0 {
            self.selected_string_index = TUNER_STRING_COUNT - 1;
        } else {
            self.selected_string_index = self.selected_string_index - 1;
        }
    }

    pub fn next_device(&mut self)
        requires
            old(self).wf(),
        ensures
            final(self).wf(),
            final(self)@ == (TunerModel {
                device_index: if old(self)@.devices.len() > 0 {
                    ((old(self)@.device_index + 1) % old(self)@.devices.len()) as nat
                } else {
                    old(self)@.device_index
                },
                ..old(self)@
            }),
    {
        if self.available_devices.len() > 0 {
            self.selected_device_index = (self.selected_device_index + 1)
                % self.available_devices.len();
        }
    }

    pub fn prev_device(&mut self)
        requires
            old(self).wf(),
        ensures
            final(self).wf(),
            final(self)@ == (TunerModel {
                device_index: if old(self)@.devices.len() == 0 {
                    old(self)@.device_index
                } else if old(self)@.device_index == 0 {
                    (old(self)@.devices.len() - 1) as nat
                } else {
                    (old(self)@.device_index - 1) as nat
                },
                ..old(self)@
            }),
    {
        if self.available_devices.len() > 0 {
            self.selected_device_index = if self.selected_device_index == 0 {
                self.available_devices.len() - 1
            } else {
                self.selected_device_index - 1
            };
        }
    }

    /// Takes a fresh device list; a selection past its end returns to the first device.
    pub fn refresh_devices(&mut self, devices: Vec<String>)
        requires
            old(self).wf(),
        ensures
            final(self).wf(),
            final(self)@ == (TunerModel {
                devices: string_views(devices@),
                device_index: if old(self)@.device_index >= devices@.len() {
                    0
                } else {
                    old(self)@.device_index
                },
                ..old(self)@
            }),
    {
        self.available_devices = devices;
        if self.selected_device_index >= self.available_devices.len() {
            self.selected_device_index = 0;
        }
    }

    fn chosen_device_name(&self) -> (d: Option<String>)
        ensures
            d is Some == chosen_device(self@) is Some,
            d matches Some(n) ==> n@ == chosen_device(self@)->0,
    {
        match self.selected_device() {
            Some(n) => Some(owned(n)),
            None => None,
        }
    }

    /// Begins opening the capture: the error is cleared and the selected
    /// device (or the default one) is to be opened.
    pub fn start_capture(&mut self) -> (device: Option<String>)
        requires
            old(self).wf(),
        ensures
            final(self).wf(),
            final(self)@ == capture_opening(old(self)@),
            device is Some == chosen_device(old(self)@) is Some,
            device matches Some(n) ==> n@ == chosen_device(old(self)@)->0,
    {
        self.error_message = None;
        self.chosen_device_name()
    }

    /// The capture is running at the given sample rate.
    pub fn capture_started(&mut self, sample_rate: u32)
        requires
            old(self).wf(),
        ensures
            final(self).wf(),
            final(self)@ == (TunerModel { capturing: true, sample_rate, ..old(self)@ }),
    {
        self.is_capturing = true;
        self.sample_rate = sample_rate;
    }

    /// The capture could not be opened; `reason` says why.
    pub fn capture_failed(&mut self, reason: &str)
        requires
            old(self).wf(),
        ensures
            final(self).wf(),
            final(self)@ == (TunerModel {
                capturing: false,
                error: Some("Failed to start: "@ + reason@),
                ..old(self)@
            }),
    {
        let mut m = owned("Failed to start: ");
        m.append(reason);
        self.error_message = Some(m);
        self.is_capturing = false;
    }

    /// The capture is closed.
    pub fn stop_capture(&mut self)
        requires
            old(self).wf(),
        ensures
            final(self).wf(),
            final(self)@ == capture_closed(old(self)@),
    {
        self.is_capturing = false;
    }

    /// Closes the capture while capturing, else begins opening it.
    pub fn toggle_capture(&mut self) -> (action: CaptureAction)
        requires
            old(self).wf(),
        ensures
            final(self).wf(),
            old(self)@.capturing ==> final(self)@ == capture_closed(old(self)@)
                && action is Stop,
            !old(self)@.capturing ==> final(self)@ == capture_opening(old(self)@),
            !old(self)@.capturing ==> (action matches CaptureAction::Start(d) && opt_names_agree(
                d,
                chosen_device(old(self)@),
            )),
    {
        if self.is_capturing {
            self.stop_capture();
            CaptureAction::Stop
        } else {
            CaptureAction::Start(self.start_capture())
        }
    }

    /// Moves the gain by `up` (one half step up) or down, within 0 to 20 half
    /// steps. When the gain changed while capturing, the capture is to be
    /// reopened with it.
    fn adjust_input_gain(&mut self, up: bool) -> (action: CaptureAction)
        requires
            old(self).wf(),
        ensures
            final(self).wf(),
            gain_adjusted(old(self)@, final(self)@, action, up),
    {
        let new_gain = if up {
            if self.input_gain_steps < INPUT_GAIN_MAX_STEPS {
                self.input_gain_steps + 1
            } else {
                INPUT_GAIN_MAX_STEPS
            }
        } else {
            if self.input_gain_steps > 0 {
                self.input_gain_steps - 1
            } else {
                0
            }
        };
        if new_gain == self.input_gain_steps {
            return CaptureAction::Nothing;
        }
        self.input_gain_steps = new_gain;
        if self.is_capturing {
            self.stop_capture();
            let device = self.start_capture();
            CaptureAction::Restart(device)
        } else {
            CaptureAction::Nothing
        }
    }

    pub fn increase_input_gain(&mut self) -> (action: CaptureAction)
        requires
            old(self).wf(),
        ensures
            final(self).wf(),
            gain_adjusted(old(self)@, final(self)@, action, true),
    {
        self.adjust_input_gain(true)
    }

    pub fn decrease_input_gain(&mut self) -> (action: CaptureAction)
        requires
            old(self).wf(),
        ensures
            final(self).wf(),
            gain_adjusted(old(self)@, final(self)@, action, false),
    {
        self.adjust_input_gain(false)
    }
}

pub open spec fn opt_names_agree(d: Option<String>, n: Option<Seq<char>>) -> bool {
    match (d, n) {
        (Some(a), Some(b)) => a@ == b,
        (None, None) => true,
        _ => false,
    }
}

/// The gain one half step up or down, kept within 0 to 20 half steps.
pub open spec fn next_gain(steps: nat, up: bool) -> nat {
    if up {
        if steps < INPUT_GAIN_MAX_STEPS {
            steps + 1
        } else {
            INPUT_GAIN_MAX_STEPS as nat
        }
    } else {
        if steps > 0 {
            (steps - 1) as nat
        } else {
            0
        }
    }
}

/// How the state and the capture follow a gain change.
pub open spec fn gain_adjusted(before: TunerModel, after: TunerModel, action: CaptureAction, up: bool) -> bool {
    let g = next_gain(before.gain_steps, up);
    if g == before.gain_steps {
        after == before && action is Nothing
    } else if before.capturing {
        &&& after == capture_opening(capture_closed(TunerModel { gain_steps: g, ..before }))
        &&& action matches CaptureAction::Restart(d) && opt_names_agree(d, chosen_device(before))
    } else {
        after == (TunerModel { gain_steps: g, ..before }) && action is Nothing
    }
}

// ---------------------------------------------------------------------------
// Sample buffers
// ---------------------------------------------------------------------------

/// The last `capacity` items of `buffer` followed by `samples` (all of them
/// when they fit).
pub open spec fn latest<T>(buffer: Seq<T>, samples: Seq<T>, capacity: nat) -> Seq<T> {
    let all = buffer + samples;
    if all.len() > capacity {
        all.skip(all.len() - capacity)
    } else {
        all
    }
}

/// Appends samples to a buffer and drops the oldest ones beyond `capacity`.
/// Nothing changes when there are no samples.
pub fn keep_latest<T: Copy>(buffer: &mut Vec<T>, samples: &[T], capacity: usize)
    ensures
        samples@.len() == 0 ==> final(buffer)@ == old(buffer)@,
        samples@.len() > 0 ==> final(buffer)@ == latest(old(buffer)@, samples@, capacity as nat),
{
    if samples.len() == 0 {
        return;
    }
    let mut i: usize = 0;
    while i < samples.len()
        invariant
            i <= samples@.len(),
            buffer@ == old(buffer)@ + samples@.take(i as int),
        decreases samples.len() - i,
    {
        buffer.push(samples[i]);
        i = i + 1;
        assert(buffer@ =~= old(buffer)@ + samples@.take(i as int));
    }
    assert(samples@.take(samples@.len() as int) =~= samples@);
    if buffer.len() > capacity {
        let overflow = buffer.len() - capacity;
        let mut kept: Vec<T> = Vec::new();
        let mut k: usize = overflow;
        while k < buffer.len()
            invariant
                overflow <= k <= buffer.len(),
                kept@ == buffer@.subrange(overflow as int, k as int),
            decreases buffer.len() - k,
        {
            kept.push(buffer[k]);
            k = k + 1;
            assert(kept@ =~= buffer@.subrange(overflow as int, k as int));
        }
        assert(kept@ =~= buffer@.skip(overflow as int));
        *buffer = kept;
    }
}

/// Every `step`-th item, starting with the first (`Iterator::step_by`).
pub open spec fn every_nth<T>(s: Seq<T>, step: nat) -> Seq<T>
    decreases s.len(),
{
    if s.len() == 0 || step == 0 {
        Seq::empty()
    } else if s.len() <= step {
        seq![s[0]]
    } else {
        seq![s[0]] + every_nth(s.skip(step as int), step)
    }
}

/// Every `step`-th sample, starting with the first.
pub fn take_every_nth<T: Copy>(samples: &[T], step: usize) -> (r: Vec<T>)
    requires
        step > 0,
    ensures
        r@ == every_nth(samples@, step as nat),
{
    let mut r: Vec<T> = Vec::new();
    let mut i: usize = 0;
    assert(samples@.skip(0) =~= samples@);
    while i < samples.len()
        invariant
            step > 0,
            i <= samples@.len(),
            r@ + every_nth(samples@.skip(i as int), step as nat) == every_nth(samples@, step as nat),
        decreases samples.len() - i,
    {
        let ghost rest = samples@.skip(i as int);
        r.push(samples[i]);
        if samples.len() - i <= step {
            assert(every_nth(rest, step as nat) =~= seq![samples@[i as int]]);
            assert(samples@.skip(samples@.len() as int) =~= Seq::<T>::empty());
            i = samples.len();
        } else {
            assert(rest.skip(step as int) =~= samples@.skip(i + step));
            i = i + step;
        }
        assert(r@ + every_nth(samples@.skip(i as int), step as nat) =~= every_nth(samples@, step as nat));
    }
    assert(samples@.skip(i as int) =~= Seq::<T>::empty());
    assert(r@ + Seq::<T>::empty() =~= r@);
    r
}

/// The last `size` samples, or the samples preceded by `fill` up to `size`.
pub open spec fn window<T>(samples: Seq<T>, size: nat, fill: T) -> Seq<T> {
    if samples.len() >= size {
        samples.skip(samples.len() - size)
    } else {
        Seq::new((size - samples.len()) as nat, |i: int| fill) + samples
    }
}

/// The analysis window: the last `size` samples, padded in front with `fill`
/// when there are fewer.
pub fn fill_window<T: Copy>(samples: &[T], size: usize, fill: T) -> (w: Vec<T>)
    ensures
        w@ == window(samples@, size as nat, fill),
{
    let mut w: Vec<T> = Vec::new();
    let start: usize;
    if samples.len() >= size {
        start = samples.len() - size;
    } else {
        let pad = size - samples.len();
        let mut k: usize = 0;
        while k < pad
            invariant
                k <= pad,
                w@ =~= Seq::new(k as nat, |i: int| fill),
            decreases pad - k,
        {
            w.push(fill);
            k = k + 1;
        }
        start = 0;
    }
    let ghost prefix = w@;
    let mut i: usize = start;
    while i < samples.len()
        invariant
            start <= i <= samples@.len(),
            w@ == prefix + samples@.subrange(start as int, i as int),
        decreases samples.len() - i,
    {
        w.push(samples[i]);
        i = i + 1;
        assert(w@ =~= prefix + samples@.subrange(start as int, i as int));
    }
    assert(w@ =~= window(samples@, size as nat, fill));
    w
}

} // verus!
