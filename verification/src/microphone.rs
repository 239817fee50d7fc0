//! MP45DT02 MEMS microphone with PDM output.
//!
//! The driver keeps the clock rate chosen for the microphone and says how
//! long to wait when recording starts and stops. Capture is not built yet:
//! what is handed out as samples is a fixed ramp.

use crate::bus::Request;
use vstd::prelude::*;

verus! {

/// Time to wait after recording is started, in milliseconds.
pub const START_DELAY_MS: u32 = 10;

/// Time to wait after the clock is stopped, in milliseconds.
pub const STOP_DELAY_MS: u32 = 1;

/// The most samples that one call hands out.
pub const MAX_SAMPLES: usize = 328;

/// PDM clock frequencies.
#[derive(Debug, Clone, Copy, PartialEq, Eq, Structural)]
pub enum SampleRate {
    /// 1.0 MHz
    MHz1,
    /// 2.4 MHz (typical)
    MHz2_4,
    /// 3.2 MHz
    MHz3_2,
}

impl SampleRate {
    /// The clock frequency in hertz.
    pub open spec fn spec_hertz(self) -> u32 {
        match self {
            SampleRate::MHz1 => 1_000_000,
            SampleRate::MHz2_4 => 2_400_000,
            SampleRate::MHz3_2 => 3_200_000,
        }
    }

    /// The clock frequency in hertz.
    #[verifier::when_used_as_spec(spec_hertz)]
    pub fn hertz(self) -> (hertz: u32)
        ensures
            hertz == self.spec_hertz(),
    {
        match self {
            SampleRate::MHz1 => 1_000_000,
            SampleRate::MHz2_4 => 2_400_000,
            SampleRate::MHz3_2 => 3_200_000,
        }
    }
}

/// The sample at position `index` of the ramp that stands in for captured
/// audio.
pub open spec fn ramp(index: int) -> int {
    (index * 100) % 32767
}

/// The driver of one MP45DT02.
#[derive(Debug)]
pub struct MP45DT02 {
    sample_rate: SampleRate,
}

impl View for MP45DT02 {
    type V = SampleRate;

    closed spec fn view(&self) -> SampleRate {
        self.sample_rate
    }
}

impl MP45DT02 {
    /// A driver for a microphone clocked at 2.4 MHz.
    pub fn new() -> (microphone: MP45DT02)
        ensures
            microphone@ == SampleRate::MHz2_4,
    {
        MP45DT02 { sample_rate: SampleRate::MHz2_4 }
    }

    /// The clock rate chosen.
    pub fn sample_rate(&self) -> (rate: SampleRate)
        ensures
            rate == self@,
    {
        self.sample_rate
    }

    /// Chooses the clock rate.
    pub fn set_sample_rate(&mut self, rate: SampleRate)
        ensures
            final(self)@ == rate,
    {
        self.sample_rate = rate;
    }

    /// Starts recording: gives the wait that follows.
    pub fn start_recording(&mut self) -> (request: Request)
        ensures
            final(self)@ == old(self)@,
            request == (Request::Delay { millis: START_DELAY_MS }),
    {
        Request::Delay { millis: START_DELAY_MS }
    }

    /// Stops recording: gives the wait that follows once the caller has
    /// pulled the clock line low.
    pub fn stop_recording(&mut self) -> (request: Request)
        ensures
            final(self)@ == old(self)@,
            request == (Request::Delay { millis: STOP_DELAY_MS }),
    {
        Request::Delay { millis: STOP_DELAY_MS }
    }

    /// Fills the buffer with samples and says how many were written: all
    /// of it, with the ramp. The buffer holds [`MAX_SAMPLES`] samples at
    /// most, which is as far as the ramp goes in sixteen bits.
    pub fn read_samples(&mut self, buffer: &mut Vec<i16>) -> (count: usize)
        requires
            old(buffer).len() <= MAX_SAMPLES,
        ensures
            final(self)@ == old(self)@,
            count == old(buffer).len(),
            final(buffer).len() == count,
            forall|i: int| 0 <= i < count ==> #[trigger] final(buffer)[i] == ramp(i),
            forall|i: int| 0 <= i < count ==> #[trigger] final(buffer)[i] == 100 * i,
    {
        let count: usize = buffer.len();
        let mut index: usize = 0;
        while index < count
            invariant
                index <= count,
                count <= MAX_SAMPLES,
                buffer.len() == count,
                forall|i: int| 0 <= i < index ==> #[trigger] buffer[i] == ramp(i),
                forall|i: int| 0 <= i < index ==> #[trigger] buffer[i] == 100 * i,
            decreases count - index,
        {
            let sample: i16 = ((index as i16) * 100) % 32767;
            buffer.set(index, sample);
            index = index + 1;
        }
        count
    }
}

} // verus!
