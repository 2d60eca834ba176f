use vstd::prelude::*;

use crate::error::CaptureError;

verus! {

/// The part boundary, `--frame` and a line break.
pub open spec fn boundary_line() -> Seq<u8> {
    seq![
        45u8, 45, 102, 114, 97, 109, 101, 13, 10,
    ]
}

fn boundary_line_bytes() -> (r: Vec<u8>)
    ensures
        r@ == boundary_line(),
{
    let r: Vec<u8> = vec![
        45u8, 45, 102, 114, 97, 109, 101, 13, 10,
    ];
    assert(r@ =~= boundary_line());
    r
}

/// The content-type line of an image part.
pub open spec fn jpeg_type_line() -> Seq<u8> {
    seq![
        67u8, 111, 110, 116, 101, 110, 116, 45, 84, 121, 112, 101, 58, 32,
        105, 109, 97, 103, 101, 47, 106, 112, 101, 103, 13, 10,
    ]
}

fn jpeg_type_line_bytes() -> (r: Vec<u8>)
    ensures
        r@ == jpeg_type_line(),
{
    let r: Vec<u8> = vec![
        67u8, 111, 110, 116, 101, 110, 116, 45, 84, 121, 112, 101, 58, 32,
        105, 109, 97, 103, 101, 47, 106, 112, 101, 103, 13, 10,
    ];
    assert(r@ =~= jpeg_type_line());
    r
}

/// The start of the length header of an image part.
pub open spec fn length_prefix() -> Seq<u8> {
    seq![
        67u8, 111, 110, 116, 101, 110, 116, 45, 76, 101, 110, 103, 116, 104,
        58, 32,
    ]
}

fn length_prefix_bytes() -> (r: Vec<u8>)
    ensures
        r@ == length_prefix(),
{
    let r: Vec<u8> = vec![
        67u8, 111, 110, 116, 101, 110, 116, 45, 76, 101, 110, 103, 116, 104,
        58, 32,
    ];
    assert(r@ =~= length_prefix());
    r
}

/// The end of the last header line and the blank line after it.
pub open spec fn header_end() -> Seq<u8> {
    seq![
        13u8, 10, 13, 10,
    ]
}

fn header_end_bytes() -> (r: Vec<u8>)
    ensures
        r@ == header_end(),
{
    let r: Vec<u8> = vec![
        13u8, 10, 13, 10,
    ];
    assert(r@ =~= header_end());
    r
}

/// A line break.
pub open spec fn line_end() -> Seq<u8> {
    seq![
        13u8, 10,
    ]
}

fn line_end_bytes() -> (r: Vec<u8>)
    ensures
        r@ == line_end(),
{
    let r: Vec<u8> = vec![
        13u8, 10,
    ];
    assert(r@ =~= line_end());
    r
}

/// The content-type line of an error part.
pub open spec fn text_type_line() -> Seq<u8> {
    seq![
        67u8, 111, 110, 116, 101, 110, 116, 45, 84, 121, 112, 101, 58, 32,
        116, 101, 120, 116, 47, 112, 108, 97, 105, 110, 13, 10,
    ]
}

fn text_type_line_bytes() -> (r: Vec<u8>)
    ensures
        r@ == text_type_line(),
{
    let r: Vec<u8> = vec![
        67u8, 111, 110, 116, 101, 110, 116, 45, 84, 121, 112, 101, 58, 32,
        116, 101, 120, 116, 47, 112, 108, 97, 105, 110, 13, 10,
    ];
    assert(r@ =~= text_type_line());
    r
}

/// The payload of an error part, `camera-error`.
pub open spec fn error_body() -> Seq<u8> {
    seq![
        99u8, 97, 109, 101, 114, 97, 45, 101, 114, 114, 111, 114,
    ]
}

fn error_body_bytes() -> (r: Vec<u8>)
    ensures
        r@ == error_body(),
{
    let r: Vec<u8> = vec![
        99u8, 97, 109, 101, 114, 97, 45, 101, 114, 114, 111, 114,
    ];
    assert(r@ =~= error_body());
    r
}

/// The decimal digits of `n`, most significant first, without leading zeros.
pub open spec fn decimal(n: nat) -> Seq<u8>
    decreases n,
{
    if n < 10 {
        seq![(48 + n) as u8]
    } else {
        decimal(n / 10).push((48 + n % 10) as u8)
    }
}

/// The multipart part that carries one JPEG frame.
pub open spec fn jpeg_part(frame: Seq<u8>) -> Seq<u8> {
    boundary_line() + jpeg_type_line() + length_prefix() + decimal(frame.len()) + header_end() + frame
        + line_end()
}

/// The multipart part that stands in for a frame that could not be captured.
pub open spec fn error_part() -> Seq<u8> {
    boundary_line() + text_type_line() + length_prefix() + decimal(error_body().len()) + header_end()
        + error_body() + line_end()
}

/// The part emitted for the outcome of one capture.
pub open spec fn part_for(result: Result<Vec<u8>, CaptureError>) -> Seq<u8> {
    match result {
        Ok(frame) => jpeg_part(frame@),
        Err(_) => error_part(),
    }
}

fn append(out: &mut Vec<u8>, bytes: &Vec<u8>)
    ensures
        final(out)@ == old(out)@ + bytes@,
{
    let mut i: usize = 0;
    while i < bytes.len()
        invariant
            i <= bytes@.len(),
            out@ == old(out)@ + bytes@.subrange(0, i as int),
        decreases bytes@.len() - i,
    {
        out.push(bytes[i]);
        i = i + 1;
        assert(bytes@.subrange(0, i as int) =~= bytes@.subrange(0, i - 1).push(bytes@[i - 1]));
    }
    assert(bytes@.subrange(0, i as int) =~= bytes@);
}

fn append_decimal(out: &mut Vec<u8>, n: usize)
    ensures
        final(out)@ == old(out)@ + decimal(n as nat),
    decreases n,
{
    if n >= 10 {
        append_decimal(out, n / 10);
    }
    out.push((48 + n % 10) as u8);
    assert(out@ =~= old(out)@ + decimal(n as nat));
}

/// Frames one JPEG image as a multipart part: boundary, content type, exact
/// content length, blank line, the image bytes and a line break.
pub fn frame_chunk(frame: &Vec<u8>) -> (r: Vec<u8>)
    ensures
        r@ == jpeg_part(frame@),
{
    let mut out = boundary_line_bytes();
    append(&mut out, &jpeg_type_line_bytes());
    append(&mut out, &length_prefix_bytes());
    append_decimal(&mut out, frame.len());
    append(&mut out, &header_end_bytes());
    append(&mut out, frame);
    append(&mut out, &line_end_bytes());
    assert(out@ =~= jpeg_part(frame@));
    out
}

/// The plain-text part `camera-error` that replaces a failed frame.
pub fn error_chunk() -> (r: Vec<u8>)
    ensures
        r@ == error_part(),
{
    let body = error_body_bytes();
    let mut out = boundary_line_bytes();
    append(&mut out, &text_type_line_bytes());
    append(&mut out, &length_prefix_bytes());
    append_decimal(&mut out, body.len());
    append(&mut out, &header_end_bytes());
    append(&mut out, &body);
    append(&mut out, &line_end_bytes());
    assert(out@ =~= error_part());
    out
}

/// The part for the outcome of one capture.
pub fn chunk_for(result: &Result<Vec<u8>, CaptureError>) -> (r: Vec<u8>)
    ensures
        r@ == part_for(*result),
{
    match result {
        Ok(frame) => frame_chunk(frame),
        Err(_) => error_chunk(),
    }
}

} // verus!

verus! {

/// Nanoseconds per tick for a frame rate given in millihertz; the rate is
/// raised to at least 1 Hz first.
pub open spec fn period_of(frame_rate_millihertz: u64) -> u64 {
    let r = if frame_rate_millihertz < 1000 { 1000 } else { frame_rate_millihertz };
    (1_000_000_000_000u64 / r) as u64
}

/// Computes `period_of`.
pub fn frame_period_nanos(frame_rate_millihertz: u64) -> (r: u64)
    ensures
        r == period_of(frame_rate_millihertz),
{
    let rate: u64 = if frame_rate_millihertz < 1000 { 1000 } else { frame_rate_millihertz };
    1_000_000_000_000u64 / rate
}

/// `a + b`, or `u64::MAX` where that does not fit.
pub open spec fn add_saturating(a: u64, b: u64) -> u64 {
    if a + b > u64::MAX { u64::MAX } else { (a + b) as u64 }
}

/// Where a stream is in its cycle.
#[derive(Clone, Copy, Debug, PartialEq, Eq, Structural)]
pub enum StreamPhase {
    /// Waiting for the next tick.
    Idle,
    /// A capture was requested and its outcome has not been framed yet.
    Emitting,
    /// The consumer went away; no capture is requested again.
    Stopped,
}

/// What the driver of a stream is to do next.
#[derive(Clone, Copy, Debug, PartialEq, Eq, Structural)]
pub enum StreamAction {
    /// Sleep until the clock reads the given time, then poll again.
    WaitUntil(u64),
    /// Capture one frame and hand its outcome to `complete`.
    Capture,
    /// The stream has ended.
    Finished,
}

/// The periodic driver of one stream. Ticks are due at `start + k * period`;
/// a late capture delays the following ticks without skipping or merging any.
/// Times are nanoseconds on any monotonic clock.
#[derive(Clone, Copy, Debug)]
pub struct StreamScheduler {
    period: u64,
    next_tick: u64,
    phase: StreamPhase,
}

impl StreamScheduler {
    /// Nanoseconds between ticks.
    pub closed spec fn tick_period(&self) -> u64 {
        self.period
    }

    /// When the next tick is due.
    pub closed spec fn due(&self) -> u64 {
        self.next_tick
    }

    /// The current phase.
    pub closed spec fn current_phase(&self) -> StreamPhase {
        self.phase
    }

    /// A stream at the given frame rate (in millihertz) whose first tick is due at `start`.
    pub fn new(frame_rate_millihertz: u64, start: u64) -> (r: Self)
        ensures
            r.tick_period() == period_of(frame_rate_millihertz),
            r.due() == start,
            r.current_phase() == StreamPhase::Idle,
    {
        StreamScheduler { period: frame_period_nanos(frame_rate_millihertz), next_tick: start, phase: StreamPhase::Idle }
    }

    /// Nanoseconds between ticks.
    pub fn period(&self) -> (r: u64)
        ensures
            r == self.tick_period(),
    {
        self.period
    }

    /// When the next tick is due.
    pub fn next_tick(&self) -> (r: u64)
        ensures
            r == self.due(),
    {
        self.next_tick
    }

    /// The current phase.
    pub fn phase(&self) -> (r: StreamPhase)
        ensures
            r == self.current_phase(),
    {
        self.phase
    }

    /// Decides what to do at time `now`: capture when the tick is due, else
    /// wait for it; nothing once stopped.
    pub fn poll(&mut self, now: u64) -> (r: StreamAction)
        requires
            old(self).current_phase() != StreamPhase::Emitting,
        ensures
            final(self).tick_period() == old(self).tick_period(),
            old(self).current_phase() == StreamPhase::Stopped ==> r == StreamAction::Finished
                && *final(self) == *old(self),
            old(self).current_phase() == StreamPhase::Idle && now < old(self).due() ==> r
                == StreamAction::WaitUntil(old(self).due()) && *final(self) == *old(self),
            old(self).current_phase() == StreamPhase::Idle && now >= old(self).due() ==> {
                &&& r == StreamAction::Capture
                &&& final(self).current_phase() == StreamPhase::Emitting
                &&& final(self).due() == add_saturating(old(self).due(), old(self).tick_period())
            },
    {
        match self.phase {
            StreamPhase::Idle => {
                if now < self.next_tick {
                    StreamAction::WaitUntil(self.next_tick)
                } else {
                    self.next_tick = self.next_tick.saturating_add(self.period);
                    self.phase = StreamPhase::Emitting;
                    StreamAction::Capture
                }
            },
            _ => StreamAction::Finished,
        }
    }

    /// Frames the outcome of the capture that `poll` asked for and returns to
    /// waiting. A failed capture yields the error part and the stream goes on.
    pub fn complete(&mut self, result: &Result<Vec<u8>, CaptureError>) -> (r: Vec<u8>)
        requires
            old(self).current_phase() == StreamPhase::Emitting,
        ensures
            r@ == part_for(*result),
            final(self).current_phase() == StreamPhase::Idle,
            final(self).due() == old(self).due(),
            final(self).tick_period() == old(self).tick_period(),
    {
        self.phase = StreamPhase::Idle;
        chunk_for(result)
    }

    /// Ends the stream: no capture is requested after this.
    pub fn cancel(&mut self)
        ensures
            final(self).current_phase() == StreamPhase::Stopped,
            final(self).due() == old(self).due(),
            final(self).tick_period() == old(self).tick_period(),
    {
        self.phase = StreamPhase::Stopped;
    }
}

/// At a frame rate of at most 1 Hz, the tick after the one due at `s.due()`
/// is due exactly one second later.
pub proof fn slow_rate_ticks_a_second_apart(s: StreamScheduler, frame_rate_millihertz: u64)
    requires
        frame_rate_millihertz <= 1000,
        s.tick_period() == period_of(frame_rate_millihertz),
        s.due() + 1_000_000_000 <= u64::MAX,
    ensures
        period_of(frame_rate_millihertz) == 1_000_000_000,
        add_saturating(s.due(), s.tick_period()) == s.due() + 1_000_000_000,
{
    assert(1_000_000_000_000int / 1000int == 1_000_000_000int);
}

} // verus!
