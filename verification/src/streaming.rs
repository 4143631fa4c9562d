use vstd::prelude::*;

verus! {

/// The sample rate the recogniser works at, in samples per second.
pub const SAMPLE_RATE: usize = 16000;

/// The length of one voice-activity window: 100 ms.
pub const WINDOW: usize = 1600;

/// The distance between consecutive windows: half a window.
pub const STEP: usize = 800;

/// A stretch of speech ends only more than this many samples (2 s) after it began.
pub const MIN_SILENCE_SAMPLES: usize = 32000;

/// The shortest stretch of speech that is transcribed: 1 s.
pub const MIN_SPEECH_SAMPLES: usize = 16000;

/// The most context tokens kept before the older half is dropped.
pub const MAX_CONTEXT_TOKENS: usize = 224;

/// The audio kept for context: 60 s.
pub const BUFFER_KEEP: usize = 960000;

/// The stretch checked for recent speech: 500 ms.
pub const RECENT_SAMPLES: usize = 8000;

/// A stretch of the audio buffer, in samples.
#[derive(Clone, Copy, Debug, PartialEq, Eq, Structural)]
pub struct SampleSpan {
    pub start: usize,
    pub end: usize,
}

/// The number of windows that fit from `start` to the end of a buffer of `len` samples,
/// `STEP` apart.
pub open spec fn window_count(len: int, start: int) -> int {
    if start + WINDOW <= len {
        (len - WINDOW - start) / (STEP as int) + 1
    } else {
        0
    }
}

/// The state of the voice-activity scan.
pub struct VadScan {
    pub in_speech: bool,
    pub speech_start: int,
    pub last_speech_end: Option<int>,
    pub spans: Seq<SampleSpan>,
}

/// One window of the scan, at sample `i`: a loud window starts speech; a quiet window
/// more than `MIN_SILENCE_SAMPLES` after the speech began ends it, and the speech is kept
/// when it lasted at least `MIN_SPEECH_SAMPLES`.
pub open spec fn vad_step(s: VadScan, i: int, loud: bool) -> VadScan {
    if loud {
        if !s.in_speech {
            VadScan { in_speech: true, speech_start: i, ..s }
        } else {
            s
        }
    } else if s.in_speech && i > s.speech_start + MIN_SILENCE_SAMPLES {
        if i - s.speech_start >= MIN_SPEECH_SAMPLES {
            VadScan {
                in_speech: false,
                last_speech_end: Some(i),
                spans: s.spans.push(SampleSpan { start: s.speech_start as usize, end: i as usize }),
                ..s
            }
        } else {
            VadScan { in_speech: false, ..s }
        }
    } else {
        s
    }
}

/// The scan over windows starting at `start`, `STEP` apart, with the given loudness.
pub open spec fn vad_scan(s: VadScan, start: int, loud: Seq<bool>) -> VadScan
    decreases loud.len(),
{
    if loud.len() == 0 {
        s
    } else {
        vad_step(vad_scan(s, start, loud.drop_last()), start + (loud.len() - 1) * STEP, loud.last())
    }
}

/// The context after new tokens: when longer than `MAX_CONTEXT_TOKENS`, the first half of
/// that many is dropped.
pub open spec fn trim_context(c: Seq<i32>) -> Seq<i32> {
    if c.len() > MAX_CONTEXT_TOKENS {
        c.skip((MAX_CONTEXT_TOKENS / 2) as int)
    } else {
        c
    }
}

/// Whether the windows of the last 500 ms hold speech: more than 30% of them are loud.
pub open spec fn recent_speech(loud: Seq<bool>) -> bool {
    loud.len() > 0 && 10 * loud.filter(|b: bool| b).len() > 3 * loud.len()
}

/// The streaming session's speech detection and bookkeeping, over an audio buffer the
/// surroundings keep: it says which windows to measure, which stretches to transcribe
/// and when, and keeps the recogniser's context.
pub struct StreamingVad {
    buffer_len: usize,
    in_speech: bool,
    speech_start: usize,
    last_transcribed: usize,
    last_speech_end: Option<usize>,
    context_tokens: Vec<i32>,
    pending: Vec<SampleSpan>,
}

/// The session's state as the specification sees it.
pub struct StreamingView {
    pub buffer_len: int,
    pub in_speech: bool,
    pub speech_start: int,
    pub last_transcribed: int,
    pub last_speech_end: Option<int>,
    pub context: Seq<i32>,
    pub pending: Seq<SampleSpan>,
}

pub open spec fn opt_int(o: Option<usize>) -> Option<int> {
    match o {
        Some(v) => Some(v as int),
        None => None,
    }
}

impl View for StreamingVad {
    type V = StreamingView;

    closed spec fn view(&self) -> StreamingView {
        StreamingView {
            buffer_len: self.buffer_len as int,
            in_speech: self.in_speech,
            speech_start: self.speech_start as int,
            last_transcribed: self.last_transcribed as int,
            last_speech_end: opt_int(self.last_speech_end),
            context: self.context_tokens@,
            pending: self.pending@,
        }
    }
}

impl StreamingVad {
    /// A session with an empty buffer, no speech, no context and nothing pending.
    pub fn new() -> (s: StreamingVad)
        ensures
            s@ == (StreamingView {
                buffer_len: 0,
                in_speech: false,
                speech_start: 0,
                last_transcribed: 0,
                last_speech_end: None,
                context: Seq::<i32>::empty(),
                pending: Seq::<SampleSpan>::empty(),
            }),
    {
        StreamingVad {
            buffer_len: 0,
            in_speech: false,
            speech_start: 0,
            last_transcribed: 0,
            last_speech_end: None,
            context_tokens: Vec::new(),
            pending: Vec::new(),
        }
    }

    /// The number of samples in the buffer.
    pub fn buffer_len(&self) -> (n: usize)
        ensures
            n == self@.buffer_len,
    {
        self.buffer_len
    }

    /// The context tokens.
    pub fn get_context_tokens(&self) -> (r: Vec<i32>)
        ensures
            r@ == self@.context,
    {
        self.context_tokens.clone()
    }

    /// Notes `n` more samples at the end of the buffer.
    pub fn append(&mut self, n: usize)
        requires
            old(self)@.buffer_len + n <= usize::MAX,
        ensures
            final(self)@ == (StreamingView { buffer_len: old(self)@.buffer_len + n, ..old(self)@ }),
    {
        self.buffer_len = self.buffer_len + n;
    }

    /// Where the windows to scan start: from the last transcribed sample, `STEP` apart,
    /// as long as a whole window fits in the buffer.
    pub fn scan_positions(&self) -> (r: Vec<usize>)
        ensures
            r@.len() == window_count(self@.buffer_len, self@.last_transcribed),
            forall|k: int| 0 <= k < r@.len() ==> r@[k] == self@.last_transcribed + k * STEP,
    {
        let mut r: Vec<usize> = Vec::new();
        if self.last_transcribed > self.buffer_len || self.buffer_len - self.last_transcribed < WINDOW {
            return r;
        }
        let mut i: usize = self.last_transcribed;
        let ghost n = window_count(self.buffer_len as int, self.last_transcribed as int);
        while i <= self.buffer_len - WINDOW
            invariant
                self.last_transcribed <= i,
                WINDOW <= self.buffer_len,
                (i - self.last_transcribed) % (STEP as int) == 0,
                r@.len() == (i - self.last_transcribed) / (STEP as int),
                r@.len() <= n,
                n == window_count(self.buffer_len as int, self.last_transcribed as int),
                i <= self.buffer_len - WINDOW + STEP,
                forall|k: int| 0 <= k < r@.len() ==> r@[k] == self.last_transcribed + k * STEP,
            decreases self.buffer_len + STEP - i,
        {
            r.push(i);
            i = i + STEP;
        }
        r
    }

    /// Scans the windows of `scan_positions`, given which of them are loud, and gives
    /// the stretches of speech that ended.
    pub fn detect_segments(&mut self, loud: &[bool]) -> (spans: Vec<SampleSpan>)
        requires
            loud@.len() == window_count(old(self)@.buffer_len, old(self)@.last_transcribed),
        ensures
            ({
                let s = vad_scan(
                    VadScan {
                        in_speech: old(self)@.in_speech,
                        speech_start: old(self)@.speech_start,
                        last_speech_end: old(self)@.last_speech_end,
                        spans: Seq::<SampleSpan>::empty(),
                    },
                    old(self)@.last_transcribed,
                    loud@,
                );
                &&& spans@ == s.spans
                &&& final(self)@ == (StreamingView {
                    in_speech: s.in_speech,
                    speech_start: s.speech_start,
                    last_speech_end: s.last_speech_end,
                    ..old(self)@
                })
            }),
    {
        let ghost start = self.last_transcribed as int;
        let ghost s0 = VadScan {
            in_speech: self.in_speech,
            speech_start: self.speech_start as int,
            last_speech_end: opt_int(self.last_speech_end),
            spans: Seq::<SampleSpan>::empty(),
        };
        let ghost old_view = self@;
        let mut spans: Vec<SampleSpan> = Vec::new();
        let mut k: usize = 0;
        while k < loud.len()
            invariant
                k <= loud@.len(),
                loud@.len() == window_count(self.buffer_len as int, start),
                start == self.last_transcribed,
                old_view == (StreamingView {
                    in_speech: old_view.in_speech,
                    speech_start: old_view.speech_start,
                    last_speech_end: old_view.last_speech_end,
                    ..self@
                }),
                ({
                    let s = vad_scan(s0, start, loud@.take(k as int));
                    &&& spans@ == s.spans
                    &&& self.in_speech == s.in_speech
                    &&& self.speech_start == s.speech_start
                    &&& opt_int(self.last_speech_end) == s.last_speech_end
                }),
            decreases loud@.len() - k,
        {
            proof {
                assert(loud@.take(k + 1).drop_last() =~= loud@.take(k as int));
                assert(k * STEP + start + WINDOW <= self.buffer_len) by (nonlinear_arith)
                    requires
                        k < (self.buffer_len - WINDOW - start) / (STEP as int) + 1,
                        start + WINDOW <= self.buffer_len,
                        STEP == 800,
                ;
            }
            let i: usize = self.last_transcribed + k * STEP;
            if loud[k] {
                if !self.in_speech {
                    self.in_speech = true;
                    self.speech_start = i;
                }
            } else if self.in_speech && i > MIN_SILENCE_SAMPLES && i - MIN_SILENCE_SAMPLES > self.speech_start {
                if i - self.speech_start >= MIN_SPEECH_SAMPLES {
                    spans.push(SampleSpan { start: self.speech_start, end: i });
                    self.last_speech_end = Some(i);
                }
                self.in_speech = false;
            }
            k = k + 1;
        }
        assert(loud@.take(loud@.len() as int) =~= loud@);
        spans
    }

    /// Where the windows of the last 500 ms start: from `RECENT_SAMPLES` before the end
    /// (or the start of a shorter buffer), `STEP` apart, as long as a whole window fits.
    pub fn recent_positions(&self) -> (r: Vec<usize>)
        ensures
            ({
                let recent = if self@.buffer_len < RECENT_SAMPLES { self@.buffer_len } else { RECENT_SAMPLES as int };
                let start = self@.buffer_len - recent;
                &&& r@.len() == window_count(self@.buffer_len, start)
                &&& forall|k: int| 0 <= k < r@.len() ==> r@[k] == start + k * STEP
            }),
    {
        let recent = if self.buffer_len < RECENT_SAMPLES { self.buffer_len } else { RECENT_SAMPLES };
        let start = self.buffer_len - recent;
        let mut r: Vec<usize> = Vec::new();
        if recent < WINDOW {
            return r;
        }
        let mut i: usize = start;
        let ghost n = window_count(self.buffer_len as int, start as int);
        while i <= self.buffer_len - WINDOW
            invariant
                start <= i,
                start + recent == self.buffer_len,
                WINDOW <= recent,
                (i - start) % (STEP as int) == 0,
                r@.len() == (i - start) / (STEP as int),
                r@.len() <= n,
                n == window_count(self.buffer_len as int, start as int),
                i <= self.buffer_len - WINDOW + STEP,
                forall|k: int| 0 <= k < r@.len() ==> r@[k] == start + k * STEP,
            decreases self.buffer_len + STEP - i,
        {
            r.push(i);
            i = i + STEP;
        }
        r
    }

    /// Decides what to do with the stretches that just ended: while speech goes on they
    /// wait in the queue, and none is transcribed now; otherwise all are transcribed now.
    pub fn route_segments(&mut self, spans: Vec<SampleSpan>, recent_speech: bool) -> (now: Vec<SampleSpan>)
        ensures
            recent_speech ==> now@.len() == 0 && final(self)@ == (StreamingView {
                pending: old(self)@.pending + spans@,
                ..old(self)@
            }),
            !recent_speech ==> now@ == spans@ && final(self)@ == old(self)@,
    {
        if recent_speech {
            let ghost before = self.pending@;
            let ghost v0 = self@;
            let mut i: usize = 0;
            while i < spans.len()
                invariant
                    i <= spans@.len(),
                    self.pending@ == before + spans@.take(i as int),
                    self@ == (StreamingView { pending: self.pending@, ..v0 }),
                decreases spans@.len() - i,
            {
                self.pending.push(spans[i]);
                i = i + 1;
                assert(self.pending@ =~= before + spans@.take(i as int));
            }
            assert(spans@.take(spans@.len() as int) =~= spans@);
            Vec::new()
        } else {
            spans
        }
    }

    /// Notes that a stretch ending at `end` was transcribed to a non-empty text with
    /// these tokens: the tokens join the context, which is trimmed, and the stretch's end
    /// becomes the last transcribed sample.
    pub fn record_transcript(&mut self, end: usize, tokens: &[i32])
        ensures
            final(self)@ == (StreamingView {
                context: trim_context(old(self)@.context + tokens@),
                last_transcribed: end as int,
                ..old(self)@
            }),
    {
        let ghost before = self.context_tokens@;
        let ghost v0 = self@;
        let mut i: usize = 0;
        while i < tokens.len()
            invariant
                i <= tokens@.len(),
                self.context_tokens@ == before + tokens@.take(i as int),
                self@ == (StreamingView { context: self.context_tokens@, ..v0 }),
            decreases tokens@.len() - i,
        {
            self.context_tokens.push(tokens[i]);
            i = i + 1;
            assert(self.context_tokens@ =~= before + tokens@.take(i as int));
        }
        assert(tokens@.take(tokens@.len() as int) =~= tokens@);
        if self.context_tokens.len() > MAX_CONTEXT_TOKENS {
            let keep = MAX_CONTEXT_TOKENS / 2;
            let mut rest: Vec<i32> = Vec::new();
            let mut j: usize = keep;
            while j < self.context_tokens.len()
                invariant
                    self@ == (StreamingView { context: self.context_tokens@, ..v0 }),
                    keep <= j <= self.context_tokens@.len(),
                    keep == 112,
                    rest@ == self.context_tokens@.subrange(keep as int, j as int),
                decreases self.context_tokens@.len() - j,
            {
                rest.push(self.context_tokens[j]);
                j = j + 1;
                assert(rest@ =~= self.context_tokens@.subrange(keep as int, j as int));
            }
            assert(rest@ =~= self.context_tokens@.skip(112));
            self.context_tokens = rest;
        }
        self.last_transcribed = end;
    }

    /// The oldest waiting stretch, taken from the queue, when no speech goes on.
    pub fn take_pending(&mut self, recent_speech: bool) -> (r: Option<SampleSpan>)
        ensures
            (old(self)@.pending.len() > 0 && !recent_speech) ==> r == Some(old(self)@.pending[0])
                && final(self)@ == (StreamingView { pending: old(self)@.pending.drop_first(), ..old(self)@ }),
            !(old(self)@.pending.len() > 0 && !recent_speech) ==> r is None && final(self)@ == old(self)@,
    {
        if self.pending.len() > 0 && !recent_speech {
            let first = self.pending.remove(0);
            assert(self.pending@ =~= old(self)@.pending.drop_first());
            Some(first)
        } else {
            None
        }
    }

    /// Drops all but the last 60 s of the buffer and moves the positions that point into
    /// it; gives the number of samples dropped, which leave the front of the buffer.
    pub fn trim_buffer(&mut self) -> (removed: usize)
        ensures
            old(self)@.buffer_len > BUFFER_KEEP ==> {
                let rm = old(self)@.buffer_len - BUFFER_KEEP;
                &&& removed == rm
                &&& final(self)@ == (StreamingView {
                    buffer_len: BUFFER_KEEP as int,
                    last_transcribed: if old(self)@.last_transcribed > rm { old(self)@.last_transcribed - rm } else { 0 },
                    last_speech_end: match old(self)@.last_speech_end {
                        Some(e) => Some(if e > rm { e - rm } else { 0 }),
                        None => None,
                    },
                    ..old(self)@
                })
            },
            old(self)@.buffer_len <= BUFFER_KEEP ==> removed == 0 && final(self)@ == old(self)@,
    {
        if self.buffer_len > BUFFER_KEEP {
            let rm = self.buffer_len - BUFFER_KEEP;
            self.buffer_len = BUFFER_KEEP;
            self.last_transcribed = self.last_transcribed.saturating_sub(rm);
            self.last_speech_end = match self.last_speech_end {
                Some(e) => Some(e.saturating_sub(rm)),
                None => None,
            };
            rm
        } else {
            0
        }
    }

    /// The stretch still being spoken when the session ends, if any.
    pub fn finalize(&self) -> (r: Option<SampleSpan>)
        ensures
            (self@.in_speech && self@.buffer_len > self@.speech_start) ==> r == Some(SampleSpan {
                start: self@.speech_start as usize,
                end: self@.buffer_len as usize,
            }),
            !(self@.in_speech && self@.buffer_len > self@.speech_start) ==> r is None,
    {
        if self.in_speech && self.buffer_len > self.speech_start {
            Some(SampleSpan { start: self.speech_start, end: self.buffer_len })
        } else {
            None
        }
    }
}

/// Whether speech goes on: more than 30% of the windows of `recent_positions` are loud.
pub fn has_recent_speech(loud: &[bool]) -> (b: bool)
    ensures
        b == recent_speech(loud@),
{
    let mut high: usize = 0;
    let mut i: usize = 0;
    while i < loud.len()
        invariant
            i <= loud@.len(),
            high == loud@.take(i as int).filter(|b: bool| b).len(),
            high <= i,
        decreases loud@.len() - i,
    {
        proof {
            assert(loud@.take(i + 1).drop_last() =~= loud@.take(i as int));
            loud@.take(i as int).lemma_filter_len_push(|b: bool| b, loud@[i as int]);
            assert(loud@.take(i as int).push(loud@[i as int]) =~= loud@.take(i + 1));
        }
        if loud[i] {
            high = high + 1;
        }
        i = i + 1;
    }
    assert(loud@.take(loud@.len() as int) =~= loud@);
    loud.len() > 0 && (high as u128) * 10 > (loud.len() as u128) * 3
}


/// The stretches are each longer than `MIN_SILENCE_SAMPLES` and come in order, each
/// ending before the next begins.
pub open spec fn spans_ordered(spans: Seq<SampleSpan>) -> bool {
    &&& forall|j: int| 0 <= j < spans.len() ==> (#[trigger] spans[j]).end - spans[j].start > MIN_SILENCE_SAMPLES
    &&& forall|j: int| 0 <= j < spans.len() - 1 ==> (#[trigger] spans[j]).end < spans[j + 1].start
}

proof fn lemma_scan_start_in_range(s: VadScan, start: int, loud: Seq<bool>)
    requires
        0 <= s.speech_start <= usize::MAX,
        0 <= start,
        start + loud.len() * STEP <= usize::MAX,
    ensures
        0 <= vad_scan(s, start, loud).speech_start <= usize::MAX,
    decreases loud.len(),
{
    if loud.len() > 0 {
        lemma_scan_start_in_range(s, start, loud.drop_last());
    }
}

proof fn lemma_scan_ordered(s: VadScan, start: int, loud: Seq<bool>)
    requires
        s.spans.len() == 0,
        0 <= s.speech_start <= usize::MAX,
        0 <= start,
        start + loud.len() * STEP <= usize::MAX,
    ensures
        spans_ordered(vad_scan(s, start, loud).spans),
        loud.len() > 0 && vad_scan(s, start, loud).spans.len() > 0 ==> vad_scan(s, start, loud).spans.last().end
            <= start + (loud.len() - 1) * STEP,
        loud.len() > 0 && vad_scan(s, start, loud).spans.len() > 0 && vad_scan(s, start, loud).in_speech
            ==> vad_scan(s, start, loud).speech_start > vad_scan(s, start, loud).spans.last().end,
    decreases loud.len(),
{
    if loud.len() > 0 {
        let prev = vad_scan(s, start, loud.drop_last());
        lemma_scan_ordered(s, start, loud.drop_last());
        lemma_scan_start_in_range(s, start, loud.drop_last());
        let i = start + (loud.len() - 1) * STEP;
        let next = vad_step(prev, i, loud.last());
        if loud.len() > 1 && prev.spans.len() > 0 {
            assert(prev.spans.last().end <= start + (loud.len() - 2) * STEP);
        }
        if next.spans.len() > prev.spans.len() {
            let sp = next.spans;
            assert(sp.drop_last() =~= prev.spans);
            assert forall|j: int| 0 <= j < sp.len() - 1 implies (#[trigger] sp[j]).end < sp[j + 1].start by {
                if j < sp.len() - 2 {
                    assert(sp[j] == prev.spans[j]);
                    assert(sp[j + 1] == prev.spans[j + 1]);
                } else {
                    assert(sp[j] == prev.spans.last());
                }
            }
            assert forall|j: int| 0 <= j < sp.len() implies (#[trigger] sp[j]).end - sp[j].start > MIN_SILENCE_SAMPLES by {
                if j < sp.len() - 1 {
                    assert(sp[j] == prev.spans[j]);
                }
            }
        }
    }
}

/// Every stretch of speech the scan reports lasted more than two seconds, and the
/// stretches come in order without overlapping.
pub proof fn lemma_detected_spans_ordered(in_speech: bool, speech_start: int, last_speech_end: Option<int>, start: int, loud: Seq<bool>)
    requires
        0 <= speech_start <= usize::MAX,
        0 <= start,
        start + loud.len() * STEP <= usize::MAX,
    ensures
        spans_ordered(
            vad_scan(
                VadScan { in_speech, speech_start, last_speech_end, spans: Seq::<SampleSpan>::empty() },
                start,
                loud,
            ).spans,
        ),
{
    lemma_scan_ordered(
        VadScan { in_speech, speech_start, last_speech_end, spans: Seq::<SampleSpan>::empty() },
        start,
        loud,
    );
}

} // verus!
