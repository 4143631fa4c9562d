use vstd::prelude::*;
use crate::records::{LatencyDataResponse, LatencyHistoryPoint};
use crate::text::str_eq;

verus! {

/// The service whose statistics a record of this recogniser or translator counts for.
pub open spec fn stats_service(processor: Option<Seq<char>>) -> Seq<char> {
    match processor {
        Some(p) => if p == "whisper"@ {
            "whisper_asr"@
        } else if p == "sensevoice"@ {
            "sensevoice_asr"@
        } else if p == "local"@ {
            "local_asr"@
        } else if p == "siliconflow"@ {
            "siliconflow_translation"@
        } else if p == "ollama"@ {
            "ollama_translation"@
        } else {
            "unknown_service"@
        },
        None => "unknown_service"@,
    }
}

/// The service whose latency a record of this recogniser counts for; local by default.
pub open spec fn latency_service(processor: Option<Seq<char>>) -> Seq<char> {
    match processor {
        Some(p) => if p == "whisper"@ || p == "whisper-rs"@ {
            "local_asr"@
        } else if p == "sensevoice"@ {
            "sensevoice_asr"@
        } else if p == "local"@ {
            "local_asr"@
        } else if p == "cloud"@ {
            "cloud_asr"@
        } else {
            "local_asr"@
        },
        None => "local_asr"@,
    }
}

/// The service a record's statistics are kept under.
pub fn stats_service_name(processor_type: Option<&str>) -> (r: &'static str)
    ensures
        r@ == stats_service(match processor_type {
            Some(p) => Some(p@),
            None => None,
        }),
{
    match processor_type {
        Some(p) => if str_eq(p, "whisper") {
            "whisper_asr"
        } else if str_eq(p, "sensevoice") {
            "sensevoice_asr"
        } else if str_eq(p, "local") {
            "local_asr"
        } else if str_eq(p, "siliconflow") {
            "siliconflow_translation"
        } else if str_eq(p, "ollama") {
            "ollama_translation"
        } else {
            "unknown_service"
        },
        None => "unknown_service",
    }
}

/// The service a record's latency is kept under.
pub fn latency_service_name(processor_type: Option<&str>) -> (r: &'static str)
    ensures
        r@ == latency_service(match processor_type {
            Some(p) => Some(p@),
            None => None,
        }),
{
    match processor_type {
        Some(p) => if str_eq(p, "whisper") || str_eq(p, "whisper-rs") {
            "local_asr"
        } else if str_eq(p, "sensevoice") {
            "sensevoice_asr"
        } else if str_eq(p, "local") {
            "local_asr"
        } else if str_eq(p, "cloud") {
            "cloud_asr"
        } else {
            "local_asr"
        },
        None => "local_asr",
    }
}

/// The status a record marks its service with.
pub fn service_status_for(success: bool) -> (r: &'static str)
    ensures
        r@ == (if success {
            "online"@
        } else {
            "error"@
        }),
{
    if success {
        "online"
    } else {
        "error"
    }
}

/// Integer division that rounds toward zero, as Rust's `/` does.
pub open spec fn div_trunc(a: int, b: int) -> int {
    if a >= 0 {
        a / b
    } else {
        -((-a) / b)
    }
}

/// The seconds of use a record adds: its processing time in whole seconds, at least one.
pub open spec fn usage_seconds(processing_time_ms: Option<i64>) -> int {
    let ms: int = match processing_time_ms {
        Some(t) => t as int,
        None => 0,
    };
    let s = div_trunc(ms, 1000);
    if s > 1 {
        s
    } else {
        1
    }
}

/// The seconds of use a record adds.
pub fn seconds_of_use(processing_time_ms: Option<i64>) -> (s: i64)
    ensures
        s == usage_seconds(processing_time_ms),
{
    let ms: i64 = match processing_time_ms {
        Some(t) => t,
        None => 0,
    };
    let s = ms / 1000;
    if s > 1 {
        s
    } else {
        1
    }
}

/// The sum of a run of latencies.
pub open spec fn sum(s: Seq<i64>) -> int
    decreases s.len(),
{
    if s.len() == 0 {
        0
    } else {
        sum(s.drop_last()) + s.last()
    }
}

/// The current latency: the average of the latest ten records (all of them when there
/// are ten or fewer), rounded toward zero.
pub open spec fn current_latency(lat: Seq<i64>) -> int {
    if lat.len() > 10 {
        div_trunc(sum(lat.take(10)), 10)
    } else {
        div_trunc(sum(lat), lat.len() as int)
    }
}

/// The average of the ten records before the latest ten.
pub open spec fn previous_latency(lat: Seq<i64>) -> int {
    div_trunc(sum(lat.subrange(10, 20)), 10)
}

/// The latency trend: with more than twenty records, the current average against the
/// one before it; else neutral.
pub open spec fn latency_trend(lat: Seq<i64>) -> (Seq<char>, int) {
    if lat.len() > 20 {
        let c = current_latency(lat);
        let p = previous_latency(lat);
        (if c > p {
            "up"@
        } else if c < p {
            "down"@
        } else {
            "neutral"@
        }, c - p)
    } else {
        ("neutral"@, 0)
    }
}

/// Each running sum of the latencies from `from`, up to `to`, fits in `i64`.
pub open spec fn run_sums_fit(lat: Seq<i64>, from: int, to: int) -> bool {
    forall|k: int| from <= k <= to ==> i64::MIN <= #[trigger] sum(lat.subrange(from, k)) <= i64::MAX
}

/// The running sums that the averages add up fit in `i64`: those of the latest ten
/// records, and, with more than twenty, those of the ten before them.
pub open spec fn latency_sums_fit(lat: Seq<i64>) -> bool {
    &&& run_sums_fit(lat, 0, if lat.len() > 10 { 10 } else { lat.len() as int })
    &&& lat.len() > 20 ==> run_sums_fit(lat, 10, 20)
}

fn sum_range(lat: &[i64], from: usize, to: usize) -> (s: i64)
    requires
        from <= to <= lat@.len(),
        run_sums_fit(lat@, from as int, to as int),
    ensures
        s == sum(lat@.subrange(from as int, to as int)),
{
    let mut s: i64 = 0;
    let mut k: usize = from;
    assert(lat@.subrange(from as int, from as int) =~= Seq::<i64>::empty());
    while k < to
        invariant
            from <= k <= to <= lat@.len(),
            run_sums_fit(lat@, from as int, to as int),
            s == sum(lat@.subrange(from as int, k as int)),
        decreases to - k,
    {
        assert(lat@.subrange(from as int, k + 1).drop_last() =~= lat@.subrange(from as int, k as int));
        assert(lat@.subrange(from as int, k + 1).last() == lat@[k as int]);
        assert(i64::MIN <= sum(lat@.subrange(from as int, k + 1)) <= i64::MAX);
        s = s + lat[k];
        k = k + 1;
    }
    s
}

/// The latency figures of a service from its records, newest first: the current
/// average, the trend, and the latest twelve points oldest first.
///
/// `labels` holds each record's time of day, as the history shows it.
pub fn latency_data(latencies: &[i64], labels: &[String]) -> (r: LatencyDataResponse)
    requires
        latencies@.len() == labels@.len(),
        latency_sums_fit(latencies@),
    ensures
        latencies@.len() == 0 ==> r.current == 0 && r.trend@ == "neutral"@ && r.trend_value == 0
            && r.history@.len() == 0,
        latencies@.len() > 0 ==> {
            &&& r.current == current_latency(latencies@)
            &&& r.trend@ == latency_trend(latencies@).0
            &&& r.trend_value == latency_trend(latencies@).1
            &&& r.history@.len() == if latencies@.len() < 12 { latencies@.len() as int } else { 12 }
            &&& forall|i: int| 0 <= i < r.history@.len() ==> {
                let j = r.history@.len() - 1 - i;
                &&& (#[trigger] r.history@[i]).val == latencies@[j]
                &&& r.history@[i].time@ == labels@[j]@
            }
        },
{
    let n = latencies.len();
    if n == 0 {
        return LatencyDataResponse {
            current: 0,
            trend: String::from_str("neutral"),
            trend_value: 0,
            history: Vec::new(),
        };
    }
    let count: usize = if n > 10 { 10 } else { n };
    let total = sum_range(latencies, 0, count);
    assert(latencies@.subrange(0, n as int) =~= latencies@);
    assert(latencies@.subrange(0, 10) =~= latencies@.take(10));
    let current: i64 = if n > 10 { total / 10 } else { total / (n as i64) };
    let mut trend = String::from_str("neutral");
    let mut trend_value: i64 = 0;
    if n > 20 {
        let prev_total = sum_range(latencies, 10, 20);
        let previous: i64 = prev_total / 10;
        if current > previous {
            trend = String::from_str("up");
        } else if current < previous {
            trend = String::from_str("down");
        }
        trend_value = current - previous;
    }
    let shown: usize = if n < 12 { n } else { 12 };
    let mut history: Vec<LatencyHistoryPoint> = Vec::new();
    let mut i: usize = 0;
    while i < shown
        invariant
            i <= shown <= n,
            n == latencies@.len(),
            n == labels@.len(),
            history@.len() == i,
            forall|k: int| 0 <= k < i ==> {
                let j = shown - 1 - k;
                &&& (#[trigger] history@[k]).val == latencies@[j]
                &&& history@[k].time@ == labels@[j]@
            },
        decreases shown - i,
    {
        let j = shown - 1 - i;
        history.push(LatencyHistoryPoint { time: labels[j].clone(), val: latencies[j] });
        i = i + 1;
    }
    LatencyDataResponse { current, trend, trend_value, history }
}

} // verus!
