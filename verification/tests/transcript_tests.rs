use voicetype::transcript::{
    format_as_csv, format_as_json, format_as_srt, format_as_text, format_as_vtt, format_transcription,
    ms_to_srt_time, ms_to_vtt_time, OutputFormat, SegmentData,
};

fn segs() -> Vec<SegmentData> {
    vec![
        SegmentData { text: " Hello ".to_string(), start_ms: 0, end_ms: 1500, index: 0 },
        SegmentData { text: "".to_string(), start_ms: 1500, end_ms: 1600, index: 1 },
        SegmentData { text: "say \"hi\"\n".to_string(), start_ms: 3_723_004, end_ms: 3_725_000, index: 2 },
    ]
}

#[test]
fn times_are_written_as_clocks() {
    assert_eq!(ms_to_srt_time(0), "00:00:00,000");
    assert_eq!(ms_to_srt_time(3_723_004), "01:02:03,004");
    assert_eq!(ms_to_vtt_time(3_723_004), "01:02:03.004");
    assert_eq!(ms_to_vtt_time(400_000_000), "111:06:40.000");
}

#[test]
fn formats_skip_empty_segments() {
    assert_eq!(format_as_text(&segs()), "Hello say \"hi\"");
    assert_eq!(
        format_as_srt(&segs()),
        "1\n00:00:00,000 --> 00:00:01,500\nHello\n\n2\n01:02:03,004 --> 01:02:05,000\nsay \"hi\"\n\n"
    );
    assert_eq!(
        format_as_vtt(&segs()),
        "WEBVTT\n\n00:00:00.000 --> 00:00:01.500\nHello\n\n01:02:03.004 --> 01:02:05.000\nsay \"hi\"\n\n"
    );
    assert_eq!(
        format_as_csv(&segs()),
        "index,start_ms,end_ms,text\n0,0,1500,\"Hello\"\n2,3723004,3725000,\"say \"hi\"\"\n"
    );
    assert_eq!(
        format_as_json(&segs()),
        "{\"segments\":[{\"end\":1500,\"start\":0,\"text\":\" Hello \"},{\"end\":3725000,\"start\":3723004,\"text\":\"say \\\"hi\\\"\\n\"}],\"text\":\"Hello say \\\"hi\\\"\"}"
    );
    assert_eq!(format_transcription(&segs(), OutputFormat::Text), "Hello say \"hi\"");
    assert_eq!(format_transcription(&[], OutputFormat::Json), "{\"segments\":[],\"text\":\"\"}");
    assert_eq!(format_transcription(&[], OutputFormat::Vtt), "WEBVTT\n\n");
}

#[test]
fn json_text_matches_serde() {
    let s = format_as_json(&segs());
    let v: serde_json::Value = serde_json::from_str(&s).unwrap();
    assert_eq!(v["text"], "Hello say \"hi\"");
    assert_eq!(v["segments"][1]["start"], 3723004);
    let control = vec![SegmentData { text: "a\u{1}b\tc".to_string(), start_ms: 1, end_ms: 2, index: -1 }];
    assert_eq!(format_as_json(&control), "{\"segments\":[{\"end\":2,\"start\":1,\"text\":\"a\\u0001b\\tc\"}],\"text\":\"a\\u0001b\\tc\"}");
    assert_eq!(format_as_csv(&control), "index,start_ms,end_ms,text\n-1,1,2,\"a\u{1}b\tc\"\n");
}

#[test]
fn recogniser_segments_are_trimmed_and_scaled() {
    let s = SegmentData::from_recognizer("  words  ", 12, 250, 3);
    assert_eq!(s.text, "words");
    assert_eq!(s.start_ms, 120);
    assert_eq!(s.end_ms, 2500);
    assert_eq!(s.index, 3);
}
