use blackflower::prometheus::chars::{find, is_whitespace, trim_chars, trim_start_chars};
use blackflower::prometheus::exposition::{sample_line, split_lines, SampleLine};
use blackflower::prometheus::http::{
    announced_response_length, content_length, expected_response_length, find_header_end,
    parse_decimal_usize, read_progress, response_body, HeaderError, ReadProgress, ResponseError,
    MAX_HTTP_RESPONSE_BYTES,
};
use blackflower::prometheus::labels::{parse_labels, parse_series, sort_labels};
use blackflower::prometheus::samples::{
    find_unlabelled, find_with_label, series_positions, sort_samples, Sample,
};
use blackflower::prometheus::series::{parse_quoted, split_sample, SeriesError};

fn chars(text: &str) -> Vec<char> {
    text.chars().collect()
}

fn text(chars: &[char]) -> String {
    chars.iter().collect()
}

fn labels(parsed: &[(Vec<char>, Vec<char>)]) -> Vec<(String, String)> {
    parsed.iter().map(|(name, value)| (text(name), text(value))).collect()
}

#[test]
fn whitespace_follows_unicode() {
    for c in [' ', '\t', '\n', '\r', '\u{0b}', '\u{0c}', '\u{85}', '\u{a0}', '\u{2003}', '\u{3000}'] {
        assert!(is_whitespace(c));
        assert_eq!(is_whitespace(c), c.is_whitespace());
    }
    for c in ['a', '{', '"', '\u{200b}', '\u{feff}'] {
        assert!(!is_whitespace(c));
        assert_eq!(is_whitespace(c), c.is_whitespace());
    }
    let line = chars("  \u{a0}value\t ");
    assert_eq!(text(trim_chars(&line)), "value");
    assert_eq!(text(trim_start_chars(&line)), "value\t ");
    assert_eq!(find(&line, 'l'), Some(5));
    assert_eq!(find(&line, 'z'), None);
}

#[test]
fn sample_split_skips_whitespace_inside_labels() {
    let line = chars("metric{path=\"a b\",x=\"\\\" }\"} 42 1700000000");
    let split = split_sample(&line).expect("sample has a value");
    assert_eq!(text(&line[..split]), "metric{path=\"a b\",x=\"\\\" }\"}");
    assert_eq!(split_sample(&chars("metric_without_value")), None);
    assert_eq!(split_sample(&chars("metric{a=\"1 2\"")), None);
    assert_eq!(split_sample(&chars("up 1")), Some(2));
}

#[test]
fn quoted_values_resolve_escapes() {
    let (value, consumed) = parse_quoted(&chars("\"a\\nb\\\\c\\\"d\\x\" rest")).expect("quoted");
    assert_eq!(text(&value), "a\nb\\c\"dx");
    assert_eq!(consumed, 14);
    assert_eq!(parse_quoted(&chars("plain")), Err(SeriesError::ValueNotQuoted));
    assert_eq!(parse_quoted(&chars("")), Err(SeriesError::ValueNotQuoted));
    assert_eq!(parse_quoted(&chars("\"open")), Err(SeriesError::ValueNotClosed));
}

#[test]
fn labels_are_parsed_and_sorted() {
    let parsed = parse_labels(&chars(" b = \"2\", a=\"x,y\" , a=\"w\", ")).expect("labels");
    assert_eq!(
        labels(&parsed),
        vec![
            ("a".to_owned(), "w".to_owned()),
            ("a".to_owned(), "x,y".to_owned()),
            ("b".to_owned(), "2".to_owned()),
        ]
    );
    assert_eq!(parse_labels(&chars("   ")).map(|l| l.len()), Ok(0));
    assert_eq!(parse_labels(&chars("a")), Err(SeriesError::LabelWithoutEquals));
    assert_eq!(parse_labels(&chars("a=1")), Err(SeriesError::ValueNotQuoted));
    assert_eq!(parse_labels(&chars("a=\"1")), Err(SeriesError::ValueNotClosed));
    assert_eq!(
        parse_labels(&chars("a=\"1\" b=\"2\"")),
        Err(SeriesError::LabelsNotCommaSeparated)
    );
    assert_eq!(SeriesError::LabelsNotCommaSeparated.message(), "labels are not comma separated");
}

#[test]
fn sorting_orders_by_name_then_value() {
    let unsorted = vec![
        (chars("z"), chars("1")),
        (chars("a"), chars("b")),
        (chars("a"), chars("a")),
        (chars("ab"), chars("")),
        (chars("a"), chars("a")),
    ];
    let sorted = sort_labels(&unsorted);
    let mut expected = labels(&unsorted);
    expected.sort();
    assert_eq!(labels(&sorted), expected);
}

#[test]
fn series_split_into_name_and_labels() {
    let (name, parsed) = parse_series(&chars("requests_total{method=\"GET\",code=\"200\"}"))
        .expect("series");
    assert_eq!(text(&name), "requests_total");
    assert_eq!(
        labels(&parsed),
        vec![
            ("code".to_owned(), "200".to_owned()),
            ("method".to_owned(), "GET".to_owned()),
        ]
    );
    let (bare, none) = parse_series(&chars("up")).expect("bare series");
    assert_eq!(text(&bare), "up");
    assert!(none.is_empty());
    assert_eq!(parse_series(&chars("up{a=\"1\"")), Err(SeriesError::LabelSetNotClosed));
    assert_eq!(parse_series(&chars("{}")).map(|(name, labels)| (name.len(), labels.len())), Ok((0, 0)));
}

#[test]
fn exposition_lines_are_classified() {
    let body = chars("# HELP up Up\n# TYPE up gauge\nup 1\r\n\n  temp{room=\"a b\"}  21.5 123\nbroken\n");
    let lines = split_lines(&body);
    assert_eq!(lines.len(), 6);
    let expected: Vec<String> = body.iter().collect::<String>().lines().map(str::to_owned).collect();
    assert_eq!(lines.iter().map(|line| text(line)).collect::<Vec<_>>(), expected);
    assert!(matches!(sample_line(&lines[0]), SampleLine::Comment));
    assert!(matches!(sample_line(&lines[3]), SampleLine::Blank));
    assert!(matches!(sample_line(&lines[5]), SampleLine::MissingValue));
    match sample_line(&lines[4]) {
        SampleLine::Sample { series, value } => {
            assert_eq!(text(&series), "temp{room=\"a b\"}");
            assert_eq!(text(&value), "21.5");
        }
        _ => panic!("expected a sample"),
    }
    match sample_line(&lines[2]) {
        SampleLine::Sample { series, value } => {
            assert_eq!(text(&series), "up");
            assert_eq!(text(&value), "1");
        }
        _ => panic!("expected a sample"),
    }
    assert_eq!(split_lines(&chars("")).len(), 0);
    assert_eq!(split_lines(&chars("a\rb\r")).len(), 1);
}

#[test]
fn http_framing_finds_headers_and_length() {
    let response = b"HTTP/1.1 200 OK\r\nContent-Length: 5\r\n\r\nhello";
    let end = find_header_end(response).expect("header end");
    assert_eq!(end, 34);
    assert_eq!(content_length(&response[..end]), Ok(Some(5)));
    assert_eq!(expected_response_length(end, 5), Some(43));
    assert_eq!(expected_response_length(usize::MAX - 3, 0), None);
    assert_eq!(find_header_end(b"HTTP/1.1 200 OK\r\n\r"), None);
    assert_eq!(content_length(b"HTTP/1.1 200 OK\r\ncontent-LENGTH:+12 \r\nX: y"), Ok(Some(12)));
    assert_eq!(content_length(b"HTTP/1.1 200 OK\r\nX-Content-Length: 1"), Ok(None));
    assert_eq!(
        content_length(b"HTTP/1.1 200 OK\r\nContent-Length: five"),
        Err(HeaderError::InvalidContentLength)
    );
    assert_eq!(content_length(b"\xff\xfe"), Err(HeaderError::InvalidUtf8));
    assert_eq!(parse_decimal_usize(&chars("18446744073709551615")), Some(usize::MAX));
    assert_eq!(parse_decimal_usize(&chars("18446744073709551616")), None);
    assert_eq!(parse_decimal_usize(&chars("+")), None);
    assert_eq!(parse_decimal_usize(&chars("-1")), None);
    assert_eq!(parse_decimal_usize(&chars("007")), Some(7));
}

#[test]
fn responses_yield_bodies_only_for_success() {
    let ok = chars("HTTP/1.1 200 OK\r\nA: b\r\n\r\nup 1\n");
    assert_eq!(response_body(&ok).map(|body| text(&body)), Ok("up 1\n".to_owned()));
    let missing = chars("HTTP/1.1 200 OK\r\n");
    assert_eq!(response_body(&missing), Err(ResponseError::NoHeaderBoundary));
    let failed = chars("HTTP/1.1 503 Service Unavailable\r\n\r\n");
    assert_eq!(
        response_body(&failed),
        Err(ResponseError::Status(chars("HTTP/1.1 503 Service Unavailable")))
    );
}

fn sample(name: &str, label_pairs: &[(&str, &str)], value: f64) -> Sample<f64> {
    Sample {
        name: chars(name),
        labels: label_pairs.iter().map(|(n, v)| (chars(n), chars(v))).collect(),
        value,
    }
}

#[test]
fn samples_sort_by_name_then_labels_keeping_ties_in_order() {
    let scraped = vec![
        sample("b_total", &[], 1.0),
        sample("a_total", &[("kind", "z")], 2.0),
        sample("a_total", &[("kind", "a"), ("stage", "x")], 3.0),
        sample("a_total", &[("kind", "a")], 4.0),
        sample("a_total", &[], 5.0),
        sample("b_total", &[], 6.0),
    ];
    let sorted = sort_samples(scraped);
    let values: Vec<f64> = sorted.iter().map(|s| s.value).collect();
    assert_eq!(values, vec![5.0, 4.0, 3.0, 2.0, 1.0, 6.0]);
}

#[test]
fn samples_are_found_by_name_and_label() {
    let samples = vec![
        sample("up", &[("job", "agent")], 1.0),
        sample("up", &[], 2.0),
        sample("latency_bucket", &[("le", "0.5"), ("le", "ignored")], 3.0),
        sample("latency_bucket", &[("le", "+Inf")], 4.0),
    ];
    assert_eq!(find_unlabelled(&samples, &chars("up")), Some(1));
    assert_eq!(find_unlabelled(&samples, &chars("down")), None);
    assert_eq!(find_with_label(&samples, &chars("up"), &chars("job"), &chars("agent")), Some(0));
    assert_eq!(find_with_label(&samples, &chars("latency_bucket"), &chars("le"), &chars("+Inf")), Some(3));
    assert_eq!(find_with_label(&samples, &chars("latency_bucket"), &chars("le"), &chars("ignored")), None);
    assert_eq!(series_positions(&samples, &chars("latency_bucket")), vec![2, 3]);
    assert_eq!(samples[2].label(&chars("le")).map(|v| text(v)), Some("0.5".to_owned()));
    assert_eq!(samples[1].label(&chars("le")), None);
}

#[test]
fn reads_stop_when_the_announced_response_arrived_or_grew_too_large() {
    assert_eq!(MAX_HTTP_RESPONSE_BYTES, 8 * 1_024 * 1_024);
    assert_eq!(announced_response_length(10, Some(6)), Some(20));
    assert_eq!(announced_response_length(10, None), None);
    assert_eq!(announced_response_length(10, Some(usize::MAX - 3)), None);
    assert_eq!(announced_response_length(usize::MAX - 8, Some(6)), None);
    assert_eq!(read_progress(19, Some(20)), ReadProgress::More);
    assert_eq!(read_progress(20, Some(20)), ReadProgress::Complete);
    assert_eq!(read_progress(25, Some(20)), ReadProgress::Complete);
    assert_eq!(read_progress(25, None), ReadProgress::More);
    assert_eq!(read_progress(MAX_HTTP_RESPONSE_BYTES, None), ReadProgress::More);
    assert_eq!(read_progress(MAX_HTTP_RESPONSE_BYTES + 1, Some(10)), ReadProgress::TooLarge);
}
