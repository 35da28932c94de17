use xattrs::error::{XattrError, ENODATA, ERANGE};
use xattrs::replay::{run_probe_fill, SysReply};

#[test]
fn probe_error_fails_at_once() {
    // Permission denied on the probe: no retry, the error comes straight back.
    let replies = vec![SysReply::Probe(-1, 13)];
    assert_eq!(run_probe_fill(&replies), Some(Err(XattrError::Os(13))));
}

#[test]
fn probe_enodata_is_not_found() {
    let replies = vec![SysReply::Probe(-1, ENODATA)];
    assert_eq!(run_probe_fill(&replies), Some(Err(XattrError::NotFound)));
}

#[test]
fn zero_probe_is_an_empty_value() {
    let replies = vec![SysReply::Probe(0, 0)];
    assert_eq!(run_probe_fill(&replies), Some(Ok(Vec::new())));
}

#[test]
fn one_round_returns_the_filled_bytes() {
    let replies = vec![SysReply::Probe(5, 0), SysReply::Fill(5, 0, b"value".to_vec())];
    assert_eq!(run_probe_fill(&replies), Some(Ok(b"value".to_vec())));
}

#[test]
fn shrunken_attribute_is_truncated_to_the_written_bytes() {
    // The probe saw 10 bytes, but the attribute shrank to 5 before the fill.
    let replies = vec![SysReply::Probe(10, 0), SysReply::Fill(5, 0, b"hello".to_vec())];
    assert_eq!(run_probe_fill(&replies), Some(Ok(b"hello".to_vec())));
}

#[test]
fn growth_causes_exactly_one_retry() {
    // The attribute grows between the probe and the fill: the fill reports
    // the buffer too small, and one further probe-and-fill round delivers
    // the final, correctly sized value.
    let replies = vec![
        SysReply::Probe(5, 0),
        SysReply::Fill(-1, ERANGE, Vec::new()),
        SysReply::Probe(8, 0),
        SysReply::Fill(8, 0, b"grownval".to_vec()),
    ];
    assert_eq!(run_probe_fill(&replies), Some(Ok(b"grownval".to_vec())));
}

#[test]
fn repeated_growth_keeps_retrying() {
    let replies = vec![
        SysReply::Probe(1, 0),
        SysReply::Fill(-1, ERANGE, Vec::new()),
        SysReply::Probe(2, 0),
        SysReply::Fill(-1, ERANGE, Vec::new()),
        SysReply::Probe(3, 0),
        SysReply::Fill(3, 0, b"abc".to_vec()),
    ];
    assert_eq!(run_probe_fill(&replies), Some(Ok(b"abc".to_vec())));
}

#[test]
fn fill_failure_other_than_erange_is_fatal() {
    let replies = vec![SysReply::Probe(5, 0), SysReply::Fill(-1, 5, Vec::new())];
    assert_eq!(run_probe_fill(&replies), Some(Err(XattrError::Os(5))));
}

#[test]
fn out_of_protocol_scripts_are_rejected() {
    // A fill reply where a probe was issued.
    let replies = vec![SysReply::Fill(5, 0, b"value".to_vec())];
    assert_eq!(run_probe_fill(&replies), None);
    // The script runs out before the fill.
    let replies = vec![SysReply::Probe(5, 0)];
    assert_eq!(run_probe_fill(&replies), None);
    // The written bytes disagree with the reported count.
    let replies = vec![SysReply::Probe(5, 0), SysReply::Fill(5, 0, b"va".to_vec())];
    assert_eq!(run_probe_fill(&replies), None);
    // More bytes than the allocated buffer holds.
    let replies = vec![SysReply::Probe(2, 0), SysReply::Fill(5, 0, b"value".to_vec())];
    assert_eq!(run_probe_fill(&replies), None);
    // An empty script answers nothing.
    assert_eq!(run_probe_fill(&Vec::new()), None);
}
