use pdf_ocr::encode::{encode, EncodeError, PixelBuffer};
use pdf_ocr::pipeline::{Controller, PageEvent, PipelineError};

fn text_x() -> serde_json::Value {
    serde_json::from_str(r#"{"text": "X"}"#).unwrap()
}

fn run(page_count: usize, mut reply: impl FnMut(usize) -> PageEvent<serde_json::Value>)
    -> (Result<pdf_ocr::pipeline::Report<serde_json::Value>, PipelineError>, Vec<usize>) {
    let mut c = Controller::new(page_count);
    let mut asked = Vec::new();
    while let Some(i) = c.next_page() {
        asked.push(i);
        c.record(reply(i));
    }
    (c.finish(), asked)
}

#[test]
fn three_pages_all_recognized() {
    let (r, asked) = run(3, |_| PageEvent::Recognized(text_x()));
    let rep = r.unwrap();
    assert_eq!(asked, vec![0, 1, 2]);
    assert_eq!(rep.page_count, 3);
    let pages: Vec<usize> = rep.results.iter().map(|p| p.page).collect();
    assert_eq!(pages, vec![1, 2, 3]);
    for p in &rep.results {
        assert_eq!(p.ocr_result, text_x());
    }
}

#[test]
fn page_two_times_out() {
    let (r, asked) = run(3, |i| {
        if i == 1 {
            PageEvent::TransportFailed("timed out".to_string())
        } else {
            PageEvent::Recognized(text_x())
        }
    });
    assert_eq!(asked, vec![0, 1]);
    assert_eq!(
        r.err().unwrap(),
        PipelineError::Transport { page: 2, cause: "timed out".to_string() }
    );
}

#[test]
fn zero_pages_never_dispatches() {
    let (r, asked) = run(0, |_| panic!("no page to dispatch"));
    assert!(asked.is_empty());
    let rep = r.unwrap();
    assert_eq!(rep.page_count, 0);
    assert!(rep.results.is_empty());
}

#[test]
fn first_page_render_failure_stops_run() {
    let (r, asked) = run(5, |_| PageEvent::RasterizeFailed("bad page".to_string()));
    assert_eq!(asked, vec![0]);
    assert_eq!(
        r.err().unwrap(),
        PipelineError::Rasterize { page: 1, cause: "bad page".to_string() }
    );
}

#[test]
fn malformed_reply_on_last_page() {
    let (r, _) = run(2, |i| {
        if i == 1 {
            PageEvent::MalformedReply("not json".to_string())
        } else {
            PageEvent::Recognized(text_x())
        }
    });
    assert_eq!(
        r.err().unwrap(),
        PipelineError::MalformedReply { page: 2, cause: "not json".to_string() }
    );
}

#[test]
fn encode_rejects_empty_and_mismatched_buffers() {
    let empty = PixelBuffer { width: 0, height: 2, samples: vec![] };
    assert_eq!(encode(&empty).err(), Some(EncodeError::EmptyImage));
    let short = PixelBuffer { width: 2, height: 2, samples: vec![0; 11] };
    assert_eq!(encode(&short).err(), Some(EncodeError::LengthMismatch));
}

#[test]
fn encode_writes_png_and_base64_deterministically() {
    let buf = PixelBuffer { width: 2, height: 1, samples: vec![255, 0, 0, 0, 0, 255] };
    let a = encode(&buf).ok().unwrap();
    let b = encode(&buf).ok().unwrap();
    assert_eq!(a.png, b.png);
    assert_eq!(a.base64, b.base64);
    assert_eq!(&a.png[..8], &[0x89, b'P', b'N', b'G', 0x0d, 0x0a, 0x1a, 0x0a]);
    assert!(a.base64.starts_with("iVBORw0KGgo"));
    assert_eq!(a.base64.len(), 4 * ((a.png.len() + 2) / 3));
}

#[test]
fn encode_rejects_one_extra_sample_byte() {
    let long = PixelBuffer { width: 1, height: 1, samples: vec![1, 2, 3, 4] };
    assert_eq!(encode(&long).err(), Some(EncodeError::LengthMismatch));
}

#[test]
fn encode_succeeds_on_a_single_pixel() {
    let one = PixelBuffer { width: 1, height: 1, samples: vec![10, 20, 30] };
    let e = encode(&one).ok().unwrap();
    assert!(e.png.len() > 8);
    assert_eq!(e.base64.len(), 4 * ((e.png.len() + 2) / 3));
    assert!(e.base64.ends_with('=') || e.png.len() % 3 == 0);
}

#[test]
fn client_errors_are_input_and_fetch() {
    assert!(PipelineError::Input.is_client_error());
    assert!(PipelineError::Fetch("unreachable".to_string()).is_client_error());
    assert!(!PipelineError::DocumentLoad("garbage".to_string()).is_client_error());
    assert!(!PipelineError::Transport { page: 2, cause: "timed out".to_string() }.is_client_error());
}
