use catscii::error::CatError;
use catscii::picture::{convert_to_html, decode_image, render_picture, DecodedImage};
use catscii::pipeline::{
    check_status, is_success, select_descriptor, Action, Event, ImageDescriptor, Pipeline, Stage,
    CAT_API_URL,
};
use catscii::reply::{respond, HttpReply, FAILURE_BODY, HTML_CONTENT_TYPE};

fn jpeg_bytes() -> Vec<u8> {
    let img = image::RgbImage::from_fn(32, 24, |x, y| image::Rgb([(x * 8) as u8, (y * 10) as u8, 128]));
    let mut out = std::io::Cursor::new(Vec::new());
    image::DynamicImage::ImageRgb8(img)
        .write_to(&mut out, image::ImageOutputFormat::Jpeg(90))
        .unwrap();
    out.into_inner()
}

fn descriptor(url: &str) -> ImageDescriptor {
    ImageDescriptor { url: url.to_string() }
}

fn finish(action: Action) -> Result<String, CatError> {
    match action {
        Action::Finish(outcome) => outcome,
        _ => panic!("the request should be over"),
    }
}

fn fetched_url(action: Action) -> String {
    match action {
        Action::Fetch(url) => url,
        _ => panic!("a fetch was expected"),
    }
}

fn assert_failure_reply(reply: &HttpReply) {
    assert_eq!(reply.status, 500);
    assert_eq!(reply.body, "Something went wrong");
    assert_eq!(reply.content_type, None);
}

#[test]
fn two_descriptors_serve_the_last_picture() {
    let mut p = Pipeline::new();
    assert_eq!(fetched_url(p.on_event(Event::Started)), CAT_API_URL);
    assert!(matches!(p.on_event(Event::StatusReceived(200)), Action::ReadDescriptors));
    let url = fetched_url(p.on_event(Event::DescriptorsReceived(vec![
        descriptor("http://x/a.jpg"),
        descriptor("http://x/b.jpg"),
    ])));
    assert_eq!(url, "http://x/b.jpg");
    assert!(matches!(p.on_event(Event::StatusReceived(200)), Action::ReadBytes));
    let outcome = finish(p.on_event(Event::BytesReceived(jpeg_bytes())));
    assert!(matches!(p.stage, Stage::Done));
    let reply = respond(&outcome);
    assert_eq!(reply.status, 200);
    assert!(reply.content_type.as_deref().unwrap().starts_with("text/html"));
    assert!(!reply.body.is_empty());
    assert!(reply.body.contains("<html"));
    assert!(!reply.body.contains("Something went wrong"));
}

#[test]
fn empty_index_fails_with_fixed_body() {
    let mut p = Pipeline::new();
    p.on_event(Event::Started);
    p.on_event(Event::StatusReceived(200));
    let outcome = finish(p.on_event(Event::DescriptorsReceived(vec![])));
    assert!(matches!(outcome, Err(CatError::EmptyResult)));
    assert_failure_reply(&respond(&outcome));
}

#[test]
fn unreachable_upstream_fails_with_fixed_body() {
    let mut p = Pipeline::new();
    p.on_event(Event::Started);
    let outcome = finish(p.on_event(Event::Failed(CatError::Transport {
        detail: "connection refused".to_string(),
    })));
    assert!(matches!(outcome, Err(CatError::Transport { .. })));
    assert_failure_reply(&respond(&outcome));
}

#[test]
fn index_error_status_fails() {
    let mut p = Pipeline::new();
    p.on_event(Event::Started);
    let outcome = finish(p.on_event(Event::StatusReceived(503)));
    assert!(matches!(outcome, Err(CatError::Upstream { status: 503 })));
    assert_failure_reply(&respond(&outcome));
}

#[test]
fn image_not_found_fails() {
    let mut p = Pipeline::new();
    p.on_event(Event::Started);
    p.on_event(Event::StatusReceived(200));
    p.on_event(Event::DescriptorsReceived(vec![descriptor("http://x/a.jpg")]));
    let outcome = finish(p.on_event(Event::StatusReceived(404)));
    assert!(matches!(outcome, Err(CatError::Upstream { status: 404 })));
    assert_failure_reply(&respond(&outcome));
}

#[test]
fn malformed_index_fails() {
    let mut p = Pipeline::new();
    p.on_event(Event::Started);
    p.on_event(Event::StatusReceived(200));
    let outcome = finish(p.on_event(Event::Failed(CatError::Decode {
        detail: "expected an array".to_string(),
    })));
    assert_failure_reply(&respond(&outcome));
}

#[test]
fn corrupt_picture_fails_with_decode_error() {
    let mut p = Pipeline::new();
    p.on_event(Event::Started);
    p.on_event(Event::StatusReceived(200));
    p.on_event(Event::DescriptorsReceived(vec![descriptor("http://x/a.jpg")]));
    p.on_event(Event::StatusReceived(200));
    let outcome = finish(p.on_event(Event::BytesReceived(b"not a picture".to_vec())));
    assert!(matches!(outcome, Err(CatError::Decode { .. })));
    assert_failure_reply(&respond(&outcome));
}

#[test]
fn failure_bodies_do_not_vary() {
    let errors = vec![
        CatError::Upstream { status: 500 },
        CatError::Transport { detail: "timeout".to_string() },
        CatError::Decode { detail: "bad json".to_string() },
        CatError::EmptyResult,
    ];
    for e in errors {
        assert_failure_reply(&respond(&Err(e)));
    }
}

#[test]
fn success_reply_carries_art() {
    let reply = respond(&Ok("<pre>art</pre>".to_string()));
    assert_eq!(reply.status, 200);
    assert_eq!(reply.content_type.as_deref(), Some(HTML_CONTENT_TYPE));
    assert_eq!(reply.content_type.as_deref(), Some("text/html; charset=utf-8"));
    assert_eq!(reply.body, "<pre>art</pre>");
    assert_eq!(FAILURE_BODY, "Something went wrong");
}

#[test]
fn selection_takes_last_of_three() {
    let d = select_descriptor(vec![descriptor("u0"), descriptor("u1"), descriptor("u2")]);
    assert_eq!(d.unwrap().url, "u2");
    let single = select_descriptor(vec![descriptor("only")]);
    assert_eq!(single.unwrap().url, "only");
    assert!(matches!(select_descriptor(vec![]), Err(CatError::EmptyResult)));
}

#[test]
fn status_boundaries() {
    assert!(!is_success(199));
    assert!(is_success(200));
    assert!(is_success(204));
    assert!(is_success(299));
    assert!(!is_success(300));
    assert!(!is_success(404));
    assert!(check_status(200).is_ok());
    assert!(matches!(check_status(302), Err(CatError::Upstream { status: 302 })));
}

#[test]
fn expects_follows_the_stage() {
    let mut p = Pipeline::new();
    assert!(p.expects(&Event::Started));
    assert!(!p.expects(&Event::StatusReceived(200)));
    assert!(!p.expects(&Event::Failed(CatError::EmptyResult)));
    p.on_event(Event::Started);
    assert!(matches!(p.stage, Stage::IndexRequested));
    assert!(!p.expects(&Event::Started));
    assert!(p.expects(&Event::StatusReceived(200)));
    assert!(p.expects(&Event::Failed(CatError::EmptyResult)));
    assert!(!p.expects(&Event::BytesReceived(vec![])));
}

#[test]
fn decoding_gives_rgba_samples() {
    let img = decode_image(&jpeg_bytes()).unwrap();
    assert_eq!(img.width, 32);
    assert_eq!(img.height, 24);
    assert_eq!(img.rgba.len(), 4 * 32 * 24);
    assert!(matches!(decode_image(&[1, 2, 3]), Err(CatError::Decode { .. })));
}

#[test]
fn conversion_is_deterministic_and_html() {
    let img = decode_image(&jpeg_bytes()).unwrap();
    let copy = DecodedImage { width: img.width, height: img.height, rgba: img.rgba.clone() };
    let a = convert_to_html(img);
    let b = convert_to_html(copy);
    assert_eq!(a, b);
    assert!(a.starts_with("<!DOCTYPE html>"));
    assert!(a.len() > 100);
}

#[test]
fn single_pixel_picture_renders() {
    let img = DecodedImage { width: 1, height: 1, rgba: vec![255, 255, 255, 255] };
    assert!(!convert_to_html(img).is_empty());
}

#[test]
fn render_picture_matches_decode_then_convert() {
    let bytes = jpeg_bytes();
    let direct = convert_to_html(decode_image(&bytes).unwrap());
    assert_eq!(render_picture(&bytes).unwrap(), direct);
    assert!(matches!(render_picture(&[]), Err(CatError::Decode { .. })));
}

#[test]
fn describe_names_the_kind() {
    assert!(CatError::EmptyResult.describe().contains("no images"));
    assert!(CatError::Upstream { status: 500 }.describe().contains("status"));
}
