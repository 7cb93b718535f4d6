use chat_relay::event::Attachment;
use chat_relay::summarize::{encode_image, is_image_attachment, next_image_from};

fn attachment(content_type: Option<&str>) -> Attachment {
    Attachment { content_type: content_type.map(|s| s.to_string()) }
}

#[test]
fn image_is_told_by_the_declared_type() {
    assert!(is_image_attachment(&attachment(Some("image/png"))));
    assert!(is_image_attachment(&attachment(Some("image/jpeg; charset=binary"))));
    assert!(is_image_attachment(&attachment(Some("application/x-image"))));
    assert!(!is_image_attachment(&attachment(Some("text/plain"))));
    assert!(!is_image_attachment(&attachment(Some("IMAGE/PNG"))));
    assert!(!is_image_attachment(&attachment(Some(""))));
    assert!(!is_image_attachment(&attachment(None)));
}

#[test]
fn next_image_skips_what_is_no_image() {
    let attachments = vec![
        attachment(Some("text/plain")),
        attachment(Some("image/png")),
        attachment(None),
        attachment(Some("image/gif")),
    ];
    assert_eq!(next_image_from(&attachments, 0), 1);
    assert_eq!(next_image_from(&attachments, 1), 1);
    assert_eq!(next_image_from(&attachments, 2), 3);
    assert_eq!(next_image_from(&attachments, 4), 4);
    assert_eq!(next_image_from(&attachments, 9), 4);
    assert_eq!(next_image_from(&Vec::new(), 0), 0);
}

#[test]
fn encode_image_is_standard_base64_with_padding() {
    assert_eq!(encode_image(b""), Some("".to_string()));
    assert_eq!(encode_image(b"f"), Some("Zg==".to_string()));
    assert_eq!(encode_image(b"fo"), Some("Zm8=".to_string()));
    assert_eq!(encode_image(b"foo"), Some("Zm9v".to_string()));
    assert_eq!(encode_image(b"hello"), Some("aGVsbG8=".to_string()));
    assert_eq!(encode_image(&[0xfb, 0xff, 0xfe]), Some("+//+".to_string()));
}
