use notification_layer::report::{render_field_line, render_fields, render_report};
use notification_layer::MessageCapture;

#[test]
fn new_capture_is_empty() {
    let c = MessageCapture::new();
    assert!(c.message().is_none());
    assert!(c.fields().is_empty());
    assert_eq!(c.get_fields(), "");
    let d = MessageCapture::default();
    assert!(d.message().is_none());
    assert!(d.fields().is_empty());
}

#[test]
fn message_field_is_kept_apart() {
    let mut c = MessageCapture::new();
    c.record_field("value", "\"failure\"".to_string());
    c.record_field("message", "boom".to_string());
    assert_eq!(c.message(), &Some("boom".to_string()));
    assert_eq!(c.fields(), &vec![("value".to_string(), "\"failure\"".to_string())]);
}

#[test]
fn last_message_wins() {
    let mut c = MessageCapture::new();
    c.record_field("message", "first".to_string());
    c.record_field("message", "second".to_string());
    assert_eq!(c.message(), &Some("second".to_string()));
    assert!(c.fields().is_empty());
}

#[test]
fn similar_names_are_ordinary_fields() {
    let mut c = MessageCapture::new();
    c.record_field("messages", "1".to_string());
    c.record_field("Message", "2".to_string());
    c.record_field("", "3".to_string());
    assert!(c.message().is_none());
    assert_eq!(c.get_fields(), "\nmessages = 1\nMessage = 2\n = 3");
}

#[test]
fn fields_keep_visiting_order() {
    let visits: Vec<(String, String)> = vec![
        ("z".to_string(), "1".to_string()),
        ("message".to_string(), "m".to_string()),
        ("a".to_string(), "2".to_string()),
        ("m".to_string(), "3".to_string()),
    ];
    let c = MessageCapture::from_visits(&visits);
    assert_eq!(c.message(), &Some("m".to_string()));
    assert_eq!(c.get_fields(), "\nz = 1\na = 2\nm = 3");
}

#[test]
fn field_line_and_fields_section() {
    assert_eq!(render_field_line("k", "v"), "\nk = v");
    assert_eq!(render_fields(&Vec::new()), "");
    let fields = vec![("x".to_string(), "1".to_string()), ("y".to_string(), "two\nlines".to_string())];
    assert_eq!(render_fields(&fields), "\nx = 1\ny = two\nlines");
}

#[test]
fn report_layout_is_exact_and_repeatable() {
    let fields = vec![("value".to_string(), "\"failure\"".to_string())];
    let a = render_report("app::worker", "Ah shit a error happened", &fields);
    let b = render_report("app::worker", "Ah shit a error happened", &fields);
    assert_eq!(
        a,
        "\n--------\ntarget: app::worker\n--------\nmessage: Ah shit a error happened\n--------\nfields\n\nvalue = \"failure\"\n"
    );
    assert_eq!(a.as_bytes(), b.as_bytes());
    assert_eq!(
        render_report("", "", &Vec::new()),
        "\n--------\ntarget: \n--------\nmessage: \n--------\nfields\n\n"
    );
}
