use dalle2::client::Dalle2;
use dalle2::request::{auth_header, render_request_body, status_url, text2im_request};
use dalle2::persist::file_name;

#[test]
fn submission_body_plain() {
    let client = Dalle2::new(String::from("tok"));
    let body = client.submission_body("a cat", 4);
    assert_eq!(
        body,
        "{\"task_type\":\"text2im\",\"prompt\":{\"caption\":\"a cat\",\"batch_size\":4}}"
    );
}

#[test]
fn submission_body_escapes_quotes_and_backslashes() {
    let client = Dalle2::new(String::from("tok"));
    let body = client.submission_body("say \"hi\" \\ now", 1);
    assert_eq!(
        body,
        "{\"task_type\":\"text2im\",\"prompt\":{\"caption\":\"say \\\"hi\\\" \\\\ now\",\"batch_size\":1}}"
    );
}

#[test]
fn submission_body_escapes_control_characters() {
    let client = Dalle2::new(String::from("tok"));
    let body = client.submission_body("a\nb\tc\u{1f}", 2);
    assert_eq!(
        body,
        "{\"task_type\":\"text2im\",\"prompt\":{\"caption\":\"a\\u000ab\\u0009c\\u001f\",\"batch_size\":2}}"
    );
}

#[test]
fn submission_body_largest_batch() {
    let client = Dalle2::new(String::from("tok"));
    let body = client.submission_body("x", u64::MAX);
    assert_eq!(
        body,
        "{\"task_type\":\"text2im\",\"prompt\":{\"caption\":\"x\",\"batch_size\":18446744073709551615}}"
    );
}

#[test]
fn request_fields_are_kept() {
    let b = text2im_request("dunes at dusk", 3);
    assert_eq!(b.task_type, "text2im");
    assert_eq!(b.prompt.caption, "dunes at dusk");
    assert_eq!(b.prompt.batch_size, 3);
    let body = render_request_body(&b);
    assert_eq!(
        body,
        "{\"task_type\":\"text2im\",\"prompt\":{\"caption\":\"dunes at dusk\",\"batch_size\":3}}"
    );
}

#[test]
fn status_url_appends_task_id() {
    assert_eq!(
        status_url("task-123"),
        "https://labs.openai.com/api/labs/tasks/task-123"
    );
}

#[test]
fn bearer_header_carries_token() {
    let client = Dalle2::new(String::from("secret-token"));
    assert_eq!(client.bearer_header(), "Bearer secret-token");
    assert_eq!(auth_header("t"), "Bearer t");
}

#[test]
fn file_name_concatenates_parts() {
    assert_eq!(file_name("./out/", 1661500000, 0), "./out/1661500000-0.png");
    assert_eq!(file_name("dir/", 7, 12), "dir/7-12.png");
}

#[test]
fn file_name_zero_and_negative_timestamps() {
    assert_eq!(file_name("p", 0, 0), "p0-0.png");
    assert_eq!(file_name("p", -5, 3), "p-5-3.png");
    assert_eq!(
        file_name("p", i64::MIN, 1),
        "p-9223372036854775808-1.png"
    );
    assert_eq!(
        file_name("p", i64::MAX, 2),
        "p9223372036854775807-2.png"
    );
}
