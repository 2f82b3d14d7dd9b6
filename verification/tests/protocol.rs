use dalle2::protocol::{accept_submission, poll_step};
use dalle2::types::{
    Dalle2Generations, Dalle2ImgData, Dalle2ImgInner, Dalle2Response, Dalle2TaskResponse,
};

fn img(created: i64, url: &str) -> Dalle2ImgData {
    Dalle2ImgData {
        created,
        generation: Dalle2ImgInner {
            image_path: String::from(url),
        },
    }
}

fn snapshot(status: &str, generations: Option<Dalle2Generations>) -> Dalle2TaskResponse {
    Dalle2TaskResponse {
        id: String::from("task-1"),
        status: String::from(status),
        generations,
    }
}

#[test]
fn accept_submission_returns_the_identifier() {
    let r = accept_submission(&Dalle2Response {
        id: String::from("task-9"),
    });
    assert_eq!(r, Some(String::from("task-9")));
}

#[test]
fn accept_submission_rejects_an_empty_identifier() {
    let r = accept_submission(&Dalle2Response { id: String::new() });
    assert_eq!(r, None);
}

#[test]
fn poll_returns_data_on_success_with_generations() {
    let data = vec![img(3, "u0"), img(4, "u1")];
    let resp = snapshot("succeeded", Some(Dalle2Generations { data: data.clone() }));
    let out = poll_step(resp).expect("poll should finish");
    assert_eq!(out.len(), 2);
    assert_eq!(out[0].created, 3);
    assert_eq!(out[0].generation.image_path, "u0");
    assert_eq!(out[1].created, 4);
    assert_eq!(out[1].generation.image_path, "u1");
}

#[test]
fn poll_keeps_looping_on_success_without_generations() {
    let resp = snapshot("succeeded", None);
    assert!(poll_step(resp).is_none());
}

#[test]
fn poll_keeps_looping_while_pending() {
    let with_data = snapshot(
        "pending",
        Some(Dalle2Generations {
            data: vec![img(1, "u")],
        }),
    );
    assert!(poll_step(with_data).is_none());
    let without = snapshot("pending", None);
    assert!(poll_step(without).is_none());
}

#[test]
fn poll_keeps_looping_on_other_statuses() {
    assert!(poll_step(snapshot("failed", None)).is_none());
    assert!(poll_step(snapshot("", None)).is_none());
    assert!(poll_step(snapshot("Succeeded", None)).is_none());
}
