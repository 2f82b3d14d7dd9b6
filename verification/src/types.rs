//! The wire-level shapes of the generation protocol: the request body for
//! creating a task and the responses the service sends back.

use vstd::prelude::*;

verus! {

/// The prompt part of a task-creation request: the caption to draw and how
/// many images to produce.
#[derive(Debug, Clone)]
pub struct Text2ImPrompt {
    pub caption: String,
    pub batch_size: u64,
}

/// The full body of a task-creation request.
#[derive(Debug, Clone)]
pub struct RequestBody {
    pub task_type: String,
    pub prompt: Text2ImPrompt,
}

/// The service's answer to a task creation: the identifier of the new task.
#[derive(Debug, Clone)]
pub struct Dalle2Response {
    pub id: String,
}

/// The location of one generated image.
#[derive(Debug, Clone)]
pub struct Dalle2ImgInner {
    pub image_path: String,
}

/// One generated image: its creation timestamp and where to fetch it.
#[derive(Debug, Clone)]
pub struct Dalle2ImgData {
    pub created: i64,
    pub generation: Dalle2ImgInner,
}

/// The list of generated images of a finished task.
#[derive(Debug, Clone)]
pub struct Dalle2Generations {
    pub data: Vec<Dalle2ImgData>,
}

/// One status snapshot of a task: present generations signal completion.
#[derive(Debug, Clone)]
pub struct Dalle2TaskResponse {
    pub id: String,
    pub status: String,
    pub generations: Option<Dalle2Generations>,
}

} // verus!
