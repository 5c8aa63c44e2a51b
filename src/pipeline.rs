use vstd::prelude::*;
use crate::error::CatError;
use crate::picture::{render_picture, render_spec};
use crate::reply::{reply_spec, FAILURE_BODY, HTML_CONTENT_TYPE, STATUS_INTERNAL_ERROR, STATUS_OK};

verus! {

/// The endpoint that lists random cat pictures as a JSON array of descriptors.
pub const CAT_API_URL: &'static str = "https://api.thecatapi.com/v1/images/search";

/// One entry of the picture index; fields other than the URL are ignored.
#[derive(Debug)]
pub struct ImageDescriptor {
    pub url: String,
}

/// Whether an HTTP status counts as success: `200..=299`.
pub open spec fn is_success_spec(status: u16) -> bool {
    200 <= status <= 299
}

/// Whether an HTTP status counts as success.
pub fn is_success(status: u16) -> (r: bool)
    ensures
        r == is_success_spec(status),
{
    200 <= status && status <= 299
}

/// Accepts a success status; any other is an upstream error that carries it.
pub fn check_status(status: u16) -> (r: Result<(), CatError>)
    ensures
        r is Ok <==> is_success_spec(status),
        r matches Err(e) ==> e == (CatError::Upstream { status }),
{
    if is_success(status) {
        Ok(())
    } else {
        Err(CatError::Upstream { status })
    }
}

/// Picks the last descriptor of the index; an empty index is an error.
pub fn select_descriptor(descriptors: Vec<ImageDescriptor>) -> (r: Result<ImageDescriptor, CatError>)
    ensures
        descriptors@.len() == 0 ==> r matches Err(CatError::EmptyResult),
        descriptors@.len() > 0 ==> (r matches Ok(d) && d.url@ == descriptors@.last().url@),
{
    let mut descriptors = descriptors;
    match descriptors.pop() {
        Some(d) => Ok(d),
        None => Err(CatError::EmptyResult),
    }
}

/// Where a request stands.
#[derive(Debug)]
pub enum Stage {
    /// Nothing has been asked yet.
    Idle,
    /// The picture index was asked for; its status is awaited.
    IndexRequested,
    /// The index answered with success; its descriptors are awaited.
    IndexAccepted,
    /// The picture was asked for; its status is awaited.
    ImageRequested,
    /// The picture answered with success; its bytes are awaited.
    ImageAccepted,
    /// The outcome is known.
    Done,
}

/// What the outside world reports back to the request.
#[derive(Debug)]
pub enum Event {
    /// The request arrived.
    Started,
    /// The awaited response arrived with this status.
    StatusReceived(u16),
    /// The index body was read and parsed.
    DescriptorsReceived(Vec<ImageDescriptor>),
    /// The picture body was read.
    BytesReceived(Vec<u8>),
    /// The awaited work failed: the network, or the parse of the index.
    Failed(CatError),
}

/// What the outside world is asked to do next.
#[derive(Debug)]
pub enum Action {
    /// Send a GET to this URL and report its status.
    Fetch(String),
    /// Read the index body as a JSON array of descriptors.
    ReadDescriptors,
    /// Read the picture body as bytes.
    ReadBytes,
    /// The request is over, with this outcome.
    Finish(Result<String, CatError>),
}

/// The decisions of one request: fetch the index, pick its last descriptor,
/// fetch that picture, render it; the first failure ends the request.
#[derive(Debug)]
pub struct Pipeline {
    pub stage: Stage,
}

/// Whether a stage waits for an event of this shape.
pub open spec fn expects_spec(stage: Stage, event: Event) -> bool {
    match event {
        Event::Started => stage is Idle,
        Event::StatusReceived(_) => stage is IndexRequested || stage is ImageRequested,
        Event::DescriptorsReceived(_) => stage is IndexAccepted,
        Event::BytesReceived(_) => stage is ImageAccepted,
        Event::Failed(_) => !(stage is Idle) && !(stage is Done),
    }
}

/// The outcome carried by a finishing action, with the error detail dropped.
pub open spec fn finish_view(a: Action) -> Option<Result<Seq<char>, ()>> {
    match a {
        Action::Finish(Ok(art)) => Some(Ok(art@)),
        Action::Finish(Err(_)) => Some(Err(())),
        _ => None,
    }
}

impl Pipeline {
    /// A request that has not started.
    pub fn new() -> (r: Pipeline)
        ensures
            r.stage is Idle,
    {
        Pipeline { stage: Stage::Idle }
    }

    /// Whether the current stage waits for an event of this shape.
    pub fn expects(&self, event: &Event) -> (r: bool)
        ensures
            r == expects_spec(self.stage, *event),
    {
        match event {
            Event::Started => matches!(self.stage, Stage::Idle),
            Event::StatusReceived(_) => matches!(self.stage, Stage::IndexRequested | Stage::ImageRequested),
            Event::DescriptorsReceived(_) => matches!(self.stage, Stage::IndexAccepted),
            Event::BytesReceived(_) => matches!(self.stage, Stage::ImageAccepted),
            Event::Failed(_) => !matches!(self.stage, Stage::Idle | Stage::Done),
        }
    }

    /// Takes one event and says what to do next.
    pub fn on_event(&mut self, event: Event) -> (a: Action)
        requires
            expects_spec(old(self).stage, event),
        ensures
            match event {
                Event::Started => final(self).stage is IndexRequested
                    && (a matches Action::Fetch(url) && url@ == CAT_API_URL@),
                Event::StatusReceived(status) => if !is_success_spec(status) {
                    final(self).stage is Done
                        && (a matches Action::Finish(Err(e)) && e == (CatError::Upstream { status }))
                } else if old(self).stage is IndexRequested {
                    final(self).stage is IndexAccepted && a is ReadDescriptors
                } else {
                    final(self).stage is ImageAccepted && a is ReadBytes
                },
                Event::DescriptorsReceived(ds) => if ds@.len() == 0 {
                    final(self).stage is Done && a matches Action::Finish(Err(CatError::EmptyResult))
                } else {
                    final(self).stage is ImageRequested
                        && (a matches Action::Fetch(url) && url@ == ds@.last().url@)
                },
                Event::BytesReceived(bytes) => final(self).stage is Done
                    && finish_view(a) == Some(render_spec(bytes@))
                    && (a matches Action::Finish(Ok(art)) ==> art@.len() > 0)
                    && (a matches Action::Finish(Err(e)) ==> e is Decode),
                Event::Failed(e) => final(self).stage is Done
                    && (a matches Action::Finish(Err(f)) && f == e),
            },
    {
        match event {
            Event::Started => {
                self.stage = Stage::IndexRequested;
                Action::Fetch(CAT_API_URL.to_owned())
            },
            Event::StatusReceived(status) => {
                match check_status(status) {
                    Err(e) => {
                        self.stage = Stage::Done;
                        Action::Finish(Err(e))
                    },
                    Ok(()) => {
                        if matches!(self.stage, Stage::IndexRequested) {
                            self.stage = Stage::IndexAccepted;
                            Action::ReadDescriptors
                        } else {
                            self.stage = Stage::ImageAccepted;
                            Action::ReadBytes
                        }
                    },
                }
            },
            Event::DescriptorsReceived(ds) => {
                match select_descriptor(ds) {
                    Ok(d) => {
                        self.stage = Stage::ImageRequested;
                        Action::Fetch(d.url)
                    },
                    Err(e) => {
                        self.stage = Stage::Done;
                        Action::Finish(Err(e))
                    },
                }
            },
            Event::BytesReceived(bytes) => {
                self.stage = Stage::Done;
                Action::Finish(render_picture(bytes.as_slice()))
            },
            Event::Failed(e) => {
                self.stage = Stage::Done;
                Action::Finish(Err(e))
            },
        }
    }
}

/// A finished request is answered in one of two ways only: non-empty art is
/// served with status 200 and an HTML content type; any failure gets status
/// 500 and the fixed text, the same for every kind of failure.
pub proof fn lemma_finish_reply(a: Action)
    requires
        a is Finish,
        a matches Action::Finish(Ok(art)) ==> art@.len() > 0,
    ensures
        finish_view(a) matches Some(outcome) && ({
            let (status, content_type, body) = reply_spec(outcome);
            ||| status == STATUS_OK && content_type == Some(HTML_CONTENT_TYPE@) && body.len() > 0
            ||| status == STATUS_INTERNAL_ERROR && content_type is None && body == FAILURE_BODY@
        }),
        a matches Action::Finish(Err(_)) ==> reply_spec(finish_view(a)->0) == (
            STATUS_INTERNAL_ERROR,
            None::<Seq<char>>,
            FAILURE_BODY@,
        ),
{
}

} // verus!
