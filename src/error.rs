use vstd::prelude::*;

verus! {

/// Why a request could not be served; kept for operators, never sent to callers.
#[derive(Debug)]
pub enum CatError {
    /// An outbound request answered with a status outside `200..=299`.
    Upstream { status: u16 },
    /// The network failed (timeout, name resolution, refused connection).
    Transport { detail: String },
    /// A body could not be read as the expected JSON, or as a picture.
    Decode { detail: String },
    /// The picture index held no descriptor.
    EmptyResult,
}

impl CatError {
    /// The log text for the kind of failure.
    pub open spec fn kind_text(&self) -> Seq<char> {
        match self {
            CatError::Upstream { .. } => "upstream answered with a failure status"@,
            CatError::Transport { .. } => "transport failure"@,
            CatError::Decode { .. } => "undecodable body"@,
            CatError::EmptyResult => "the picture index returned no images"@,
        }
    }

    /// Names the kind of failure for the server log; the detail is logged beside it.
    pub fn describe(&self) -> (r: String)
        ensures
            r@ == self.kind_text(),
            r@.len() > 0,
    {
        let kind = match self {
            CatError::Upstream { .. } => "upstream answered with a failure status",
            CatError::Transport { .. } => "transport failure",
            CatError::Decode { .. } => "undecodable body",
            CatError::EmptyResult => "the picture index returned no images",
        };
        proof {
            reveal_strlit("upstream answered with a failure status");
            reveal_strlit("transport failure");
            reveal_strlit("undecodable body");
            reveal_strlit("the picture index returned no images");
        }
        kind.to_owned()
    }
}

} // verus!
