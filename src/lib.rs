//! Serves ASCII-art renderings of random cat pictures: the decisions of one
//! request (which picture, which status, what reply) as a verified step
//! machine, the decoding and rendering behind specified calls into `image`
//! and `artem`.

pub mod error;
pub mod reply;
pub mod picture;
pub mod pipeline;
