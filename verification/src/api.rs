//! The request and response bodies exchanged with the library server. The
//! surrounding application carries them over the wire; the engine and its
//! callers only read and build their plain fields.

use vstd::prelude::*;

use crate::media::{BasicDirectory, BasicLibrary, LibraryColl, MediaItem};
use crate::progression::Progression;

verus! {

pub struct GetLibrariesResponse {
    pub items: Vec<LibraryColl>,
}

pub struct GetBookIdResponse {
    pub media: MediaItem,
    pub progress: Option<Progression>,
}

pub struct GetBookListResponse {
    pub count: i64,
    pub items: Vec<MediaItem>,
}

pub struct BookListQuery {
    pub library: usize,
    pub offset: Option<usize>,
    pub limit: Option<usize>,
}

pub struct GetOptionsResponse {
    pub libraries: Vec<LibraryColl>,
}

pub struct ModifyOptionsBody {
    pub library: Option<BasicLibrary>,
    pub directory: Option<BasicDirectory>,
}

impl Default for ModifyOptionsBody {
    /// A modification that changes nothing.
    fn default() -> (r: Self)
        ensures
            r.library is None,
            r.directory is None,
    {
        ModifyOptionsBody { library: None, directory: None }
    }
}

pub enum PostMetadataBody {
    File(i64),
}

pub struct RunTaskBody {
    pub run_search: bool,
    pub run_metadata: bool,
}

impl Default for RunTaskBody {
    /// A task request that runs nothing until a flag is set.
    fn default() -> (r: Self)
        ensures
            !r.run_search,
            !r.run_metadata,
    {
        RunTaskBody { run_search: false, run_metadata: false }
    }
}

} // verus!
