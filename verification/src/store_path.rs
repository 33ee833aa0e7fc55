//! Where the files of a store lie.

use vstd::prelude::*;

verus! {

/// The name of the document that holds the channel's settings.
pub const GLOBAL_CONFIG_FILE: &'static str = "fdahm.toml";

/// The name of the document that describes a video.
pub const VIDEO_FILE: &'static str = "video.toml";

/// The name of a video's thumbnail, as a PNG image.
pub const THUMBNAIL_PNG_FILE: &'static str = "thumbnail.png";

/// The name of a video's thumbnail, as a JPEG image.
pub const THUMBNAIL_JPG_FILE: &'static str = "thumbnail.jpg";

/// A place in a store: the root's own path, then the name of each step below it.
#[derive(Debug, PartialEq, Eq)]
pub struct StorePath {
    pub segments: Vec<String>,
}

impl View for StorePath {
    type V = Seq<Seq<char>>;

    open spec fn view(&self) -> Seq<Seq<char>> {
        self.segments.deep_view()
    }
}

/// Where the channel's settings lie in the store at `root`.
pub open spec fn global_config_path(root: Seq<char>) -> Seq<Seq<char>> {
    seq![root, GLOBAL_CONFIG_FILE@]
}

/// Where the document of the video `id` lies in the store at `root`.
pub open spec fn video_path(root: Seq<char>, id: Seq<char>) -> Seq<Seq<char>> {
    seq![root, id, VIDEO_FILE@]
}

/// Where the PNG thumbnail of the video `id` lies in the store at `root`.
pub open spec fn thumbnail_png_path(root: Seq<char>, id: Seq<char>) -> Seq<Seq<char>> {
    seq![root, id, THUMBNAIL_PNG_FILE@]
}

/// Where the JPEG thumbnail of the video `id` lies in the store at `root`.
pub open spec fn thumbnail_jpg_path(root: Seq<char>, id: Seq<char>) -> Seq<Seq<char>> {
    seq![root, id, THUMBNAIL_JPG_FILE@]
}

impl StorePath {
    /// The file `name` that lies directly in the directory `root`.
    pub fn in_root(root: &str, name: &str) -> (path: StorePath)
        ensures
            path@ == seq![root@, name@],
    {
        let mut segments: Vec<String> = Vec::new();
        segments.push(root.to_owned());
        segments.push(name.to_owned());
        let path = StorePath { segments };
        assert(path@ =~= seq![root@, name@]);
        path
    }

    /// The file `name` in the directory of the video `id`, below the
    /// directory `root`.
    pub fn in_video(root: &str, id: &str, name: &str) -> (path: StorePath)
        ensures
            path@ == seq![root@, id@, name@],
    {
        let mut segments: Vec<String> = Vec::new();
        segments.push(root.to_owned());
        segments.push(id.to_owned());
        segments.push(name.to_owned());
        let path = StorePath { segments };
        assert(path@ =~= seq![root@, id@, name@]);
        path
    }
}

} // verus!
