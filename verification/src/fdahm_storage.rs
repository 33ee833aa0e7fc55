//! The store: its documents, its videos, and what each operation decides.

use crate::document::{
    count_field, count_of, field_at, field_view, flag_field, flag_of, parse_table, parsed,
    table_get, text_field, text_of, Field, FieldView, Fields, Schema,
};
use crate::fdahm_result::{
    decoded_view, outcome_view, result_view, DocumentFault, DocumentFaultView, FdahmError,
    FdahmErrorView, FdahmResult, ReadOutcome, WriteOutcome,
};
use crate::rewrite::{set_flag, toml_with_flag};
use crate::store_path::{
    global_config_path, thumbnail_jpg_path, thumbnail_png_path, video_path, StorePath,
    GLOBAL_CONFIG_FILE, THUMBNAIL_JPG_FILE, THUMBNAIL_PNG_FILE, VIDEO_FILE,
};
use vstd::prelude::*;

verus! {

/// The key of a channel's identifier.
pub const CHANNEL_ID_KEY: &'static str = "channel_id";

/// The key of a channel's name.
pub const NAME_KEY: &'static str = "name";

/// The key of the address of a channel's picture.
pub const PP_URL_KEY: &'static str = "pp_url";

/// The key of a video's title.
pub const TITLE_KEY: &'static str = "title";

/// The key of a video's number of views.
pub const VIEWS_KEY: &'static str = "views";

/// The key that says whether a video has been published.
pub const PUBLISHED_KEY: &'static str = "published";

/// The settings of the channel that the videos of a store are published to.
#[derive(Debug, PartialEq, Eq)]
pub struct GlobalConfig {
    pub channel_id: u64,
    pub name: String,
    pub pp_url: String,
}

/// A [`GlobalConfig`] as contracts speak of it.
pub ghost struct GlobalConfigView {
    pub channel_id: u64,
    pub name: Seq<char>,
    pub pp_url: Seq<char>,
}

impl View for GlobalConfig {
    type V = GlobalConfigView;

    open spec fn view(&self) -> GlobalConfigView {
        GlobalConfigView { channel_id: self.channel_id, name: self.name@, pp_url: self.pp_url@ }
    }
}

/// What a video's document says of it.
#[derive(Debug, PartialEq, Eq)]
pub struct VideoMeta {
    pub title: String,
    pub views: u64,
    pub published: bool,
}

/// A [`VideoMeta`] as contracts speak of it.
pub ghost struct VideoMetaView {
    pub title: Seq<char>,
    pub views: u64,
    pub published: bool,
}

impl View for VideoMeta {
    type V = VideoMetaView;

    open spec fn view(&self) -> VideoMetaView {
        VideoMetaView { title: self.title@, views: self.views, published: self.published }
    }
}

/// A video of a store: the name of its directory, and what its document says.
#[derive(Debug, PartialEq, Eq)]
pub struct Video {
    pub id: String,
    pub meta: VideoMeta,
}

/// A [`Video`] as contracts speak of it.
pub ghost struct VideoView {
    pub id: Seq<char>,
    pub meta: VideoMetaView,
}

impl View for Video {
    type V = VideoView;

    open spec fn view(&self) -> VideoView {
        VideoView { id: self.id@, meta: self.meta@ }
    }
}

impl DeepView for Video {
    type V = VideoView;

    open spec fn deep_view(&self) -> VideoView {
        self@
    }
}

impl GlobalConfig {
    /// The settings that stand under the three keys of a channel's document.
    /// All three must be there. Where more than one is at fault, the first in
    /// the order identifier, name, picture is reported.
    pub open spec fn of_parts(
        channel_id: Option<FieldView>,
        name: Option<FieldView>,
        pp_url: Option<FieldView>,
    ) -> Result<GlobalConfigView, DocumentFaultView> {
        match count_of(CHANNEL_ID_KEY@, channel_id) {
            Err(fault) => Err(fault),
            Ok(channel_id) => match text_of(NAME_KEY@, name) {
                Err(fault) => Err(fault),
                Ok(name) => match text_of(PP_URL_KEY@, pp_url) {
                    Err(fault) => Err(fault),
                    Ok(pp_url) => Ok(GlobalConfigView { channel_id, name, pp_url }),
                },
            },
        }
    }

    /// Makes the settings of what was found under the three keys.
    pub fn from_fields(channel_id: Option<Field>, name: Option<Field>, pp_url: Option<Field>) -> (r:
        Result<GlobalConfig, DocumentFault>)
        ensures
            decoded_view(r) == Self::of_parts(
                field_view(channel_id),
                field_view(name),
                field_view(pp_url),
            ),
    {
        let channel_id = match count_field(CHANNEL_ID_KEY, channel_id) {
            Ok(channel_id) => channel_id,
            Err(fault) => return Err(fault),
        };
        let name = match text_field(NAME_KEY, name) {
            Ok(name) => name,
            Err(fault) => return Err(fault),
        };
        let pp_url = match text_field(PP_URL_KEY, pp_url) {
            Ok(pp_url) => pp_url,
            Err(fault) => return Err(fault),
        };
        Ok(GlobalConfig { channel_id, name, pp_url })
    }
}

impl Schema for GlobalConfig {
    open spec fn of_fields(fields: Fields) -> Result<GlobalConfigView, DocumentFaultView> {
        Self::of_parts(
            field_at(fields, CHANNEL_ID_KEY@),
            field_at(fields, NAME_KEY@),
            field_at(fields, PP_URL_KEY@),
        )
    }

    fn parse(text: &str) -> (r: Result<GlobalConfig, DocumentFault>) {
        match parse_table(text) {
            Err(message) => Err(DocumentFault::Syntax { message }),
            Ok(table) => {
                let channel_id = table_get(&table, CHANNEL_ID_KEY);
                let name = table_get(&table, NAME_KEY);
                let pp_url = table_get(&table, PP_URL_KEY);
                GlobalConfig::from_fields(channel_id, name, pp_url)
            },
        }
    }
}

impl VideoMeta {
    /// What stands under the three keys of a video's document. Title and
    /// views must be there; a video without the third key is not published.
    /// Where more than one key is at fault, the first in the order title,
    /// views, published is reported.
    pub open spec fn of_parts(
        title: Option<FieldView>,
        views: Option<FieldView>,
        published: Option<FieldView>,
    ) -> Result<VideoMetaView, DocumentFaultView> {
        match text_of(TITLE_KEY@, title) {
            Err(fault) => Err(fault),
            Ok(title) => match count_of(VIEWS_KEY@, views) {
                Err(fault) => Err(fault),
                Ok(views) => match flag_of(PUBLISHED_KEY@, published) {
                    Err(fault) => Err(fault),
                    Ok(published) => Ok(VideoMetaView { title, views, published }),
                },
            },
        }
    }

    /// Makes a video's description of what was found under the three keys.
    pub fn from_fields(title: Option<Field>, views: Option<Field>, published: Option<Field>) -> (r:
        Result<VideoMeta, DocumentFault>)
        ensures
            decoded_view(r) == Self::of_parts(
                field_view(title),
                field_view(views),
                field_view(published),
            ),
    {
        let title = match text_field(TITLE_KEY, title) {
            Ok(title) => title,
            Err(fault) => return Err(fault),
        };
        let views = match count_field(VIEWS_KEY, views) {
            Ok(views) => views,
            Err(fault) => return Err(fault),
        };
        let published = match flag_field(PUBLISHED_KEY, published) {
            Ok(published) => published,
            Err(fault) => return Err(fault),
        };
        Ok(VideoMeta { title, views, published })
    }
}

impl Schema for VideoMeta {
    open spec fn of_fields(fields: Fields) -> Result<VideoMetaView, DocumentFaultView> {
        Self::of_parts(
            field_at(fields, TITLE_KEY@),
            field_at(fields, VIEWS_KEY@),
            field_at(fields, PUBLISHED_KEY@),
        )
    }

    fn parse(text: &str) -> (r: Result<VideoMeta, DocumentFault>) {
        match parse_table(text) {
            Err(message) => Err(DocumentFault::Syntax { message }),
            Ok(table) => {
                let title = table_get(&table, TITLE_KEY);
                let views = table_get(&table, VIEWS_KEY);
                let published = table_get(&table, PUBLISHED_KEY);
                VideoMeta::from_fields(title, views, published)
            },
        }
    }
}

/// What comes of reading the document of kind `T` at `path`: the value that
/// it stands for, or why there is none.
pub open spec fn document_at<T: Schema>(path: Seq<Seq<char>>, read: Result<Seq<char>, Seq<char>>)
    -> Result<T::V, FdahmErrorView> {
    match read {
        Err(base) => Err(FdahmErrorView::CannotRead { base, path }),
        Ok(text) => match parsed::<T>(text) {
            Ok(value) => Ok(value),
            Err(base) => Err(FdahmErrorView::MalformedToml { base, path }),
        },
    }
}

/// Takes what reading the file at `path` gave for a document of kind `T`.
pub fn read_toml<T: Schema>(path: StorePath, read: ReadOutcome) -> (r: FdahmResult<T>)
    ensures
        result_view(r) == document_at::<T>(path@, outcome_view(read)),
{
    match read {
        Err(base) => Err(FdahmError::CannotRead { base, path }),
        Ok(text) => match T::parse(text.as_str()) {
            Ok(value) => Ok(value),
            Err(base) => Err(FdahmError::MalformedToml { base, path }),
        },
    }
}

/// What a walk through the root of a store saw of one child.
#[derive(Debug, PartialEq, Eq)]
pub enum DirChild {
    /// The walk failed on this child: not even its name is known.
    Unreadable,
    /// A child of which the system would not say what it is.
    Unknown { name: String },
    /// A child that is no directory.
    Other { name: String },
    /// A directory, with what reading the `video.toml` in it gave.
    Directory { name: String, document: ReadOutcome },
}

/// A [`DirChild`] as contracts speak of it.
pub ghost enum DirChildView {
    Unreadable,
    Unknown { name: Seq<char> },
    Other { name: Seq<char> },
    Directory { name: Seq<char>, document: Result<Seq<char>, Seq<char>> },
}

impl View for DirChild {
    type V = DirChildView;

    open spec fn view(&self) -> DirChildView {
        match self {
            DirChild::Unreadable => DirChildView::Unreadable,
            DirChild::Unknown { name } => DirChildView::Unknown { name: name@ },
            DirChild::Other { name } => DirChildView::Other { name: name@ },
            DirChild::Directory { name, document } => DirChildView::Directory {
                name: name@,
                document: outcome_view(*document),
            },
        }
    }
}

impl DeepView for DirChild {
    type V = DirChildView;

    open spec fn deep_view(&self) -> DirChildView {
        self@
    }
}

/// The video `id` of the store at `root`, given what reading its document
/// gave.
pub open spec fn video_at(root: Seq<char>, id: Seq<char>, read: Result<Seq<char>, Seq<char>>)
    -> Result<VideoView, FdahmErrorView> {
    match document_at::<VideoMeta>(video_path(root, id), read) {
        Ok(meta) => Ok(VideoView { id, meta }),
        Err(error) => Err(error),
    }
}

/// What `child`, seen in the root of the store at `root`, adds to a listing:
/// nothing unless it is a directory; else the video in it, or why that cannot
/// be had.
pub open spec fn entry_of(root: Seq<char>, child: DirChildView) -> Option<
    Result<VideoView, FdahmErrorView>,
> {
    match child {
        DirChildView::Directory { name, document } => Some(video_at(root, name, document)),
        _ => None,
    }
}

/// The videos of the store at `root`, given its children in the order of the
/// walk: one for each directory, in that order. A child that is no directory,
/// or that the walk could not make out, counts for nothing. The first
/// directory whose video cannot be had makes the whole listing fail, with that
/// video's error.
pub open spec fn listing(root: Seq<char>, children: Seq<DirChildView>) -> Result<
    Seq<VideoView>,
    FdahmErrorView,
>
    decreases children.len(),
{
    if children.len() == 0 {
        Ok(Seq::empty())
    } else {
        match listing(root, children.drop_last()) {
            Err(error) => Err(error),
            Ok(videos) => match entry_of(root, children.last()) {
                None => Ok(videos),
                Some(Ok(video)) => Ok(videos.push(video)),
                Some(Err(error)) => Err(error),
            },
        }
    }
}

/// A listing as contracts speak of it.
pub open spec fn listing_view(result: FdahmResult<Vec<Video>>) -> Result<
    Seq<VideoView>,
    FdahmErrorView,
> {
    match result {
        Ok(videos) => Ok(videos.deep_view()),
        Err(error) => Err(error@),
    }
}

/// A listing that has failed stays failed, whatever children follow.
pub proof fn lemma_listing_failure_is_final(
    root: Seq<char>,
    children: Seq<DirChildView>,
    seen: int,
)
    requires
        0 <= seen <= children.len(),
        listing(root, children.take(seen)) is Err,
    ensures
        listing(root, children) == listing(root, children.take(seen)),
    decreases children.len(),
{
    if seen < children.len() {
        assert(children.drop_last().take(seen) =~= children.take(seen));
        lemma_listing_failure_is_final(root, children.drop_last(), seen);
    } else {
        assert(children.take(seen) =~= children);
    }
}

/// The thumbnail of the video `id` of the store at `root`, given which of the
/// two files are there. Exactly one of them must be.
pub open spec fn thumbnail_at(root: Seq<char>, id: Seq<char>, png_exists: bool, jpg_exists: bool)
    -> Result<Seq<Seq<char>>, FdahmErrorView> {
    match (png_exists, jpg_exists) {
        (true, true) => Err(FdahmErrorView::AmbiguousThumbnail(id)),
        (false, false) => Err(FdahmErrorView::NoThumbnail(id)),
        (true, false) => Ok(thumbnail_png_path(root, id)),
        (false, true) => Ok(thumbnail_jpg_path(root, id)),
    }
}

/// A document that is to replace the file at `path` as a whole.
#[derive(Debug, PartialEq, Eq)]
pub struct Rewrite {
    pub path: StorePath,
    pub text: String,
}

/// A [`Rewrite`] as contracts speak of it.
pub ghost struct RewriteView {
    pub path: Seq<Seq<char>>,
    pub text: Seq<char>,
}

impl View for Rewrite {
    type V = RewriteView;

    open spec fn view(&self) -> RewriteView {
        RewriteView { path: self.path@, text: self.text@ }
    }
}

/// What is to be written to mark the video `id` of the store at `root` as
/// published, given what reading its document gave: the text that `toml_edit`
/// makes of the document with the key `published` set to true, for the file
/// that was read.
pub open spec fn published_rewrite(
    root: Seq<char>,
    id: Seq<char>,
    read: Result<Seq<char>, Seq<char>>,
) -> Result<RewriteView, FdahmErrorView> {
    let path = video_path(root, id);
    match read {
        Err(base) => Err(FdahmErrorView::CannotRead { base, path }),
        Ok(text) => match toml_with_flag(text, PUBLISHED_KEY@, true) {
            Ok(text) => Ok(RewriteView { path, text }),
            Err(message) => Err(
                FdahmErrorView::MalformedToml {
                    base: DocumentFaultView::Syntax { message },
                    path,
                },
            ),
        },
    }
}

impl Rewrite {
    /// What marking a video as published has come to, given what writing the
    /// document gave.
    pub fn finish(self, written: WriteOutcome) -> (r: FdahmResult<()>)
        ensures
            result_view(r) == match written {
                Ok(_) => Ok::<(), FdahmErrorView>(()),
                Err(base) => Err::<(), FdahmErrorView>(
                    FdahmErrorView::CannotMarkPublished { base: base@ },
                ),
            },
    {
        match written {
            Ok(_) => Ok(()),
            Err(base) => Err(FdahmError::CannotMarkPublished { base }),
        }
    }
}

/// A store: a directory of videos awaiting publication.
pub struct FdahmDirectory {
    dir: String,
}

impl View for FdahmDirectory {
    type V = Seq<char>;

    /// A store is known by the path of its root.
    open spec fn view(&self) -> Seq<char> {
        self.root()
    }
}

impl FdahmDirectory {
    /// The path of the store's root.
    pub closed spec fn root(&self) -> Seq<char> {
        self.dir@
    }

    /// The store at `dir`, given whether `dir` is a directory.
    pub fn new(dir: String, is_dir: bool) -> (r: FdahmResult<FdahmDirectory>)
        ensures
            result_view(r) == if is_dir {
                Ok::<Seq<char>, FdahmErrorView>(dir@)
            } else {
                Err::<Seq<char>, FdahmErrorView>(FdahmErrorView::NotADirectory { path: dir@ })
            },
    {
        if is_dir {
            Ok(FdahmDirectory { dir })
        } else {
            Err(FdahmError::NotADirectory { path: dir })
        }
    }

    /// The path of the store's root.
    pub fn dir(&self) -> (dir: &str)
        ensures
            dir@ == self.root(),
    {
        self.dir.as_str()
    }

    /// Where the channel's settings lie.
    pub fn global_config_path(&self) -> (path: StorePath)
        ensures
            path@ == global_config_path(self.root()),
    {
        StorePath::in_root(self.dir.as_str(), GLOBAL_CONFIG_FILE)
    }

    /// Where the document of the video `id` lies.
    pub fn video_path(&self, id: &str) -> (path: StorePath)
        ensures
            path@ == video_path(self.root(), id@),
    {
        StorePath::in_video(self.dir.as_str(), id, VIDEO_FILE)
    }

    /// Where the PNG thumbnail of the video `id` would lie.
    pub fn thumbnail_png_path(&self, id: &str) -> (path: StorePath)
        ensures
            path@ == thumbnail_png_path(self.root(), id@),
    {
        StorePath::in_video(self.dir.as_str(), id, THUMBNAIL_PNG_FILE)
    }

    /// Where the JPEG thumbnail of the video `id` would lie.
    pub fn thumbnail_jpg_path(&self, id: &str) -> (path: StorePath)
        ensures
            path@ == thumbnail_jpg_path(self.root(), id@),
    {
        StorePath::in_video(self.dir.as_str(), id, THUMBNAIL_JPG_FILE)
    }

    /// The channel's settings, given what reading the file at
    /// [`global_config_path`](Self::global_config_path) gave.
    pub fn global_config(&self, read: ReadOutcome) -> (r: FdahmResult<GlobalConfig>)
        ensures
            result_view(r) == document_at::<GlobalConfig>(
                global_config_path(self.root()),
                outcome_view(read),
            ),
    {
        read_toml::<GlobalConfig>(self.global_config_path(), read)
    }

    /// The video `id`, given what reading the file at
    /// [`video_path`](Self::video_path) gave. Whether there is such a video is
    /// not asked: where there is none, the read has failed.
    pub fn get_video_by_id(&self, id: String, read: ReadOutcome) -> (r: FdahmResult<Video>)
        ensures
            result_view(r) == video_at(self.root(), id@, outcome_view(read)),
    {
        let path = self.video_path(id.as_str());
        match read_toml::<VideoMeta>(path, read) {
            Ok(meta) => Ok(Video { id, meta }),
            Err(error) => Err(error),
        }
    }

    /// The thumbnail of `video`, given whether there is a file at
    /// [`thumbnail_png_path`](Self::thumbnail_png_path) and whether there is
    /// one at [`thumbnail_jpg_path`](Self::thumbnail_jpg_path).
    pub fn get_thumbnail(&self, video: &Video, png_exists: bool, jpg_exists: bool) -> (r:
        FdahmResult<StorePath>)
        ensures
            result_view(r) == thumbnail_at(self.root(), video.id@, png_exists, jpg_exists),
    {
        match (png_exists, jpg_exists) {
            (true, true) => Err(FdahmError::AmbiguousThumbnail(video.id.clone())),
            (false, false) => Err(FdahmError::NoThumbnail(video.id.clone())),
            (true, false) => Ok(self.thumbnail_png_path(video.id.as_str())),
            (false, true) => Ok(self.thumbnail_jpg_path(video.id.as_str())),
        }
    }

    /// The videos of the store, given what a walk through its root saw: see
    /// [`listing`].
    pub fn list_videos(&self, children: Vec<DirChild>) -> (r: FdahmResult<Vec<Video>>)
        ensures
            listing_view(r) == listing(self.root(), children.deep_view()),
    {
        let ghost all = children.deep_view();
        let mut videos: Vec<Video> = Vec::new();
        assert(all.take(0) =~= Seq::empty());
        assert(videos.deep_view() =~= Seq::empty());
        for child in it: children
            invariant
                all == children.deep_view(),
                it.seq().len() == all.len(),
                forall|i: int| 0 <= i < all.len() ==> (#[trigger] it.seq()[i])@ == all[i],
                listing(self.root(), all.take(it.index() as int)) == Ok::<
                    Seq<VideoView>,
                    FdahmErrorView,
                >(videos.deep_view()),
        {
            let ghost seen = it.index() as int;
            let ghost before = videos.deep_view();
            assert(all.take(seen + 1).drop_last() =~= all.take(seen));
            assert(all.take(seen + 1).last() == all[seen]);
            assert(child@ == all[seen]);
            match child {
                DirChild::Directory { name, document } => {
                    match self.get_video_by_id(name, document) {
                        Ok(video) => {
                            videos.push(video);
                            assert(videos.deep_view() =~= before.push(video@));
                        },
                        Err(error) => {
                            proof {
                                assert(listing(self.root(), all.take(seen + 1)) == Err::<
                                    Seq<VideoView>,
                                    FdahmErrorView,
                                >(error@));
                                lemma_listing_failure_is_final(self.root(), all, seen + 1);
                            }
                            return Err(error);
                        },
                    }
                },
                _ => {},
            }
        }
        assert(all.take(all.len() as int) =~= all);
        Ok(videos)
    }

    /// What is to be written to mark `video` as published, given what reading
    /// the file at [`video_path`](Self::video_path) gave just now. The key
    /// `published` of the document is set to true, whether it was there or
    /// not. The text is `toml_edit`'s, which is made to keep what it is not
    /// asked to change; how far it does is stated nowhere here. The caller
    /// writes the text and hands what came of it to [`Rewrite::finish`].
    pub fn mark_published(&self, video: &Video, read: ReadOutcome) -> (r: FdahmResult<Rewrite>)
        ensures
            result_view(r) == published_rewrite(self.root(), video.id@, outcome_view(read)),
    {
        let path = self.video_path(video.id.as_str());
        match read {
            Err(base) => Err(FdahmError::CannotRead { base, path }),
            Ok(text) => match set_flag(text.as_str(), PUBLISHED_KEY, true) {
                Ok(text) => Ok(Rewrite { path, text }),
                Err(message) => Err(
                    FdahmError::MalformedToml { base: DocumentFault::Syntax { message }, path },
                ),
            },
        }
    }
}

} // verus!
