//! What the commands around a store decide: which videos a listing shows,
//! what a new video starts with, and whether a video may be published.

use crate::fdahm_result::{result_view, FdahmError, FdahmErrorView, FdahmResult};
use crate::fdahm_storage::{Video, VideoMeta, VideoMetaView, VideoView};
use vstd::prelude::*;

verus! {

impl VideoMeta {
    /// What is known of a video when its directory is made: the title that
    /// was given, or else the directory's name; the views that were given, or
    /// else none; and that it is not published.
    pub fn initial(slug: String, title: Option<String>, views: Option<u64>) -> (meta: VideoMeta)
        ensures
            meta@ == (VideoMetaView {
                title: match title {
                    Some(title) => title@,
                    None => slug@,
                },
                views: match views {
                    Some(views) => views,
                    None => 0,
                },
                published: false,
            }),
    {
        VideoMeta {
            title: match title {
                Some(title) => title,
                None => slug,
            },
            views: match views {
                Some(views) => views,
                None => 0,
            },
            published: false,
        }
    }
}

impl Video {
    /// Whether the video may be published: one that is marked as published
    /// may not, unless this is forced.
    pub fn check_publishable(&self, force: bool) -> (r: FdahmResult<()>)
        ensures
            result_view(r) == if self.meta.published && !force {
                Err::<(), FdahmErrorView>(FdahmErrorView::AlreadyPublished)
            } else {
                Ok::<(), FdahmErrorView>(())
            },
    {
        if self.meta.published && !force {
            Err(FdahmError::AlreadyPublished)
        } else {
            Ok(())
        }
    }
}

/// Whether a video is still to be published.
pub open spec fn is_unpublished(video: VideoView) -> bool {
    !video.meta.published
}

/// Those of `videos` that are still to be published, in their order.
pub open spec fn unpublished(videos: Seq<VideoView>) -> Seq<VideoView> {
    videos.filter(|video: VideoView| is_unpublished(video))
}

proof fn lemma_unpublished_push(videos: Seq<VideoView>, video: VideoView)
    ensures
        unpublished(videos.push(video)) == if is_unpublished(video) {
            unpublished(videos).push(video)
        } else {
            unpublished(videos)
        },
{
    reveal(Seq::filter);
    assert(videos.push(video).drop_last() =~= videos);
}

/// The videos that a listing shows: all of them where `all` is set, else
/// those that are still to be published. Their order is kept.
pub fn shown_videos(videos: Vec<Video>, all: bool) -> (shown: Vec<Video>)
    ensures
        shown.deep_view() == if all {
            videos.deep_view()
        } else {
            unpublished(videos.deep_view())
        },
{
    if all {
        return videos;
    }
    let ghost given = videos.deep_view();
    let mut shown: Vec<Video> = Vec::new();
    assert(given.take(0) =~= Seq::empty());
    assert(shown.deep_view() =~= Seq::empty());
    for video in it: videos
        invariant
            given == videos.deep_view(),
            it.seq().len() == given.len(),
            forall|i: int| 0 <= i < given.len() ==> (#[trigger] it.seq()[i])@ == given[i],
            shown.deep_view() == unpublished(given.take(it.index() as int)),
    {
        let ghost seen = it.index() as int;
        let ghost before = shown.deep_view();
        proof {
            assert(given.take(seen + 1) =~= given.take(seen).push(video@));
            lemma_unpublished_push(given.take(seen), video@);
        }
        if !video.meta.published {
            shown.push(video);
            assert(shown.deep_view() =~= before.push(video@));
        }
    }
    assert(given.take(given.len() as int) =~= given);
    shown
}

} // verus!
