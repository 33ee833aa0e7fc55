//! What holds of every store, whatever its files hold.

use crate::document::{field_at, toml_parse, FieldView};
use crate::fdahm_result::FdahmErrorView;
use crate::fdahm_storage::{
    entry_of, lemma_listing_failure_is_final, listing, thumbnail_at, video_at, DirChildView,
    VideoView, PUBLISHED_KEY,
};
use crate::store_path::{thumbnail_jpg_path, thumbnail_png_path};
use vstd::prelude::*;

verus! {

/// Whether `child` is a directory whose video cannot be had.
pub open spec fn fails(root: Seq<char>, child: DirChildView) -> bool {
    entry_of(root, child) matches Some(Err(_))
}

/// The video that `child` adds to a listing, if it adds one.
pub open spec fn video_of(root: Seq<char>, child: DirChildView) -> Option<VideoView> {
    match entry_of(root, child) {
        Some(Ok(video)) => Some(video),
        _ => None,
    }
}

/// The videos that `children` add to a listing, in their order.
pub open spec fn videos_of(root: Seq<char>, children: Seq<DirChildView>) -> Seq<VideoView>
    decreases children.len(),
{
    if children.len() == 0 {
        Seq::empty()
    } else {
        match video_of(root, children.last()) {
            Some(video) => videos_of(root, children.drop_last()).push(video),
            None => videos_of(root, children.drop_last()),
        }
    }
}

/// How many of `children` are directories.
pub open spec fn directories(children: Seq<DirChildView>) -> nat
    decreases children.len(),
{
    if children.len() == 0 {
        0
    } else if children.last() is Directory {
        directories(children.drop_last()) + 1
    } else {
        directories(children.drop_last())
    }
}

/// A video whose document has no key `published` is not published, and one
/// whose document holds `published = true` is. More than that: a video that
/// can be had is published if and only if its document holds
/// `published = true`.
pub proof fn law_published_follows_key(root: Seq<char>, id: Seq<char>, text: Seq<char>)
    requires
        video_at(root, id, Ok(text)) is Ok,
    ensures
        toml_parse(text) is Ok,
        field_at(toml_parse(text)->Ok_0, PUBLISHED_KEY@) is None ==> !video_at(
            root,
            id,
            Ok(text),
        )->Ok_0.meta.published,
        field_at(toml_parse(text)->Ok_0, PUBLISHED_KEY@) == Some(FieldView::Boolean(true))
            ==> video_at(root, id, Ok(text))->Ok_0.meta.published,
        video_at(root, id, Ok(text))->Ok_0.meta.published <==> field_at(
            toml_parse(text)->Ok_0,
            PUBLISHED_KEY@,
        ) == Some(FieldView::Boolean(true)),
{
}

/// A video has a thumbnail exactly where one of the two files is there and
/// the other is not, and the thumbnail is then that file. With both files
/// the thumbnail is ambiguous, with neither there is none.
pub proof fn law_thumbnail_is_the_one_file(
    root: Seq<char>,
    id: Seq<char>,
    png_exists: bool,
    jpg_exists: bool,
)
    ensures
        thumbnail_at(root, id, png_exists, jpg_exists) is Ok <==> png_exists != jpg_exists,
        png_exists && jpg_exists ==> thumbnail_at(root, id, png_exists, jpg_exists) == Err::<
            Seq<Seq<char>>,
            FdahmErrorView,
        >(FdahmErrorView::AmbiguousThumbnail(id)),
        !png_exists && !jpg_exists ==> thumbnail_at(root, id, png_exists, jpg_exists) == Err::<
            Seq<Seq<char>>,
            FdahmErrorView,
        >(FdahmErrorView::NoThumbnail(id)),
        png_exists && !jpg_exists ==> thumbnail_at(root, id, png_exists, jpg_exists) == Ok::<
            Seq<Seq<char>>,
            FdahmErrorView,
        >(thumbnail_png_path(root, id)),
        !png_exists && jpg_exists ==> thumbnail_at(root, id, png_exists, jpg_exists) == Ok::<
            Seq<Seq<char>>,
            FdahmErrorView,
        >(thumbnail_jpg_path(root, id)),
{
}

/// A listing succeeds if and only if every directory of the root holds a
/// video that can be had.
pub proof fn law_listing_succeeds_iff_no_directory_fails(
    root: Seq<char>,
    children: Seq<DirChildView>,
)
    ensures
        listing(root, children) is Ok <==> forall|i: int|
            0 <= i < children.len() ==> !fails(root, #[trigger] children[i]),
    decreases children.len(),
{
    if children.len() > 0 {
        let rest = children.drop_last();
        law_listing_succeeds_iff_no_directory_fails(root, rest);
        if listing(root, children) is Ok {
            assert forall|i: int| 0 <= i < children.len() implies !fails(
                root,
                #[trigger] children[i],
            ) by {
                if i < rest.len() {
                    assert(rest[i] == children[i]);
                }
            }
        } else if listing(root, rest) is Ok {
            assert(fails(root, children[children.len() - 1]));
        } else {
            let i = choose|i: int| 0 <= i < rest.len() && fails(root, #[trigger] rest[i]);
            assert(fails(root, children[i]));
        }
    }
}

/// A listing that succeeds holds the video of each directory of the root,
/// once and in the order of the walk, and nothing else: as many videos as
/// there are directories.
pub proof fn law_listing_holds_the_directories(root: Seq<char>, children: Seq<DirChildView>)
    requires
        listing(root, children) is Ok,
    ensures
        listing(root, children)->Ok_0 == videos_of(root, children),
        listing(root, children)->Ok_0.len() == directories(children),
    decreases children.len(),
{
    if children.len() > 0 {
        law_listing_holds_the_directories(root, children.drop_last());
    }
}

/// A listing fails with the error of the first directory whose video cannot
/// be had. The videos of the other directories are not returned.
pub proof fn law_listing_fails_as_the_first_failure(
    root: Seq<char>,
    children: Seq<DirChildView>,
    first: int,
)
    requires
        0 <= first < children.len(),
        fails(root, children[first]),
        forall|i: int| 0 <= i < first ==> !fails(root, #[trigger] children[i]),
    ensures
        listing(root, children) == Err::<Seq<VideoView>, FdahmErrorView>(
            entry_of(root, children[first])->Some_0->Err_0,
        ),
{
    let before = children.take(first);
    let upto = children.take(first + 1);
    assert forall|i: int| 0 <= i < before.len() implies !fails(root, #[trigger] before[i]) by {
        assert(before[i] == children[i]);
    }
    law_listing_succeeds_iff_no_directory_fails(root, before);
    assert(upto.drop_last() =~= before);
    assert(upto.last() == children[first]);
    lemma_listing_failure_is_final(root, children, first + 1);
}

/// A child that is no directory changes nothing in a listing, wherever it
/// stands among the others.
pub proof fn law_listing_skips_what_is_no_directory(
    root: Seq<char>,
    before: Seq<DirChildView>,
    child: DirChildView,
    after: Seq<DirChildView>,
)
    requires
        !(child is Directory),
    ensures
        listing(root, before.push(child) + after) == listing(root, before + after),
    decreases after.len(),
{
    if after.len() == 0 {
        assert(before.push(child) + after =~= before.push(child));
        assert(before + after =~= before);
        assert(before.push(child).drop_last() =~= before);
    } else {
        law_listing_skips_what_is_no_directory(root, before, child, after.drop_last());
        assert((before.push(child) + after).drop_last() =~= before.push(child) + after.drop_last());
        assert((before + after).drop_last() =~= before + after.drop_last());
    }
}

} // verus!
