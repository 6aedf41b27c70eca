use vstd::prelude::*;
use crate::model::Post;

verus! {

/// A post is downloaded when it has a non-empty media URL, its local media path
/// has been derived, and no file exists at that path yet.
pub open spec fn eligible(p: Post, exists: bool) -> bool {
    &&& p.file.url is Some
    &&& p.file.url->0@.len() > 0
    &&& p.file_path is Some
    &&& !exists
}

/// The indices of `posts` chosen for download, in page order.
pub open spec fn selects(posts: Seq<Post>, exists: Seq<bool>, r: Seq<usize>) -> bool {
    &&& forall|k: int| 0 <= k < r.len() ==> #[trigger] r[k] < posts.len()
    &&& forall|j: int, k: int| 0 <= j < k < r.len() ==> r[j] < r[k]
    &&& forall|i: int|
        0 <= i < posts.len() ==> (#[trigger] eligible(posts[i], exists[i]) <==> r.contains(
            i as usize,
        ))
}

fn has_url(p: &Post) -> (r: bool)
    ensures
        r == (p.file.url is Some && p.file.url->0@.len() > 0),
{
    match &p.file.url {
        Some(u) => !u.as_str().is_empty(),
        None => false,
    }
}

/// Picks the posts of a page that still need downloading. `exists[i]` tells
/// whether a file is present at the media path of `posts[i]`.
pub fn downloadable(posts: &Vec<Post>, exists: &Vec<bool>) -> (r: Vec<usize>)
    requires
        exists@.len() == posts@.len(),
    ensures
        selects(posts@, exists@, r@),
{
    let mut r: Vec<usize> = Vec::new();
    let mut i: usize = 0;
    while i < posts.len()
        invariant
            i <= posts@.len(),
            exists@.len() == posts@.len(),
            forall|k: int| 0 <= k < r@.len() ==> #[trigger] r@[k] < i,
            forall|j: int, k: int| 0 <= j < k < r@.len() ==> r@[j] < r@[k],
            forall|m: int|
                0 <= m < i ==> (#[trigger] eligible(posts@[m], exists@[m]) <==> r@.contains(
                    m as usize,
                )),
        decreases posts@.len() - i,
    {
        let p = &posts[i];
        let ghost before = r@;
        if has_url(p) && p.file_path.is_some() && !exists[i] {
            r.push(i);
        }
        proof {
            assert forall|m: int| 0 <= m <= i implies (#[trigger] eligible(posts@[m], exists@[m])
                <==> r@.contains(m as usize)) by {
                if r@.contains(m as usize) {
                    let k = choose|k: int| 0 <= k < r@.len() && r@[k] == m as usize;
                    if k < before.len() {
                        assert(before[k] == r@[k]);
                    }
                }
                if m < i && before.contains(m as usize) {
                    let k = choose|k: int| 0 <= k < before.len() && before[k] == m as usize;
                    assert(r@[k] == before[k]);
                }
                if m == i && before.contains(m as usize) {
                    let k = choose|k: int| 0 <= k < before.len() && before[k] == m as usize;
                    assert(before[k] < i);
                }
                if r@.len() > before.len() {
                    assert(r@[before.len() as int] == i);
                }
            }
        }
        i = i + 1;
    }
    r
}

/// Whether a file is present at each post's media path, given the set of
/// paths present on disk.
pub open spec fn presence(posts: Seq<Post>, files: Set<Seq<char>>) -> Seq<bool> {
    Seq::new(
        posts.len(),
        |i: int| posts[i].file_path is Some && files.contains(posts[i].file_path->0@),
    )
}

/// The paths on disk after every selected post of a page was downloaded and
/// recorded: its media file and its metadata file are added.
pub open spec fn files_after(posts: Seq<Post>, files: Set<Seq<char>>) -> Set<Seq<char>> {
    files + Set::new(
        |path: Seq<char>|
            exists|i: int|
                0 <= i < posts.len() && #[trigger] eligible(posts[i], presence(posts, files)[i])
                    && (path == posts[i].file_path->0@ || (posts[i].tags_path is Some && path
                    == posts[i].tags_path->0@)),
    )
}

/// Running a page a second time, after every download of the first run
/// succeeded, downloads nothing and leaves the files on disk unchanged.
pub proof fn lemma_rerun_downloads_nothing(posts: Seq<Post>, files: Set<Seq<char>>)
    ensures
        forall|r: Seq<usize>|
            selects(posts, presence(posts, files_after(posts, files)), r) ==> r.len() == 0,
        files_after(posts, files_after(posts, files)) == files_after(posts, files),
{
    let after = files_after(posts, files);
    assert forall|i: int| 0 <= i < posts.len() implies !#[trigger] eligible(
        posts[i],
        presence(posts, after)[i],
    ) by {
        if eligible(posts[i], presence(posts, files)[i]) {
            assert(after.contains(posts[i].file_path->0@));
        } else if posts[i].file_path is Some && posts[i].file.url is Some && posts[i].file.url->0@.len() > 0 {
            assert(files.contains(posts[i].file_path->0@));
        }
    }
    assert forall|r: Seq<usize>|
        selects(posts, presence(posts, after), r) implies r.len() == 0 by {
        if r.len() > 0 {
            let i = r[0] as int;
            assert(r.contains(r[0]));
            assert(eligible(posts[i], presence(posts, after)[i]));
        }
    }
    assert(files_after(posts, after) =~= after);
}

} // verus!
