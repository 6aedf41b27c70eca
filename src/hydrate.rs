use vstd::prelude::*;
use vstd::string::*;
use crate::model::{ApiResponse, Post};

verus! {

/// Name of the metadata directory inside the output directory.
pub const METADATA_DIR_NAME: &'static str = "metadata";

/// Extension of a metadata record.
pub const METADATA_EXT: &'static str = "json";

/// `<root>/<name>`.
pub open spec fn join_spec(root: Seq<char>, name: Seq<char>) -> Seq<char> {
    root + seq!['/'] + name
}

/// Local media path of an item: `<media_root>/<checksum>.<ext>`.
pub open spec fn media_path_spec(media_root: Seq<char>, md5: Seq<char>, ext: Seq<char>) -> Seq<char> {
    join_spec(media_root, md5 + seq!['.'] + ext)
}

/// Local metadata path of an item: `<metadata_root>/<checksum>.json`.
pub open spec fn metadata_path_spec(metadata_root: Seq<char>, md5: Seq<char>) -> Seq<char> {
    join_spec(metadata_root, md5 + seq!['.'] + METADATA_EXT@)
}

/// `q` is `p` with both derived paths filled in from `p`'s checksum and extension.
pub open spec fn hydrated_from(p: Post, q: Post, media_root: Seq<char>, metadata_root: Seq<char>) -> bool {
    &&& q.id == p.id
    &&& q.created_at == p.created_at
    &&& q.updated_at == p.updated_at
    &&& q.file == p.file
    &&& q.tags == p.tags
    &&& q.rating == p.rating
    &&& q.flags == p.flags
    &&& q.file_path is Some
    &&& q.file_path->0@ == media_path_spec(media_root, p.file.md5@, p.file.ext@)
    &&& q.tags_path is Some
    &&& q.tags_path->0@ == metadata_path_spec(metadata_root, p.file.md5@)
}

fn join(root: &str, name: &str) -> (r: String)
    ensures
        r@ == join_spec(root@, name@),
{
    let mut s = String::from_str(root);
    proof { reveal_strlit("/"); }
    s.append("/");
    s.append(name);
    s
}

/// The metadata directory `<output>/metadata` of an output directory.
pub fn metadata_root(output: &str) -> (r: String)
    ensures
        r@ == join_spec(output@, METADATA_DIR_NAME@),
{
    join(output, METADATA_DIR_NAME)
}

/// `<media_root>/<md5>.<ext>`.
pub fn media_path(media_root: &str, md5: &str, ext: &str) -> (r: String)
    ensures
        r@ == media_path_spec(media_root@, md5@, ext@),
{
    let mut name = String::from_str(md5);
    proof { reveal_strlit("."); }
    name.append(".");
    name.append(ext);
    let r = join(media_root, name.as_str());
    assert(r@ =~= media_path_spec(media_root@, md5@, ext@));
    r
}

/// `<metadata_root>/<md5>.json`.
pub fn metadata_path(metadata_root: &str, md5: &str) -> (r: String)
    ensures
        r@ == metadata_path_spec(metadata_root@, md5@),
{
    let mut name = String::from_str(md5);
    proof { reveal_strlit("."); }
    name.append(".");
    name.append(METADATA_EXT);
    let r = join(metadata_root, name.as_str());
    assert(r@ =~= metadata_path_spec(metadata_root@, md5@));
    r
}

impl ApiResponse {
    /// Fills in the local media path and metadata path of every post, keeping
    /// the order of the posts and every other field.
    pub fn hydrate(&mut self, output: &str, metadata_dir: &str)
        ensures
            final(self).posts@.len() == old(self).posts@.len(),
            forall|i: int|
                0 <= i < old(self).posts@.len() ==> hydrated_from(
                    #[trigger] old(self).posts@[i],
                    final(self).posts@[i],
                    output@,
                    metadata_dir@,
                ),
    {
        let mut pending: Vec<Post> = Vec::new();
        std::mem::swap(&mut pending, &mut self.posts);
        let ghost original = pending@;
        let mut done: Vec<Post> = Vec::new();
        while pending.len() > 0
            invariant
                done@.len() + pending@.len() == original.len(),
                pending@ == original.subrange(done@.len() as int, original.len() as int),
                forall|i: int|
                    0 <= i < done@.len() ==> hydrated_from(
                        #[trigger] original[i],
                        done@[i],
                        output@,
                        metadata_dir@,
                    ),
            decreases pending@.len(),
        {
            let mut post = pending.remove(0);
            let file_path = media_path(output, post.file.md5.as_str(), post.file.ext.as_str());
            let tags_path = metadata_path(metadata_dir, post.file.md5.as_str());
            post.file_path = Some(file_path);
            post.tags_path = Some(tags_path);
            done.push(post);
        }
        self.posts = done;
    }
}

/// Hydrated paths depend on content identity alone: two posts with the same
/// checksum share a metadata path, and with the same extension too they share
/// a media path, whatever their other fields hold.
pub proof fn lemma_paths_follow_identity(
    p: Post,
    hp: Post,
    q: Post,
    hq: Post,
    media_root: Seq<char>,
    metadata_root: Seq<char>,
)
    requires
        hydrated_from(p, hp, media_root, metadata_root),
        hydrated_from(q, hq, media_root, metadata_root),
        p.file.md5@ == q.file.md5@,
    ensures
        hp.tags_path->0@ == hq.tags_path->0@,
        hp.tags_path->0@ == join_spec(metadata_root, p.file.md5@ + seq!['.'] + METADATA_EXT@),
        p.file.ext@ == q.file.ext@ ==> hp.file_path->0@ == hq.file_path->0@,
        hp.file_path->0@ == join_spec(media_root, p.file.md5@ + seq!['.'] + p.file.ext@),
{
}

} // verus!
