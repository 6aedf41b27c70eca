use vstd::prelude::*;

verus! {

/// Media file description of one favorited post.
pub struct FileData {
    pub width: u32,
    pub height: u32,
    pub ext: String,
    pub size: u32,
    pub md5: String,
    /// Absent when the remote file has been removed.
    pub url: Option<String>,
}

/// Tag lists of a post, one per category.
pub struct Tags {
    pub general: Vec<String>,
    pub species: Vec<String>,
    pub character: Vec<String>,
    pub copyright: Vec<String>,
    pub artist: Vec<String>,
    pub invalid: Vec<String>,
    pub lore: Vec<String>,
    pub meta: Vec<String>,
}

/// Moderation status of a post.
pub struct Flags {
    pub pending: bool,
    pub flagged: bool,
    pub deleted: bool,
}

/// One favorited post. `file_path` and `tags_path` are derived locally by
/// `ApiResponse::hydrate`; they are `None` on a freshly decoded post.
pub struct Post {
    pub id: u64,
    pub created_at: String,
    pub updated_at: String,
    pub file: FileData,
    pub tags: Tags,
    pub rating: String,
    pub flags: Flags,
    pub file_path: Option<String>,
    pub tags_path: Option<String>,
}

/// One page of the favorites listing.
pub struct ApiResponse {
    pub posts: Vec<Post>,
}

} // verus!
