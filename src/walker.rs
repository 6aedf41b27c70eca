use vstd::prelude::*;

verus! {

/// Pause after every media download attempt, in milliseconds.
pub const DOWNLOAD_DELAY_MS: u64 = 1500;

/// Pause between two page requests, in milliseconds.
pub const PAGE_DELAY_MS: u64 = 1500;

/// Printed once the walk has completed.
pub const COMPLETION_MESSAGE: &'static str = "Done! Enjoy that offline archive!";

/// What came back from one page request.
#[derive(Debug, Clone, Copy, PartialEq, Eq, Structural)]
pub enum PageOutcome {
    /// The page was received and decoded; it holds `item_count` posts.
    Fetched { item_count: usize },
    /// Connection failure, non-success status, or a body that did not decode.
    Failed,
}

/// What the page walk does next.
#[derive(Debug, Clone, Copy, PartialEq, Eq, Structural)]
pub enum WalkStep {
    /// Request page `page`.
    Fetch { page: usize },
    /// An empty page was seen: the walk is complete.
    Done,
    /// A page request failed: the walk stops without completing.
    Aborted,
}

/// What happened to one selected post.
#[derive(Debug, Clone, Copy, PartialEq, Eq, Structural)]
pub enum ItemEvent {
    /// The media request failed before a response arrived.
    TransportFailed,
    /// The media request was answered with `status`; `body_complete` tells
    /// whether the whole body was received.
    Responded { status: u16, body_complete: bool },
    /// Writing the media file finished, successfully or not.
    MediaWritten { ok: bool },
}

/// What is done next for one selected post.
#[derive(Debug, Clone, Copy, PartialEq, Eq, Structural)]
pub enum ItemStep {
    /// Write the received body to the post's media path.
    WriteMedia,
    /// Write the post's record to its metadata path.
    WriteMetadata,
    /// Leave the post for a later run.
    Skip,
}

/// A status in the success class.
pub open spec fn is_success(status: u16) -> bool {
    200 <= status <= 299
}

/// The step that follows a page request for page `page`.
pub open spec fn after_page_spec(page: usize, outcome: PageOutcome) -> WalkStep {
    match outcome {
        PageOutcome::Failed => WalkStep::Aborted,
        PageOutcome::Fetched { item_count } => if item_count == 0 {
            WalkStep::Done
        } else {
            WalkStep::Fetch { page: (page + 1) as usize }
        },
    }
}

/// The step that follows an event of one selected post.
pub open spec fn next_item_step_spec(event: ItemEvent) -> ItemStep {
    match event {
        ItemEvent::TransportFailed => ItemStep::Skip,
        ItemEvent::Responded { status, body_complete } => if is_success(status) && body_complete {
            ItemStep::WriteMedia
        } else {
            ItemStep::Skip
        },
        ItemEvent::MediaWritten { ok } => if ok {
            ItemStep::WriteMetadata
        } else {
            ItemStep::Skip
        },
    }
}

/// The first step of a walk: request page 1.
pub fn start() -> (r: WalkStep)
    ensures
        r == (WalkStep::Fetch { page: 1 }),
{
    WalkStep::Fetch { page: 1 }
}

/// Classifies the answer to a page request: `status` is the HTTP status and
/// `decoded` the number of posts of the decoded body, if it decoded.
pub fn page_outcome(status: u16, decoded: Option<usize>) -> (r: PageOutcome)
    ensures
        r == (match decoded {
            Some(n) => if is_success(status) {
                PageOutcome::Fetched { item_count: n }
            } else {
                PageOutcome::Failed
            },
            None => PageOutcome::Failed,
        }),
{
    match decoded {
        Some(n) => if 200 <= status && status <= 299 {
            PageOutcome::Fetched { item_count: n }
        } else {
            PageOutcome::Failed
        },
        None => PageOutcome::Failed,
    }
}

/// The step after the request for page `page`: a failure aborts, an empty
/// page completes the walk, any other page leads to the next one.
pub fn after_page(page: usize, outcome: PageOutcome) -> (r: WalkStep)
    requires
        page < usize::MAX,
    ensures
        r == after_page_spec(page, outcome),
{
    match outcome {
        PageOutcome::Failed => WalkStep::Aborted,
        PageOutcome::Fetched { item_count } => if item_count == 0 {
            WalkStep::Done
        } else {
            WalkStep::Fetch { page: page + 1 }
        },
    }
}

/// The step after an event of one selected post: a complete successful
/// response is written to disk, a written media file is followed by its
/// record, anything else leaves the post for a later run.
pub fn next_item_step(event: ItemEvent) -> (r: ItemStep)
    ensures
        r == next_item_step_spec(event),
{
    match event {
        ItemEvent::TransportFailed => ItemStep::Skip,
        ItemEvent::Responded { status, body_complete } => if 200 <= status && status <= 299
            && body_complete {
            ItemStep::WriteMedia
        } else {
            ItemStep::Skip
        },
        ItemEvent::MediaWritten { ok } => if ok {
            ItemStep::WriteMetadata
        } else {
            ItemStep::Skip
        },
    }
}

/// The walk halts exactly on an empty page or a failed request, and it never
/// halts on a page that holds posts.
pub proof fn lemma_halts_exactly_on_empty_page(page: usize, item_count: usize)
    requires
        page < usize::MAX,
    ensures
        (after_page_spec(page, PageOutcome::Fetched { item_count }) == WalkStep::Done) <==> (
        item_count == 0),
        item_count > 0 ==> after_page_spec(page, PageOutcome::Fetched { item_count })
            == (WalkStep::Fetch { page: (page + 1) as usize }),
{
}

/// A failed page request ends the walk: no further page is requested.
pub proof fn lemma_failure_requests_nothing_more(page: usize)
    ensures
        after_page_spec(page, PageOutcome::Failed) == WalkStep::Aborted,
        forall|p: usize| after_page_spec(page, PageOutcome::Failed) != (WalkStep::Fetch { page: p }),
{
}

} // verus!
