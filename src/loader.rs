//! The level loader: which level is requested, which fetch is outstanding
//! for it, and whether its descriptor has arrived.

use vstd::prelude::*;
use vstd::string::StringExecFns;

verus! {

/// The level a new game starts in.
pub open spec fn starting_level() -> Seq<char> {
    "level_01_intro"@
}

/// The id of the level a new game starts in.
pub fn starting_level_id() -> (r: String)
    ensures
        r@ == starting_level(),
{
    "level_01_intro".to_owned()
}

/// Where the descriptor of level `id` is stored.
pub open spec fn level_path_of(id: Seq<char>) -> Seq<char> {
    "levels/"@ + id + ".ron"@
}

/// The storage path of the descriptor of level `id`.
pub fn level_path(id: &str) -> (r: String)
    ensures
        r@ == level_path_of(id@),
{
    "levels/".to_owned().concat(id).concat(".ron")
}

/// The ticket that follows `t`; consecutive tickets always differ.
pub open spec fn next_ticket(t: u64) -> u64 {
    if t == u64::MAX {
        0
    } else {
        (t + 1) as u64
    }
}

/// A fetch to perform: load the descriptor at `path` and hand it back with
/// `ticket`.
#[derive(Clone, Debug)]
pub struct FetchRequest {
    pub ticket: u64,
    pub path: String,
}

/// The level pointer: the requested level, the ticket of the fetch that
/// may deliver it, and whether it has arrived.
pub struct CurrentLevel {
    pub level_id: String,
    pub ticket: u64,
    pub loaded: bool,
}

/// `post` is `pre` pointed at level `id`, unloaded, with no new fetch.
pub open spec fn retarget_post(pre: CurrentLevel, id: Seq<char>, post: CurrentLevel) -> bool {
    &&& post.level_id@ == id
    &&& !post.loaded
    &&& post.ticket == pre.ticket
}

/// `post` has a new fetch `r` outstanding for the level `pre` points at.
pub open spec fn fetch_post(pre: CurrentLevel, post: CurrentLevel, r: FetchRequest) -> bool {
    &&& post.level_id@ == pre.level_id@
    &&& !post.loaded
    &&& post.ticket == next_ticket(pre.ticket)
    &&& r.ticket == post.ticket
    &&& r.path@ == level_path_of(pre.level_id@)
}

/// `post` points at level `id` and has a new fetch `r` outstanding for it.
pub open spec fn request_post(pre: CurrentLevel, id: Seq<char>, post: CurrentLevel, r: FetchRequest) -> bool {
    &&& post.level_id@ == id
    &&& !post.loaded
    &&& post.ticket == next_ticket(pre.ticket)
    &&& r.ticket == post.ticket
    &&& r.path@ == level_path_of(id)
}

/// A delivery with `ticket` is taken exactly when no descriptor has arrived
/// yet and `ticket` names the outstanding fetch.
pub open spec fn poll_post(pre: CurrentLevel, ticket: u64, post: CurrentLevel, r: bool) -> bool {
    &&& r == (!pre.loaded && ticket == pre.ticket)
    &&& post.loaded == (pre.loaded || r)
    &&& post.level_id@ == pre.level_id@
    &&& post.ticket == pre.ticket
}

impl CurrentLevel {
    /// The pointer of a new game: the starting level, not loaded.
    pub fn new() -> (r: CurrentLevel)
        ensures
            r.level_id@ == starting_level(),
            r.ticket == 0,
            !r.loaded,
    {
        CurrentLevel { level_id: starting_level_id(), ticket: 0, loaded: false }
    }

    /// Points at level `id` and marks it unloaded, without fetching.
    pub fn set_level(&mut self, id: &str)
        ensures
            retarget_post(*old(self), id@, *final(self)),
    {
        self.level_id = id.to_owned();
        self.loaded = false;
    }

    /// Starts fetching the level pointed at; any earlier fetch goes stale.
    pub fn start_loading_next_level(&mut self) -> (r: FetchRequest)
        ensures
            fetch_post(*old(self), *final(self), r),
    {
        self.ticket = if self.ticket == u64::MAX {
            0
        } else {
            self.ticket + 1
        };
        self.loaded = false;
        FetchRequest { ticket: self.ticket, path: level_path(self.level_id.as_str()) }
    }

    /// Points at level `id` and starts fetching it.
    pub fn request(&mut self, id: &str) -> (r: FetchRequest)
        ensures
            request_post(*old(self), id@, *final(self), r),
    {
        self.set_level(id);
        self.start_loading_next_level()
    }

    /// Offers the descriptor fetched under `ticket`; true when it is taken.
    /// Once a descriptor is taken, further offers are refused until the next
    /// fetch.
    pub fn poll(&mut self, ticket: u64) -> (r: bool)
        ensures
            poll_post(*old(self), ticket, *final(self), r),
    {
        if !self.loaded && ticket == self.ticket {
            self.loaded = true;
            true
        } else {
            false
        }
    }
}

impl Default for CurrentLevel {
    fn default() -> (r: CurrentLevel)
        ensures
            r.level_id@ == starting_level(),
            r.ticket == 0,
            !r.loaded,
    {
        CurrentLevel::new()
    }
}

/// When level `b` is requested while the fetch for level `a` is still
/// outstanding, `a`'s fetch is refused whenever it arrives, and `b`'s is
/// taken: the loaded level is `b`.
pub proof fn lemma_later_request_wins(
    c0: CurrentLevel,
    a: Seq<char>,
    c1: CurrentLevel,
    ra: FetchRequest,
    b: Seq<char>,
    c2: CurrentLevel,
    rb: FetchRequest,
    c3: CurrentLevel,
    stale: bool,
    c4: CurrentLevel,
    fresh: bool,
)
    requires
        request_post(c0, a, c1, ra),
        request_post(c1, b, c2, rb),
        poll_post(c2, ra.ticket, c3, stale),
        poll_post(c3, rb.ticket, c4, fresh),
    ensures
        !stale,
        fresh,
        c4.loaded,
        c4.level_id@ == b,
        rb.path@ == level_path_of(b),
{
}

/// Once a descriptor has been taken, offering it again changes nothing.
pub proof fn lemma_poll_idempotent(
    c0: CurrentLevel,
    t: u64,
    c1: CurrentLevel,
    r1: bool,
    u: u64,
    c2: CurrentLevel,
    r2: bool,
)
    requires
        poll_post(c0, t, c1, r1),
        r1,
        poll_post(c1, u, c2, r2),
    ensures
        !r2,
        c2.loaded,
        c2.ticket == c1.ticket,
        c2.level_id@ == c1.level_id@,
{
}

} // verus!
