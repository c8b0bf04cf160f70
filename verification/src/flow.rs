//! The in-flight secret material of one authentication attempt, and the
//! single-slot store that holds at most one attempt per process.

use vstd::prelude::*;

verus! {

/// The secret material generated for one authentication attempt. Created by
/// `OidcController::new_flow`, consumed exactly once by the callback. None
/// of these values may ever reach the browser except where the protocol
/// sends them (the CSRF token as `state`, the challenge in the URL).
pub struct FlowState {
    /// The PKCE code verifier whose challenge was sent in the
    /// authorization URL. Posted to the token endpoint at the exchange.
    pub pkce_verifier: String,
    /// The value sent as the `state` query parameter; the callback must
    /// return it unchanged.
    pub csrf_token: String,
    /// The value the identity token's `nonce` claim must carry.
    pub nonce: String,
}

/// Holds at most one in-flight flow. `set` overwrites any unconsumed flow;
/// `take` reads and clears, so a flow is consumed at most once. The embedding
/// program serializes access (one lock around each whole call), which makes
/// the two operations atomic between concurrent requests.
pub struct FlowStore {
    slot: Option<FlowState>,
}

impl View for FlowStore {
    type V = Option<FlowState>;

    closed spec fn view(&self) -> Option<FlowState> {
        self.slot
    }
}

impl FlowStore {
    /// An empty store: no flow is in progress.
    pub fn new() -> (r: FlowStore)
        ensures
            r@ is None,
    {
        FlowStore { slot: None }
    }

    /// Records a flow, replacing any prior unconsumed one.
    pub fn set(&mut self, flow: FlowState)
        ensures
            final(self)@ == Some(flow),
    {
        self.slot = Some(flow);
    }

    /// Removes and returns the stored flow. The slot is empty afterwards,
    /// so a second `take` without an intervening `set` returns `None`:
    /// a flow is handed out at most once per `set`.
    pub fn take(&mut self) -> (r: Option<FlowState>)
        ensures
            take_post(old(self)@, final(self)@, r),
    {
        self.slot.take()
    }
}

/// What one `take` does: it returns the stored flow and leaves the slot
/// empty.
pub open spec fn take_post(
    pre: Option<FlowState>,
    post: Option<FlowState>,
    r: Option<FlowState>,
) -> bool {
    r == pre && post is None
}

/// Law: a flow is handed out at most once. Whatever a first `take`
/// returned, a second `take` with no `set` between them starts from the
/// emptied slot and returns `None`.
pub proof fn lemma_take_at_most_once(
    s0: Option<FlowState>,
    s1: Option<FlowState>,
    s2: Option<FlowState>,
    r1: Option<FlowState>,
    r2: Option<FlowState>,
)
    requires
        take_post(s0, s1, r1),
        take_post(s1, s2, r2),
    ensures
        r2 is None,
{
}

} // verus!
