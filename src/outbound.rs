use vstd::prelude::*;

verus! {

/// A setting written back to the server: a dotted path and a boolean value.
#[derive(Debug, PartialEq, Eq)]
pub struct PathValuePair {
    pub path: String,
    pub value: bool,
}

/// A command for the server or its transport. Fire-and-forget: no reply
/// is correlated with it here.
#[derive(Debug, PartialEq, Eq)]
pub enum OutboundRequest {
    GetSession,
    RestartSteamvr,
    ShutdownSteamvr,
    SetValues(Vec<PathValuePair>),
}

/// The settings path of the flag that opens the setup wizard on startup.
pub open spec fn wizard_flag_path() -> Seq<char> {
    "session_settings.extra.open_setup_wizard"@
}

/// The requests gathered during one tick, in the order they were added.
pub struct OutboundQueue {
    requests: Vec<OutboundRequest>,
}

impl View for OutboundQueue {
    type V = Seq<OutboundRequest>;

    closed spec fn view(&self) -> Seq<OutboundRequest> {
        self.requests@
    }
}

impl OutboundQueue {
    pub fn new() -> (r: OutboundQueue)
        ensures
            r@ == Seq::<OutboundRequest>::empty(),
    {
        OutboundQueue { requests: Vec::new() }
    }

    pub fn len(&self) -> (r: usize)
        ensures
            r == self@.len(),
    {
        self.requests.len()
    }

    /// Appends a request after every request already queued.
    pub fn push(&mut self, request: OutboundRequest)
        ensures
            final(self)@ == old(self)@.push(request),
    {
        self.requests.push(request);
    }

    /// Hands out every queued request in the order it was added and leaves
    /// the queue empty for the next tick.
    pub fn drain(&mut self) -> (r: Vec<OutboundRequest>)
        ensures
            r@ == old(self)@,
            final(self)@ == Seq::<OutboundRequest>::empty(),
    {
        let mut taken: Vec<OutboundRequest> = Vec::new();
        std::mem::swap(&mut self.requests, &mut taken);
        taken
    }
}

/// `r` writes `false` to the flag that opens the setup wizard, and nothing else.
pub open spec fn is_clear_wizard_request(r: OutboundRequest) -> bool {
    r matches OutboundRequest::SetValues(pairs) && pairs@.len() == 1
        && pairs@[0].path@ == wizard_flag_path() && !pairs@[0].value
}

/// The request that clears the flag which opens the setup wizard.
pub fn clear_wizard_flag_request() -> (r: OutboundRequest)
    ensures
        is_clear_wizard_request(r),
{
    let mut pairs: Vec<PathValuePair> = Vec::new();
    pairs.push(PathValuePair {
        path: "session_settings.extra.open_setup_wizard".to_owned(),
        value: false,
    });
    OutboundRequest::SetValues(pairs)
}

} // verus!
