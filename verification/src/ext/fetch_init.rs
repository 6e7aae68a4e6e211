use vstd::prelude::*;

verus! {

/// The request of a fetch event, as the script reads it.
#[derive(Debug, Clone)]
pub struct FetchResource {
    pub req: String,
}

/// The response the script gives to a fetch event: status, headers and body.
#[derive(Debug, Clone)]
pub struct FetchReply {
    pub status: u16,
    pub headers: Vec<(String, String)>,
    pub body: Vec<u8>,
}

/// What the host hands the script for a fetch event: the request, and the
/// channel on which the host waits for the response.
#[derive(Debug)]
pub struct FetchInit {
    pub res_tx: Option<tokio::sync::oneshot::Sender<FetchReply>>,
    pub req: FetchResource,
}

pub open spec fn describe_spec(req: Seq<char>) -> Seq<char> {
    "FetchResource req: "@ + req
}

impl FetchResource {
    /// The text by which the resource is shown: `FetchResource req: ` and the request.
    pub fn describe(&self) -> (s: String)
        ensures
            s@ == describe_spec(self.req@),
    {
        let mut s = String::from_str("FetchResource req: ");
        s.append(self.req.as_str());
        s
    }
}

} // verus!
