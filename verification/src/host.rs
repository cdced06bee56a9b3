use vstd::prelude::*;

use crate::command::{command_byte, Command, CommandSend};
use crate::ipc::{IpInfo, JsonResponse};
use crate::session::{spec_status_string, VpnClient};

verus! {

/// The name a session reports over IPC: its entrypoint's name, or empty.
pub open spec fn spec_server_name(c: VpnClient) -> Seq<char> {
    match c.entrypoint {
        Some(e) => match e.name {
            Some(n) => n@,
            None => ""@,
        },
        None => ""@,
    }
}

/// The server URL a session reports over IPC, or empty.
pub open spec fn spec_server_url(c: VpnClient) -> Seq<char> {
    match c.entrypoint {
        Some(e) => e.server@,
        None => ""@,
    }
}

/// The resolved host a session reports over IPC, or empty.
pub open spec fn spec_hostname(c: VpnClient) -> Seq<char> {
    match c.hostname {
        Some(h) => h@,
        None => ""@,
    }
}

/// What a stop request sends on the cancellation channel of this session:
/// a `Cancel` byte on its descriptor when it is connected and the
/// descriptor is present, nothing otherwise.
pub open spec fn spec_stop_action(c: VpnClient) -> Option<CommandSend> {
    if c.status is Connected && c.cmd_fd is Some {
        Some(CommandSend { fd: c.cmd_fd.unwrap(), byte: command_byte(Command::Cancel) })
    } else {
        None
    }
}

/// One request of a client connection, paired with what the outside work
/// for it produced: a `Start` carries the result of building and starting
/// a session, an `Info` carries the engine's tunnel report.
pub enum ConnRequest {
    Start { name: String, outcome: Result<VpnClient, String> },
    Stop,
    Info { info: Option<Box<IpInfo>> },
}

/// Responses answer requests in kind: a `Start` gets a `StartResult`, and
/// so on.
pub open spec fn response_matches(req: ConnRequest, resp: JsonResponse) -> bool {
    match req {
        ConnRequest::Start { .. } => resp is StartResult,
        ConnRequest::Stop => resp is StopResult,
        ConnRequest::Info { .. } => resp is InfoResult,
    }
}

/// The daemon's shared state: at most one live session.
pub struct HostState {
    pub client: Option<VpnClient>,
}

/// The whole effect of handling one request: how the session slot moves,
/// which response is sent, and what must be written to the cancellation
/// channel.
pub open spec fn handled(
    pre: HostState,
    post: HostState,
    req: ConnRequest,
    resp: JsonResponse,
    act: Option<CommandSend>,
) -> bool {
    match req {
        ConnRequest::Start { name, outcome } => match outcome {
            Ok(c) => {
                &&& post.client == Some(c)
                &&& act == (match pre.client {
                    Some(old_c) => spec_stop_action(old_c),
                    None => None,
                })
                &&& resp == (JsonResponse::StartResult { name, success: true, err_message: None })
            },
            Err(m) => {
                &&& post.client == pre.client
                &&& act is None
                &&& resp == (JsonResponse::StartResult {
                    name,
                    success: false,
                    err_message: Some(m),
                })
            },
        },
        ConnRequest::Stop => {
            &&& post.client is None
            &&& (pre.client is None ==> act is None && (resp matches JsonResponse::StopResult {
                name,
            } && name@ == ""@))
            &&& (pre.client matches Some(c) ==> act == spec_stop_action(c) && (
            resp matches JsonResponse::StopResult { name } && name@ == spec_server_name(c)))
        },
        ConnRequest::Info { info } => {
            &&& post.client == pre.client
            &&& act is None
            &&& (pre.client is None ==> (resp matches JsonResponse::InfoResult {
                server_name,
                server_url,
                hostname,
                status,
                info: i2,
            } && server_name@ == ""@ && server_url@ == ""@ && hostname@ == ""@ && status@
                == "Initialized"@ && i2 is None))
            &&& (pre.client matches Some(c) ==> (resp matches JsonResponse::InfoResult {
                server_name,
                server_url,
                hostname,
                status,
                info: i2,
            } && server_name@ == spec_server_name(c) && server_url@ == spec_server_url(c)
                && hostname@ == spec_hostname(c) && status@ == spec_status_string(c.status) && i2
                == info))
        },
    }
}

impl HostState {
    /// A daemon that owns no session yet.
    pub fn new() -> (r: Self)
        ensures
            r.client is None,
    {
        HostState { client: None }
    }

    /// Installs the outcome of a `Start`: a session that started
    /// supersedes whatever was in the slot — the superseded session is
    /// asked to disconnect, and its cancel write, if one is due, is
    /// returned for the embedder to perform before dropping it. A failure
    /// leaves the slot as it was. The response reports success or carries
    /// the failure message.
    pub fn handle_start(&mut self, name: String, outcome: Result<VpnClient, String>) -> (r: (
        JsonResponse,
        Option<CommandSend>,
    ))
        ensures
            handled(*old(self), *final(self), ConnRequest::Start { name, outcome }, r.0, r.1),
    {
        match outcome {
            Ok(c) => {
                let act = match self.client.take() {
                    Some(mut old_c) => old_c.disconnect(),
                    None => None,
                };
                self.client = Some(c);
                (JsonResponse::StartResult { name, success: true, err_message: None }, act)
            },
            Err(m) => (
                JsonResponse::StartResult { name, success: false, err_message: Some(m) },
                None,
            ),
        }
    }

    /// Handles a `Stop`: the session, if any, is asked to disconnect and
    /// the slot is cleared; the response carries the name that was
    /// stopped, or an empty name when no session existed. The returned
    /// write, if any, must be performed on the cancellation descriptor.
    pub fn handle_stop(&mut self) -> (r: (JsonResponse, Option<CommandSend>))
        ensures
            handled(*old(self), *final(self), ConnRequest::Stop, r.0, r.1),
    {
        let client = self.client.take();
        match client {
            None => (JsonResponse::StopResult { name: "".to_string() }, None),
            Some(mut c) => {
                let act = c.disconnect();
                let name = match c.get_server_name() {
                    Some(n) => n,
                    None => "".to_string(),
                };
                (JsonResponse::StopResult { name }, act)
            },
        }
    }

    /// Answers an `Info`: a read-only snapshot of the session — name,
    /// server, resolved host, status word, and the tunnel report handed in
    /// — or an initialized, empty snapshot when no session exists.
    pub fn handle_info(&self, info: Option<Box<IpInfo>>) -> (r: JsonResponse)
        ensures
            handled(*self, *self, ConnRequest::Info { info }, r, None::<CommandSend>),
    {
        match &self.client {
            None => JsonResponse::InfoResult {
                server_name: "".to_string(),
                server_url: "".to_string(),
                hostname: "".to_string(),
                status: "Initialized".to_string(),
                info: None,
            },
            Some(c) => {
                let server_name = match c.get_server_name() {
                    Some(n) => n,
                    None => "".to_string(),
                };
                let server_url = match c.get_server_url() {
                    Some(u) => u,
                    None => "".to_string(),
                };
                let hostname = match c.get_hostname() {
                    Some(h) => h,
                    None => "".to_string(),
                };
                let status = c.get_status().status_string();
                JsonResponse::InfoResult { server_name, server_url, hostname, status, info }
            },
        }
    }

    /// Dispatches one request to its handler.
    pub fn handle_request(&mut self, req: ConnRequest) -> (r: (JsonResponse, Option<CommandSend>))
        ensures
            handled(*old(self), *final(self), req, r.0, r.1),
            response_matches(req, r.0),
    {
        match req {
            ConnRequest::Start { name, outcome } => self.handle_start(name, outcome),
            ConnRequest::Stop => self.handle_stop(),
            ConnRequest::Info { info } => (self.handle_info(info), None),
        }
    }

    /// Serves one client connection: requests are handled one at a time,
    /// in the order they arrived, and every request gets exactly one
    /// response, in that same order — whatever each one's handling costs.
    pub fn handle_connection(&mut self, reqs: Vec<ConnRequest>) -> (r: Vec<
        (JsonResponse, Option<CommandSend>),
    >)
        ensures
            r@.len() == reqs@.len(),
            forall|i: int| 0 <= i < reqs@.len() ==> response_matches(reqs@[i], r@[i].0),
    {
        let ghost orig = reqs@;
        let mut reqs = reqs;
        let mut out: Vec<(JsonResponse, Option<CommandSend>)> = Vec::new();
        while reqs.len() > 0
            invariant
                out@.len() + reqs@.len() == orig.len(),
                reqs@ =~= orig.subrange(out@.len() as int, orig.len() as int),
                forall|i: int| 0 <= i < out@.len() ==> response_matches(orig[i], out@[i].0),
            decreases reqs@.len(),
        {
            let ghost k = out@.len() as int;
            let req = reqs.remove(0);
            proof {
                assert(req == orig[k]);
            }
            let (resp, act) = self.handle_request(req);
            out.push((resp, act));
            proof {
                assert(out@[k].0 == resp);
                assert(response_matches(orig[k], out@[k].0));
                assert(reqs@ =~= orig.subrange(out@.len() as int, orig.len() as int));
            }
        }
        proof {
            assert(out@.len() == orig.len());
        }
        out
    }
}

} // verus!
