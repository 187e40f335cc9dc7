//! The host: the two registries and the connection set, the dispatcher, and
//! the steps of a session's reader.

use crate::connections::{ConnectionSet, Outbound};
use crate::dispatch::{
    answers, error_for, initialize_descriptor, listing, resource_read_placeholder, result_for,
    tool_call_placeholder, unknown_method,
};
use crate::json::{document, Document};
use crate::protocol::{McpRequest, McpResponse};
use crate::registry::Registry;
use crate::session::{
    fresh_identity, is_identity, Inbound, InboundView, Session, SessionState, SessionView, Step,
    StepView,
};
use crate::text::same_text;
use serde_json::Value;
use vstd::prelude::*;

verus! {

/// The host.
pub struct McpHost {
    clients: ConnectionSet,
    tools: Registry,
    resources: Registry,
}

/// What a host holds: the connected sessions, each identity with the
/// sending end of the session's outbound queue, and the entries of the two
/// registries.
pub struct HostView {
    pub clients: Map<Seq<char>, Outbound>,
    pub tools: Map<Seq<char>, Document>,
    pub resources: Map<Seq<char>, Document>,
}

impl View for McpHost {
    type V = HostView;

    closed spec fn view(&self) -> HostView {
        HostView { clients: self.clients@, tools: self.tools@, resources: self.resources@ }
    }
}

/// The host and a session after the reader has taken `frame`, and the
/// reader's next step.
///
/// A session whose reader has stopped takes no frame. A close frame, a
/// failure of the transport and the end of the stream take the session out
/// of the connection set and stop the reader. Any other frame leaves the
/// host as it is and the reader going; only a request is answered, through
/// the sender that the connection set holds for the session, and only while
/// the session is in the connection set.
pub open spec fn received(
    host: HostView,
    session: SessionView,
    frame: InboundView,
    host_after: HostView,
    session_after: SessionView,
    step: StepView,
) -> bool {
    &&& session_after.id == session.id
    &&& host_after.tools == host.tools
    &&& host_after.resources == host.resources
    &&& if !session.state.reading() {
        &&& host_after.clients == host.clients
        &&& session_after.state == session.state
        &&& step is Stop
    } else if frame.ends_session() {
        &&& host_after.clients == host.clients.remove(session.id)
        &&& session_after.state is Closing
        &&& step is Stop
    } else {
        &&& host_after.clients == host.clients
        &&& session_after.state is Streaming
        &&& if frame is Request && host.clients.contains_key(session.id) {
            &&& step is Reply
            &&& step->Reply_0 == host.clients[session.id]
            &&& answers(frame->Request_0, host.tools, host.resources, step->Reply_1)
        } else {
            step is Continue
        }
    }
}

impl McpHost {
    /// A host with nothing registered and no session connected.
    pub fn new() -> (host: McpHost)
        ensures
            host@.clients == (Map::<Seq<char>, Outbound>::empty()),
            host@.tools == (Map::<Seq<char>, Document>::empty()),
            host@.resources == (Map::<Seq<char>, Document>::empty()),
    {
        McpHost { clients: ConnectionSet::new(), tools: Registry::new(), resources: Registry::new() }
    }

    /// Registers `tool` under `name`, in place of the tool that `name` held.
    pub fn register_tool(&mut self, name: String, tool: Value)
        ensures
            final(self)@.tools == old(self)@.tools.insert(name@, document(tool)),
            final(self)@.resources == old(self)@.resources,
            final(self)@.clients == old(self)@.clients,
    {
        self.tools.put(name, tool);
    }

    /// Registers `resource` under `name`, in place of the resource that
    /// `name` held.
    pub fn register_resource(&mut self, name: String, resource: Value)
        ensures
            final(self)@.resources == old(self)@.resources.insert(name@, document(resource)),
            final(self)@.tools == old(self)@.tools,
            final(self)@.clients == old(self)@.clients,
    {
        self.resources.put(name, resource);
    }

    /// The response to `request`, given the two registries.
    pub fn handle_mcp_request(
        request: &McpRequest,
        tools: &Registry,
        resources: &Registry,
    ) -> (response: McpResponse)
        ensures
            answers(request@, tools@, resources@, response@),
    {
        let method = request.method.as_str();
        if same_text(method, "initialize") {
            result_for(request, initialize_descriptor())
        } else if same_text(method, "tools/list") {
            let tool_list = tools.list();
            result_for(request, listing("tools", tool_list))
        } else if same_text(method, "tools/call") {
            result_for(request, tool_call_placeholder())
        } else if same_text(method, "resources/list") {
            let resource_list = resources.list();
            result_for(request, listing("resources", resource_list))
        } else if same_text(method, "resources/read") {
            result_for(request, resource_read_placeholder())
        } else {
            error_for(request, unknown_method(method))
        }
    }

    /// The response to `request`, given what the host has registered.
    pub fn respond(&self, request: &McpRequest) -> (response: McpResponse)
        ensures
            answers(request@, self@.tools, self@.resources, response@),
    {
        McpHost::handle_mcp_request(request, &self.tools, &self.resources)
    }

    /// Connects a session: draws an identity for it at random and connects
    /// it under that identity with `outbound`, the sending end of its queue.
    ///
    /// Panics where the system has no random bytes to give.
    pub fn connect(&mut self, outbound: Outbound) -> (session: Session)
        ensures
            is_identity(session@.id),
            session@.state is Connected,
            final(self)@.clients == old(self)@.clients.insert(session@.id, outbound),
            final(self)@.tools == old(self)@.tools,
            final(self)@.resources == old(self)@.resources,
    {
        self.connect_as(fresh_identity(), outbound)
    }

    /// Connects a session under the identity `id`: enters it in the
    /// connection set with `outbound`, in place of what the set held under
    /// `id`.
    pub fn connect_as(&mut self, id: String, outbound: Outbound) -> (session: Session)
        ensures
            session@.id == id@,
            session@.state is Connected,
            final(self)@.clients == old(self)@.clients.insert(id@, outbound),
            final(self)@.tools == old(self)@.tools,
            final(self)@.resources == old(self)@.resources,
    {
        self.clients.insert(id.clone(), outbound);
        Session::connected(id)
    }

    /// The sending end of the queue of the session `id`, if that session is
    /// in the connection set.
    pub fn outbound(&self, id: &str) -> (found: Option<Outbound>)
        ensures
            found == self@.clients.get(id@),
    {
        self.clients.get(id)
    }

    /// Takes one frame for `session` and says what its reader does next.
    pub fn receive(&mut self, session: &mut Session, frame: Inbound) -> (step: Step)
        ensures
            received(old(self)@, old(session)@, frame@, final(self)@, final(session)@, step@),
    {
        match session.state() {
            SessionState::Closing | SessionState::Closed => {
                return Step::Stop;
            },
            _ => {},
        }
        match frame {
            Inbound::Request(request) => {
                session.enter(SessionState::Streaming);
                match self.clients.get(session.id()) {
                    Some(outbound) => {
                        let response = self.respond(&request);
                        Step::Reply(outbound, response)
                    },
                    None => Step::Continue,
                }
            },
            Inbound::Malformed | Inbound::Other => {
                session.enter(SessionState::Streaming);
                Step::Continue
            },
            Inbound::Close | Inbound::Failed | Inbound::End => {
                self.clients.remove(session.id());
                session.enter(SessionState::Closing);
                Step::Stop
            },
        }
    }
}

/// A text frame that holds no request is dropped: nothing is put on the
/// outbound queue, the session keeps its place in the connection set, and
/// its reader goes on.
pub proof fn lemma_malformed_frame_is_dropped(
    host: HostView,
    session: SessionView,
    host_after: HostView,
    session_after: SessionView,
    step: StepView,
)
    requires
        session.state.reading(),
        received(host, session, InboundView::Malformed, host_after, session_after, step),
    ensures
        step is Continue,
        host_after == host,
        session_after.id == session.id,
        session_after.state.reading(),
{
}

/// A response is put on the outbound queue only for a frame that holds a
/// request: it answers that request, and the queue is the session's own.
pub proof fn lemma_only_requests_are_answered(
    host: HostView,
    session: SessionView,
    frame: InboundView,
    host_after: HostView,
    session_after: SessionView,
    step: StepView,
)
    requires
        received(host, session, frame, host_after, session_after, step),
        step is Reply,
    ensures
        frame is Request,
        session.state.reading(),
        host.clients.contains_key(session.id),
        step->Reply_0 == host.clients[session.id],
        answers(frame->Request_0, host.tools, host.resources, step->Reply_1),
{
}

/// A session that sends a close frame leaves the connection set, in which
/// every other session keeps its place, and its reader stops.
pub proof fn lemma_close_frame_removes_the_session(
    host: HostView,
    session: SessionView,
    host_after: HostView,
    session_after: SessionView,
    step: StepView,
)
    requires
        session.state.reading(),
        received(host, session, InboundView::Close, host_after, session_after, step),
    ensures
        !host_after.clients.contains_key(session.id),
        forall|other: Seq<char>|
            other != session.id ==> host_after.clients.get(other) == host.clients.get(other),
        step is Stop,
        session_after.state is Closing,
{
}

/// A session whose reader has stopped takes no more frames: whatever comes,
/// the host stays as it is and nothing is answered.
pub proof fn lemma_stopped_reader_takes_no_frame(
    host: HostView,
    session: SessionView,
    frame: InboundView,
    host_after: HostView,
    session_after: SessionView,
    step: StepView,
)
    requires
        !session.state.reading(),
        received(host, session, frame, host_after, session_after, step),
    ensures
        step is Stop,
        host_after == host,
        session_after == session,
{
}

/// The reader's steps for `frames`, taken one after the other from `host`
/// and `session` with nothing else in between, and what the host and the
/// session are afterwards.
pub open spec fn reads(
    host: HostView,
    session: SessionView,
    frames: Seq<InboundView>,
    steps: Seq<StepView>,
    host_after: HostView,
    session_after: SessionView,
) -> bool
    decreases frames.len(),
{
    if frames.len() == 0 {
        steps.len() == 0 && host_after == host && session_after == session
    } else {
        &&& steps.len() == frames.len()
        &&& exists|next_host: HostView, next_session: SessionView|
            #[trigger] received(host, session, frames[0], next_host, next_session, steps[0])
                && reads(
                next_host,
                next_session,
                frames.drop_first(),
                steps.drop_first(),
                host_after,
                session_after,
            )
    }
}

/// None of the first `count` frames ends the session.
pub open spec fn session_goes_on(frames: Seq<InboundView>, count: int) -> bool {
    forall|k: int| 0 <= k < count ==> !(#[trigger] frames[k]).ends_session()
}

/// Along the frames of a session there is a step for each frame. A response
/// is given only at a frame that holds a request, and answers that request;
/// and while the session reads and is in the connection set, every request
/// with no ending frame before it is answered, through the session's own
/// sender: responses come one for each request, in the order of the
/// requests. After a frame that ends the session every step is a stop, and
/// the session is out of the connection set.
pub proof fn lemma_replies_follow_their_requests(
    host: HostView,
    session: SessionView,
    frames: Seq<InboundView>,
    steps: Seq<StepView>,
    host_after: HostView,
    session_after: SessionView,
)
    requires
        reads(host, session, frames, steps, host_after, session_after),
    ensures
        steps.len() == frames.len(),
        session_after.id == session.id,
        host_after.tools == host.tools,
        host_after.resources == host.resources,
        forall|i: int|
            0 <= i < steps.len() && #[trigger] steps[i] is Reply ==> frames[i] is Request
                && answers(frames[i]->Request_0, host.tools, host.resources, steps[i]->Reply_1),
        session.state.reading() && host.clients.contains_key(session.id) ==> forall|i: int|
            0 <= i < frames.len() && frames[i] is Request && #[trigger] session_goes_on(frames, i)
                ==> steps[i] is Reply && steps[i]->Reply_0 == host.clients[session.id],
        forall|i: int, j: int|
            #![trigger frames[i], steps[j]]
            0 <= i < j < frames.len() && frames[i].ends_session() ==> steps[j] is Stop,
        !session.state.reading() ==> host_after == host && session_after == session,
        session.state.reading() && (exists|i: int|
            0 <= i < frames.len() && #[trigger] frames[i].ends_session())
            ==> !host_after.clients.contains_key(session.id) && !session_after.state.reading(),
    decreases frames.len(),
{
    if frames.len() > 0 {
        let (next_host, next_session) = choose|next_host: HostView, next_session: SessionView|
            #[trigger] received(host, session, frames[0], next_host, next_session, steps[0])
                && reads(
                next_host,
                next_session,
                frames.drop_first(),
                steps.drop_first(),
                host_after,
                session_after,
            );
        let rest_frames = frames.drop_first();
        let rest_steps = steps.drop_first();
        lemma_replies_follow_their_requests(
            next_host,
            next_session,
            rest_frames,
            rest_steps,
            host_after,
            session_after,
        );
        assert forall|i: int| 0 <= i < steps.len() && #[trigger] steps[i] is Reply implies frames[i]
            is Request && answers(
            frames[i]->Request_0,
            host.tools,
            host.resources,
            steps[i]->Reply_1,
        ) by {
            if i > 0 {
                assert(steps[i] == rest_steps[i - 1]);
                assert(frames[i] == rest_frames[i - 1]);
            }
        }
        if session.state.reading() && host.clients.contains_key(session.id) {
            assert forall|i: int|
                0 <= i < frames.len() && frames[i] is Request && #[trigger] session_goes_on(
                    frames,
                    i,
                ) implies steps[i] is Reply && steps[i]->Reply_0 == host.clients[session.id] by {
                if i > 0 {
                    // The first frame did not end the session: the reader
                    // goes on, and the connection set is as it was.
                    assert(!frames[0].ends_session());
                    assert(next_session.state.reading());
                    assert(next_host.clients == host.clients);
                    assert(steps[i] == rest_steps[i - 1]);
                    assert(frames[i] == rest_frames[i - 1]);
                    assert forall|k: int| 0 <= k < i - 1 implies !(#[trigger] rest_frames[
                        k
                    ]).ends_session() by {
                        assert(rest_frames[k] == frames[k + 1]);
                    }
                    assert(session_goes_on(rest_frames, i - 1));
                }
            }
        }
        assert forall|i: int, j: int|
            #![trigger frames[i], steps[j]]
            0 <= i < j < frames.len() && frames[i].ends_session() implies steps[j] is Stop by {
            assert(steps[j] == rest_steps[j - 1]);
            if i > 0 {
                assert(frames[i] == rest_frames[i - 1]);
            } else {
                // The first frame ended the session, or the reader had
                // stopped before: either way it reads no more.
                assert(!next_session.state.reading());
                lemma_stopped_reader_only_stops(
                    next_host,
                    next_session,
                    rest_frames,
                    rest_steps,
                    host_after,
                    session_after,
                );
            }
        }
        if !session.state.reading() {
            assert(next_host == host && next_session == session);
        }
        if session.state.reading() && (exists|i: int|
            0 <= i < frames.len() && #[trigger] frames[i].ends_session()) {
            let i = choose|i: int| 0 <= i < frames.len() && #[trigger] frames[i].ends_session();
            if frames[0].ends_session() {
                lemma_stopped_reader_only_stops(
                    next_host,
                    next_session,
                    rest_frames,
                    rest_steps,
                    host_after,
                    session_after,
                );
            } else {
                assert(i > 0);
                assert(rest_frames[i - 1] == frames[i]);
                assert(rest_frames[i - 1].ends_session());
                assert(next_session.state.reading());
            }
        }
    }
}

/// A reader that has stopped answers every further frame with a stop and
/// changes nothing.
pub proof fn lemma_stopped_reader_only_stops(
    host: HostView,
    session: SessionView,
    frames: Seq<InboundView>,
    steps: Seq<StepView>,
    host_after: HostView,
    session_after: SessionView,
)
    requires
        !session.state.reading(),
        reads(host, session, frames, steps, host_after, session_after),
    ensures
        host_after == host,
        session_after == session,
        forall|i: int| 0 <= i < steps.len() ==> #[trigger] steps[i] is Stop,
    decreases frames.len(),
{
    if frames.len() > 0 {
        let (next_host, next_session) = choose|next_host: HostView, next_session: SessionView|
            #[trigger] received(host, session, frames[0], next_host, next_session, steps[0])
                && reads(
                next_host,
                next_session,
                frames.drop_first(),
                steps.drop_first(),
                host_after,
                session_after,
            );
        assert(next_host == host && next_session == session);
        lemma_stopped_reader_only_stops(
            host,
            session,
            frames.drop_first(),
            steps.drop_first(),
            host_after,
            session_after,
        );
        assert forall|i: int| 0 <= i < steps.len() implies #[trigger] steps[i] is Stop by {
            if i > 0 {
                assert(steps[i] == steps.drop_first()[i - 1]);
            }
        }
    }
}

} // verus!
