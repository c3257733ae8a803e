//! The interprocess session state machine.
//!
//! The session moves `Listening -> Connected -> Broken`. While no client is
//! connected, metadata and frame sends silently succeed as no-ops, so the
//! producer keeps rendering with no consumer attached. On the first
//! successful accept the one-time metadata message goes out exactly once;
//! after that, one frame message per produced frame. Any send failure while
//! connected breaks the session for good: this design does not re-listen.
//!
//! The socket calls themselves (bind, listen, accept, send) are made by the
//! unverified shell; it reports each accept and send outcome here, and this
//! machine decides what, if anything, must be transmitted next.

use vstd::prelude::*;

use crate::ExternalSurfaceError;
use crate::codec::{
    FrameMessage, MetadataMessage, encode_frame, encode_metadata, frame_ancillary_fds,
    spec_frame_bytes, spec_frame_fds, spec_metadata_bytes,
};
use crate::ring::SharedVulkanResources;

verus! {

/// Where the session stands.
#[derive(Clone, Copy, Debug, PartialEq, Eq, Structural)]
pub enum IpcSessionState {
    /// Socket bound and listening; no client yet.
    Listening,
    /// A client is connected and the metadata message has gone out.
    Connected,
    /// A send failed; every later send attempt returns the error it failed
    /// with.
    Broken,
}

/// One message ready to transmit: the payload bytes, the OS handles to attach
/// as ancillary data, and the connected client to send it to.
pub struct WirePacket {
    /// OS handle of the connected client socket.
    pub client_fd: i32,
    /// Payload bytes of the message.
    pub payload: Vec<u8>,
    /// OS handles to attach as ancillary data, in order.
    pub fds: Vec<i32>,
}

/// What a metadata attempt decided.
pub enum MetadataStep {
    /// No client is waiting; nothing to transmit, and that is success.
    NoClient,
    /// A client just connected: transmit this metadata packet, exactly once.
    Transmit(WirePacket),
    /// The metadata already went out on this connection; nothing to do.
    AlreadySent,
}

/// What a frame notification decided.
pub enum FrameStep {
    /// No client is connected; nothing to transmit, and that is success.
    NoClient,
    /// Transmit this frame packet to the connected client.
    Transmit(WirePacket),
}

/// The session state machine: the state, the connected client's OS handle,
/// and the error the session broke with.
pub struct IPCHandler {
    /// Where the session stands.
    pub state: IpcSessionState,
    /// OS handle of the accepted client, once one connected.
    pub client_fd: Option<i32>,
    /// The error the first failed send returned; set exactly while broken.
    pub last_error: Option<ExternalSurfaceError>,
}

impl IPCHandler {
    /// Well-formedness: a listening session has no client and no error, a
    /// connected or broken one keeps its client, and exactly a broken one
    /// holds the error to repeat.
    pub open spec fn wf(self) -> bool {
        match self.state {
            IpcSessionState::Listening => self.client_fd is None && self.last_error is None,
            IpcSessionState::Connected => self.client_fd is Some && self.last_error is None,
            IpcSessionState::Broken => self.client_fd is Some && self.last_error is Some,
        }
    }

    /// A fresh session: listening, no client, no error.
    pub fn new_session() -> (r: Self)
        ensures
            r.wf(),
            r.state is Listening,
    {
        IPCHandler { state: IpcSessionState::Listening, client_fd: None, last_error: None }
    }

    /// The state after one metadata attempt that saw `accept` as the accept
    /// outcome, paired with whether the attempt produces a metadata packet.
    pub open spec fn spec_metadata_step(self, accept: Option<i32>) -> (IPCHandler, bool) {
        match self.state {
            IpcSessionState::Listening => match accept {
                Some(fd) => (
                    IPCHandler {
                        state: IpcSessionState::Connected,
                        client_fd: Some(fd),
                        last_error: None,
                    },
                    true,
                ),
                None => (self, false),
            },
            _ => (self, false),
        }
    }

    /// One metadata attempt. The shell passes the outcome of its non-blocking
    /// accept; while no client is waiting the attempt succeeds as a no-op, on
    /// the first accepted client it yields the metadata packet to transmit,
    /// on an already connected session there is nothing left to do, and on a
    /// broken session it repeats the error the session broke with.
    pub fn attempt_metadata(&mut self, accept: Option<i32>, meta: &MetadataMessage) -> (r: Result<
        MetadataStep,
        ExternalSurfaceError,
    >)
        requires
            old(self).wf(),
            meta.memory_fds@.len() <= u32::MAX,
        ensures
            final(self).wf(),
            *final(self) == old(self).spec_metadata_step(accept).0,
            match r {
                Ok(step) => match step {
                    MetadataStep::NoClient => old(self).state is Listening && accept is None,
                    MetadataStep::Transmit(pkt) => {
                        &&& old(self).state is Listening
                        &&& accept is Some
                        &&& pkt.client_fd == accept.unwrap()
                        &&& pkt.payload@ == spec_metadata_bytes(*meta)
                        &&& pkt.fds@ == meta.memory_fds@
                    },
                    MetadataStep::AlreadySent => old(self).state is Connected,
                },
                Err(e) => old(self).state is Broken && Some(e) == old(self).last_error,
            },
            (r matches Ok(MetadataStep::Transmit(_))) == old(self).spec_metadata_step(accept).1,
    {
        match self.state {
            IpcSessionState::Listening => match accept {
                Some(fd) => {
                    self.state = IpcSessionState::Connected;
                    self.client_fd = Some(fd);
                    let payload = encode_metadata(meta);
                    let fds = meta.memory_fds.clone();
                    proof {
                        assert(fds@ =~= meta.memory_fds@);
                    }
                    Ok(MetadataStep::Transmit(WirePacket { client_fd: fd, payload, fds }))
                },
                None => Ok(MetadataStep::NoClient),
            },
            IpcSessionState::Connected => Ok(MetadataStep::AlreadySent),
            IpcSessionState::Broken => Err(self.last_error.unwrap()),
        }
    }

    /// One frame notification: with no client connected it succeeds as a
    /// no-op, with a connected client it yields the frame packet to transmit,
    /// and on a broken session it repeats the error the session broke with.
    /// The session itself does not change.
    pub fn notify_frame_ready(&mut self, frame: &FrameMessage) -> (r: Result<
        FrameStep,
        ExternalSurfaceError,
    >)
        requires
            old(self).wf(),
        ensures
            final(self).wf(),
            *final(self) == *old(self),
            match r {
                Ok(step) => match step {
                    FrameStep::NoClient => old(self).state is Listening,
                    FrameStep::Transmit(pkt) => {
                        &&& old(self).state is Connected
                        &&& Some(pkt.client_fd) == old(self).client_fd
                        &&& pkt.payload@ == spec_frame_bytes(*frame)
                        &&& pkt.fds@ == spec_frame_fds(*frame)
                    },
                },
                Err(e) => old(self).state is Broken && Some(e) == old(self).last_error,
            },
            (r matches Ok(FrameStep::Transmit(_))) == (old(self).state is Connected),
    {
        match self.state {
            IpcSessionState::Listening => Ok(FrameStep::NoClient),
            IpcSessionState::Connected => {
                let payload = encode_frame(frame);
                let fds = frame_ancillary_fds(frame);
                Ok(FrameStep::Transmit(
                    WirePacket { client_fd: self.client_fd.unwrap(), payload, fds },
                ))
            },
            IpcSessionState::Broken => Err(self.last_error.unwrap()),
        }
    }

    /// Records the outcome of transmitting a packet. A success leaves the
    /// session as it was; a failure breaks it, and every later send attempt
    /// returns the error recorded here.
    pub fn record_send_result(&mut self, success: bool)
        requires
            old(self).wf(),
            old(self).state is Connected,
        ensures
            final(self).wf(),
            success ==> *final(self) == *old(self),
            !success ==> final(self).state is Broken && final(self).client_fd == old(
                self,
            ).client_fd && final(self).last_error == Some(
                ExternalSurfaceError::SurfaceCreationFailed,
            ),
    {
        if !success {
            self.state = IpcSessionState::Broken;
            self.last_error = Some(ExternalSurfaceError::SurfaceCreationFailed);
        }
    }

    /// How many metadata packets a run of attempts produces, starting from
    /// this session, when the attempts see the accept outcomes in `accepts`.
    pub open spec fn spec_metadata_sends(self, accepts: Seq<Option<i32>>) -> nat
        decreases accepts.len(),
    {
        if accepts.len() == 0 {
            0
        } else {
            let stepped = self.spec_metadata_step(accepts[0]);
            (if stepped.1 {
                1nat
            } else {
                0nat
            }) + stepped.0.spec_metadata_sends(accepts.drop_first())
        }
    }

    /// Once a session has left the listening state, no run of further
    /// metadata attempts produces another metadata packet.
    pub proof fn lemma_no_metadata_after_listening(self, accepts: Seq<Option<i32>>)
        requires
            !(self.state is Listening),
        ensures
            self.spec_metadata_sends(accepts) == 0,
        decreases accepts.len(),
    {
        if accepts.len() > 0 {
            self.lemma_no_metadata_after_listening(accepts.drop_first());
        }
    }

    /// Over any run of metadata attempts on a fresh (listening) session, the
    /// metadata packet is produced exactly once if some attempt saw an
    /// accepted client, and never otherwise. Attempts that saw no client
    /// leave no backlog: a client that connects after many empty attempts
    /// still receives exactly one metadata message.
    pub proof fn lemma_metadata_sent_exactly_once(self, accepts: Seq<Option<i32>>)
        requires
            self.state is Listening,
        ensures
            self.spec_metadata_sends(accepts) == if exists|i: int|
                0 <= i < accepts.len() && accepts[i] is Some {
                1nat
            } else {
                0nat
            },
        decreases accepts.len(),
    {
        if accepts.len() > 0 {
            let stepped = self.spec_metadata_step(accepts[0]);
            if accepts[0] is Some {
                stepped.0.lemma_no_metadata_after_listening(accepts.drop_first());
            } else {
                stepped.0.lemma_metadata_sent_exactly_once(accepts.drop_first());
                let rest = accepts.drop_first();
                assert((exists|i: int| 0 <= i < rest.len() && rest[i] is Some) <==> (exists|i: int|
                    0 <= i < accepts.len() && accepts[i] is Some)) by {
                    if exists|i: int| 0 <= i < rest.len() && rest[i] is Some {
                        let i = choose|i: int| 0 <= i < rest.len() && rest[i] is Some;
                        assert(accepts[i + 1] is Some);
                    }
                    if exists|i: int| 0 <= i < accepts.len() && accepts[i] is Some {
                        let i = choose|i: int| 0 <= i < accepts.len() && accepts[i] is Some;
                        assert(i != 0);
                        assert(rest[i - 1] is Some);
                    }
                }
            }
        }
    }
}

/// One producer-side session event, as the trace lemmas below model it: a
/// metadata attempt that saw an accept outcome, a frame notification, or the
/// reported outcome of a transmission.
pub enum SessionEvent {
    /// A metadata attempt; the payload is what the non-blocking accept saw.
    MetadataAttempt(Option<i32>),
    /// A frame notification.
    FrameNotify,
    /// The outcome of transmitting a packet.
    SendOutcome(bool),
}

impl IPCHandler {
    /// The state after one session event, paired with whether the event
    /// produced a metadata packet and whether it produced a frame packet.
    pub open spec fn spec_event_step(self, e: SessionEvent) -> (IPCHandler, bool, bool) {
        match e {
            SessionEvent::MetadataAttempt(accept) => {
                let stepped = self.spec_metadata_step(accept);
                (stepped.0, stepped.1, false)
            },
            SessionEvent::FrameNotify => (self, false, self.state is Connected),
            SessionEvent::SendOutcome(ok) => (
                if self.state is Connected && !ok {
                    IPCHandler {
                        state: IpcSessionState::Broken,
                        client_fd: self.client_fd,
                        last_error: Some(ExternalSurfaceError::SurfaceCreationFailed),
                    }
                } else {
                    self
                },
                false,
                false,
            ),
        }
    }

    /// The session state after the first `i` events of a trace.
    pub open spec fn spec_state_at(self, events: Seq<SessionEvent>, i: int) -> IPCHandler
        recommends
            0 <= i <= events.len(),
        decreases i,
    {
        if i <= 0 {
            self
        } else {
            self.spec_state_at(events, i - 1).spec_event_step(events[i - 1]).0
        }
    }

    /// Whether the event at position `i` of a trace produces a metadata
    /// packet.
    pub open spec fn spec_emits_metadata_at(self, events: Seq<SessionEvent>, i: int) -> bool {
        self.spec_state_at(events, i).spec_event_step(events[i]).1
    }

    /// Whether the event at position `i` of a trace produces a frame packet.
    pub open spec fn spec_emits_frame_at(self, events: Seq<SessionEvent>, i: int) -> bool {
        self.spec_state_at(events, i).spec_event_step(events[i]).2
    }

    /// A session that has left the listening state did so at the step that
    /// produced the metadata packet: whenever a trace from a fresh session
    /// reaches a non-listening state, some earlier event emitted metadata.
    proof fn lemma_connection_needs_metadata(self, events: Seq<SessionEvent>, i: int)
        requires
            self.state is Listening,
            0 <= i <= events.len(),
            !(self.spec_state_at(events, i).state is Listening),
        ensures
            exists|j: int| 0 <= j < i && self.spec_emits_metadata_at(events, j),
        decreases i,
    {
        if i > 0 {
            let prev = self.spec_state_at(events, i - 1);
            if prev.state is Listening {
                assert(self.spec_emits_metadata_at(events, i - 1));
            } else {
                self.lemma_connection_needs_metadata(events, i - 1);
            }
        }
    }

    /// On every connection, the metadata message precedes every frame
    /// message: over any run of session events starting from a fresh
    /// (listening) session, an event that produces a frame packet is preceded
    /// by an event that produced the metadata packet.
    pub proof fn lemma_metadata_precedes_frames(self, events: Seq<SessionEvent>, i: int)
        requires
            self.state is Listening,
            0 <= i < events.len(),
            self.spec_emits_frame_at(events, i),
        ensures
            exists|j: int| 0 <= j < i && self.spec_emits_metadata_at(events, j),
    {
        self.lemma_connection_needs_metadata(events, i);
    }
}

/// The per-frame hook the producer loop calls once rendering into the current
/// buffer has finished, with whatever fresh semaphore handle exports the
/// shell managed (a frame whose export failed is still announced, just
/// without synchronization handles — best effort, never fatal). It asks the
/// session what to transmit for this frame and then advances the ring to the
/// buffer the next frame is rendered into. The session itself is unchanged;
/// a send error is reported but never stops production.
pub fn on_frame_rendered(
    resources: &mut SharedVulkanResources,
    handler: &mut IPCHandler,
    render_finished_fd: Option<i32>,
    consumer_ready_fd: Option<i32>,
) -> (r: Result<FrameStep, ExternalSurfaceError>)
    requires
        old(resources).wf(),
        old(handler).wf(),
    ensures
        final(resources).wf(),
        final(handler).wf(),
        *final(handler) == *old(handler),
        final(resources).current_buffer_index == old(resources).spec_swapped_index(),
        final(resources).config == old(resources).config,
        final(resources).texture_handles == old(resources).texture_handles,
        final(resources).memory_fds == old(resources).memory_fds,
        final(resources).vulkan_images == old(resources).vulkan_images,
        final(resources).vulkan_memory == old(resources).vulkan_memory,
        final(resources).render_finished_semaphores == old(resources).render_finished_semaphores,
        final(resources).consumer_ready_semaphores == old(resources).consumer_ready_semaphores,
        ({
            let frame = FrameMessage {
                buffer_index: old(resources).current_buffer_index,
                render_finished_fd,
                consumer_ready_fd,
            };
            match r {
                Ok(step) => match step {
                    FrameStep::NoClient => old(handler).state is Listening,
                    FrameStep::Transmit(pkt) => {
                        &&& old(handler).state is Connected
                        &&& Some(pkt.client_fd) == old(handler).client_fd
                        &&& pkt.payload@ == spec_frame_bytes(frame)
                        &&& pkt.fds@ == spec_frame_fds(frame)
                    },
                },
                Err(e) => old(handler).state is Broken && Some(e) == old(handler).last_error,
            }
        }),
{
    let frame = FrameMessage {
        buffer_index: resources.current_buffer_index,
        render_finished_fd,
        consumer_ready_fd,
    };
    let r = handler.notify_frame_ready(&frame);
    resources.swap_buffers();
    r
}

/// The one-time metadata message for a configured, populated resource set:
/// its dimensions, its pixel-format wire code, and the exported memory handle
/// of every buffer in ring order.
pub fn build_metadata(resources: &SharedVulkanResources) -> (m: MetadataMessage)
    ensures
        m.width == resources.config.width,
        m.height == resources.config.height,
        m.format == resources.config.format.spec_code(),
        m.memory_fds@ == resources.memory_fds@,
{
    let fds = resources.memory_fds.clone();
    proof {
        assert(fds@ =~= resources.memory_fds@);
    }
    MetadataMessage {
        width: resources.config.width,
        height: resources.config.height,
        format: resources.config.format.code(),
        memory_fds: fds,
    }
}

} // verus!
