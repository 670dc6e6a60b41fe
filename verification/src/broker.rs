//! The broker core: one context object holding the backend, the live
//! device registry, and the pump registry, with one operation per request
//! kind and one per pump tick. Sessions and pump tasks share this context;
//! every state change it makes is stated in the contracts below.

use vstd::prelude::*;
use dashmap::DashMap;
use crate::backend::{spec_invalid_handle_message, Backend, BackendError};
use crate::device::DeviceKind;
use crate::device;
use crate::pump::{spec_pump_init, spec_pump_submit, spec_pump_ticked, PumpState};
use crate::registry::{
    kind_map_get, kind_map_insert, kind_map_new, kind_map_remove, kind_map_view, pump_map_get,
    pump_map_insert, pump_map_new, pump_map_remove, pump_map_view,
};
use crate::wire::{BrokerRequest, BrokerResponse, PadState};

verus! {

/// What a session loop tells the broker it read: a clean end of stream, a
/// well-formed request, or a frame that would not decode, with the
/// description of the failure.
#[derive(Clone, Debug, PartialEq, Eq)]
pub enum SessionEvent {
    /// The client closed its end; a zero-length read.
    Disconnected,
    /// One well-formed framed request.
    Frame(BrokerRequest),
    /// A frame that would not decode; the session cannot resynchronize.
    Malformed(String),
}

/// What the session loop must do next: write a response and read on, write
/// a best-effort response and terminate, or terminate at once.
#[derive(Clone, Debug, PartialEq, Eq)]
pub enum SessionAction {
    /// Write the response, then read the next frame.
    Respond(BrokerResponse),
    /// Write the response best-effort, then terminate the session.
    RespondAndClose(BrokerResponse),
    /// Terminate the session without writing.
    Close,
}

/// The broker context: the backend capability, the live-device registry
/// mapping each handle to its kind, and the pump registry holding the
/// coalescing state of each live device's pump.
pub struct Broker<B: Backend> {
    backend: B,
    live: DashMap<u64, DeviceKind>,
    pumps: DashMap<u64, PumpState>,
}

impl<B: Backend> Broker<B> {
    /// The live-device registry: each live handle and its kind.
    pub closed spec fn live_view(self) -> Map<u64, DeviceKind> {
        kind_map_view(self.live)
    }

    /// The pump registry: the pump state of each handle with a pump.
    pub closed spec fn pumps_view(self) -> Map<u64, PumpState> {
        pump_map_view(self.pumps)
    }

    /// The handles the backend holds live.
    pub closed spec fn backend_live(self) -> Set<u64> {
        self.backend.live()
    }

    /// Every handle the backend ever issued.
    pub closed spec fn backend_issued(self) -> Set<u64> {
        self.backend.issued()
    }

    /// The states the backend has delivered, in order.
    pub closed spec fn backend_delivered(self) -> Seq<(u64, device::PadState)> {
        self.backend.delivered()
    }

    /// The backend itself, for callers that observe it directly.
    pub closed spec fn spec_backend(self) -> B {
        self.backend
    }

    /// Well-formedness: the backend is sound, the registry and the backend
    /// never disagree about which handles are live, and every pump belongs
    /// to a live device.
    pub closed spec fn inv(self) -> bool {
        &&& self.backend.inv()
        &&& self.live_view().dom() == self.backend.live()
        &&& forall|h: u64|
            self.pumps_view().dom().contains(h) ==> self.live_view().dom().contains(h)
    }

    /// Nothing observable differs between the two broker states: the same
    /// registries, and a backend with the same live handles, issued
    /// handles, and deliveries.
    pub open spec fn spec_unchanged(pre: Broker<B>, post: Broker<B>) -> bool {
        &&& post.live_view() == pre.live_view()
        &&& post.pumps_view() == pre.pumps_view()
        &&& post.backend_live() == pre.backend_live()
        &&& post.backend_issued() == pre.backend_issued()
        &&& post.backend_delivered() == pre.backend_delivered()
    }

    /// What creating a device does, by response: a fresh handle -- never
    /// issued before, above every earlier one -- registered with its kind
    /// and given a clean neutral pump; or a failure that registers
    /// nothing.
    pub open spec fn spec_create_post(
        pre: Broker<B>,
        post: Broker<B>,
        kind: DeviceKind,
        resp: BrokerResponse,
    ) -> bool {
        match resp {
            BrokerResponse::OkCreate { handle } => {
                &&& !pre.live_view().dom().contains(handle)
                &&& !pre.backend_issued().contains(handle)
                &&& (forall|g: u64| pre.backend_issued().contains(g) ==> g < handle)
                &&& post.live_view() == pre.live_view().insert(handle, kind)
                &&& post.pumps_view() == pre.pumps_view().insert(handle, spec_pump_init())
                &&& post.backend_issued() == pre.backend_issued().insert(handle)
                &&& post.backend_live() == pre.backend_live().insert(handle)
                &&& post.backend_delivered() == pre.backend_delivered()
            },
            BrokerResponse::Failed { message } => Self::spec_unchanged(pre, post),
            _ => false,
        }
    }

    /// What destroying a handle does: an unknown handle is refused with
    /// the invalid-handle message and nothing changes; a known one has its
    /// pump retired first, and then either everything forgets it, or the
    /// backend's failure leaves it live (pump gone) for the caller to
    /// retry.
    pub open spec fn spec_destroy_post(
        pre: Broker<B>,
        post: Broker<B>,
        handle: u64,
        resp: BrokerResponse,
    ) -> bool {
        &&& !pre.live_view().dom().contains(handle) ==> {
            &&& Self::spec_unchanged(pre, post)
            &&& resp matches BrokerResponse::Failed { message } && message@
                == spec_invalid_handle_message(handle)
        }
        &&& pre.live_view().dom().contains(handle) ==> match resp {
            BrokerResponse::Done => {
                &&& post.live_view() == pre.live_view().remove(handle)
                &&& post.pumps_view() == pre.pumps_view().remove(handle)
                &&& post.backend_live() == pre.backend_live().remove(handle)
                &&& post.backend_issued() == pre.backend_issued()
                &&& post.backend_delivered() == pre.backend_delivered()
            },
            BrokerResponse::Failed { message } => {
                &&& post.live_view() == pre.live_view()
                &&& post.pumps_view() == pre.pumps_view().remove(handle)
                &&& post.backend_live() == pre.backend_live()
                &&& post.backend_issued() == pre.backend_issued()
                &&& post.backend_delivered() == pre.backend_delivered()
            },
            _ => false,
        }
    }

    /// What submitting a state does: a pump swallows it -- acknowledged at
    /// once, nothing delivered yet; without a pump the backend is called
    /// directly; an unknown handle yields the invalid-handle error and no
    /// delivery ever.
    pub open spec fn spec_update_post(
        pre: Broker<B>,
        post: Broker<B>,
        handle: u64,
        state: PadState,
        resp: BrokerResponse,
    ) -> bool {
        &&& pre.pumps_view().dom().contains(handle) ==> {
            &&& resp == BrokerResponse::Done
            &&& post.pumps_view() == pre.pumps_view().insert(
                handle,
                spec_pump_submit(pre.pumps_view()[handle], state.spec_widen()),
            )
            &&& post.live_view() == pre.live_view()
            &&& post.backend_live() == pre.backend_live()
            &&& post.backend_issued() == pre.backend_issued()
            &&& post.backend_delivered() == pre.backend_delivered()
            &&& post.spec_backend() == pre.spec_backend()
        }
        &&& !pre.pumps_view().dom().contains(handle) && pre.live_view().dom().contains(handle)
            ==> {
            &&& post.pumps_view() == pre.pumps_view()
            &&& post.live_view() == pre.live_view()
            &&& post.backend_live() == pre.backend_live()
            &&& post.backend_issued() == pre.backend_issued()
            &&& match resp {
                BrokerResponse::Done => post.backend_delivered() == pre.backend_delivered().push(
                    (handle, state.spec_widen()),
                ),
                BrokerResponse::Failed { message } => post.backend_delivered()
                    == pre.backend_delivered(),
                _ => false,
            }
        }
        &&& !pre.pumps_view().dom().contains(handle) && !pre.live_view().dom().contains(handle)
            ==> {
            &&& Self::spec_unchanged(pre, post)
            &&& resp matches BrokerResponse::Failed { message } && message@
                == spec_invalid_handle_message(handle)
        }
    }

    /// What answering one request does, request by request.
    pub open spec fn spec_request_post(
        pre: Broker<B>,
        post: Broker<B>,
        req: BrokerRequest,
        resp: BrokerResponse,
    ) -> bool {
        match req {
            BrokerRequest::Ping => resp == BrokerResponse::Pong && Self::spec_unchanged(pre, post),
            BrokerRequest::Create { kind, features } => Self::spec_create_post(
                pre,
                post,
                kind,
                resp,
            ),
            BrokerRequest::Destroy { handle } => Self::spec_destroy_post(pre, post, handle, resp),
            BrokerRequest::UpdateState { handle, state } => Self::spec_update_post(
                pre,
                post,
                handle,
                state,
                resp,
            ),
        }
    }

    /// A broker over a fresh pair of registries.
    pub fn new(backend: B) -> (r: Broker<B>)
        requires
            backend.inv(),
            backend.live() == Set::<u64>::empty(),
        ensures
            r.inv(),
            r.live_view() == Map::<u64, DeviceKind>::empty(),
            r.pumps_view() == Map::<u64, PumpState>::empty(),
            r.spec_backend() == backend,
            r.backend_live() == backend.live(),
            r.backend_issued() == backend.issued(),
            r.backend_delivered() == backend.delivered(),
    {
        let r = Broker { backend, live: kind_map_new(), pumps: pump_map_new() };
        proof {
            assert(r.live_view().dom() =~= r.backend.live());
        }
        r
    }

    /// Whether a handle is in the live-device registry.
    pub fn is_live(&self, handle: u64) -> (r: bool)
        ensures
            r == self.live_view().dom().contains(handle),
    {
        match kind_map_get(&self.live, handle) {
            Some(_) => true,
            None => false,
        }
    }

    /// Whether a handle has a pump.
    pub fn has_pump(&self, handle: u64) -> (r: bool)
        ensures
            r == self.pumps_view().dom().contains(handle),
    {
        match pump_map_get(&self.pumps, handle) {
            Some(_) => true,
            None => false,
        }
    }

    /// The backend, read-only.
    pub fn backend(&self) -> (r: &B)
        ensures
            *r == self.spec_backend(),
    {
        &self.backend
    }

    /// Creates a device: asks the backend, and on success registers the
    /// fresh handle and starts its pump, clean and neutral. A backend
    /// failure registers nothing.
    pub fn handle_create(&mut self, kind: DeviceKind, features: u32) -> (resp: BrokerResponse)
        requires
            old(self).inv(),
        ensures
            final(self).inv(),
            Self::spec_create_post(*old(self), *final(self), kind, resp),
    {
        match self.backend.create(kind, features) {
            Ok(handle) => {
                kind_map_insert(&mut self.live, handle, kind);
                pump_map_insert(&mut self.pumps, handle, PumpState::new());
                proof {
                    assert(self.live_view().dom() =~= self.backend.live());
                }
                BrokerResponse::OkCreate { handle }
            },
            Err(e) => BrokerResponse::Failed { message: e.message() },
        }
    }

    /// Destroys a device. An unknown handle is refused before the backend
    /// is involved. Otherwise the pump is retired first, so that nothing
    /// can deliver to a handle the backend has forgotten; a backend
    /// failure then leaves the handle live for the caller to retry.
    pub fn handle_destroy(&mut self, handle: u64) -> (resp: BrokerResponse)
        requires
            old(self).inv(),
        ensures
            final(self).inv(),
            Self::spec_destroy_post(*old(self), *final(self), handle, resp),
    {
        match kind_map_get(&self.live, handle) {
            None => BrokerResponse::Failed {
                message: BackendError::InvalidHandle(handle).message(),
            },
            Some(_) => {
                let _ = pump_map_remove(&mut self.pumps, handle);
                match self.backend.destroy(handle) {
                    Ok(()) => {
                        let _ = kind_map_remove(&mut self.live, handle);
                        proof {
                            assert(self.live_view().dom() =~= self.backend.live());
                        }
                        BrokerResponse::Done
                    },
                    Err(e) => BrokerResponse::Failed { message: e.message() },
                }
            },
        }
    }

    /// Submits the newest state for a device. A handle with a pump has the
    /// state handed to the pump and is acknowledged at once; delivery is
    /// asynchronous and coalesced. A handle without a pump falls back to a
    /// direct backend call. An unknown handle yields the invalid-handle
    /// error and no backend delivery.
    pub fn handle_update(&mut self, handle: u64, state: PadState) -> (resp: BrokerResponse)
        requires
            old(self).inv(),
        ensures
            final(self).inv(),
            Self::spec_update_post(*old(self), *final(self), handle, state, resp),
    {
        let s = state.widen();
        match pump_map_remove(&mut self.pumps, handle) {
            Some(p) => {
                let mut p = p;
                p.submit(s);
                pump_map_insert(&mut self.pumps, handle, p);
                proof {
                    assert(self.pumps_view() =~= old(self).pumps_view().insert(
                        handle,
                        spec_pump_submit(old(self).pumps_view()[handle], state.spec_widen()),
                    ));
                }
                BrokerResponse::Done
            },
            None => {
                proof {
                    assert(self.pumps_view() =~= old(self).pumps_view());
                }
                match self.backend.update(handle, s) {
                    Ok(()) => BrokerResponse::Done,
                    Err(e) => BrokerResponse::Failed { message: e.message() },
                }
            },
        }
    }

    /// One timer tick of the pump for a handle. A dirty pump delivers its
    /// held state to the backend and comes back clean, so a second tick
    /// without new submissions delivers nothing: at most one backend call
    /// per tick period. Returns whether a delivery was made; a backend
    /// failure is handed back for the caller's diagnostics only and is
    /// reported to no client.
    pub fn tick_pump(&mut self, handle: u64) -> (r: Result<bool, BackendError>)
        requires
            old(self).inv(),
        ensures
            final(self).inv(),
            final(self).live_view() == old(self).live_view(),
            final(self).backend_live() == old(self).backend_live(),
            final(self).backend_issued() == old(self).backend_issued(),
            final(self).pumps_view() == if old(self).pumps_view().dom().contains(handle) {
                old(self).pumps_view().insert(
                    handle,
                    spec_pump_ticked(old(self).pumps_view()[handle]),
                )
            } else {
                old(self).pumps_view()
            },
            match r {
                Ok(true) => {
                    &&& old(self).pumps_view().dom().contains(handle)
                    &&& old(self).pumps_view()[handle].dirty
                    &&& final(self).backend_delivered() == old(self).backend_delivered().push(
                        (handle, old(self).pumps_view()[handle].held),
                    )
                },
                Ok(false) => {
                    &&& (old(self).pumps_view().dom().contains(handle) ==> !old(
                        self,
                    ).pumps_view()[handle].dirty)
                    &&& final(self).backend_delivered() == old(self).backend_delivered()
                },
                Err(_) => {
                    &&& old(self).pumps_view().dom().contains(handle)
                    &&& old(self).pumps_view()[handle].dirty
                    &&& final(self).backend_delivered() == old(self).backend_delivered()
                },
            },
    {
        match pump_map_remove(&mut self.pumps, handle) {
            Some(p) => {
                let mut p = p;
                let out = p.tick();
                pump_map_insert(&mut self.pumps, handle, p);
                proof {
                    assert(self.pumps_view() =~= old(self).pumps_view().insert(
                        handle,
                        spec_pump_ticked(old(self).pumps_view()[handle]),
                    ));
                }
                match out {
                    Some(held) => {
                        match self.backend.update(handle, held) {
                            Ok(()) => Ok(true),
                            Err(e) => Err(e),
                        }
                    },
                    None => Ok(false),
                }
            },
            None => {
                proof {
                    assert(self.pumps_view() =~= old(self).pumps_view());
                }
                Ok(false)
            },
        }
    }

    /// Answers one request: a ping with a pong, and each device operation
    /// with the outcome its handler states.
    pub fn handle_request(&mut self, req: BrokerRequest) -> (resp: BrokerResponse)
        requires
            old(self).inv(),
        ensures
            final(self).inv(),
            Self::spec_request_post(*old(self), *final(self), req, resp),
    {
        match req {
            BrokerRequest::Ping => BrokerResponse::Pong,
            BrokerRequest::Create { kind, features } => self.handle_create(kind, features),
            BrokerRequest::Destroy { handle } => self.handle_destroy(handle),
            BrokerRequest::UpdateState { handle, state } => self.handle_update(handle, state),
        }
    }

    /// One step of a session: a clean disconnect closes the session and
    /// touches nothing; a request is answered and the session reads on; a
    /// malformed frame is answered best-effort with its failure and the
    /// session terminates, again touching nothing.
    pub fn session_step(&mut self, ev: SessionEvent) -> (act: SessionAction)
        requires
            old(self).inv(),
        ensures
            final(self).inv(),
            match ev {
                SessionEvent::Disconnected => act == SessionAction::Close && Self::spec_unchanged(
                    *old(self),
                    *final(self),
                ),
                SessionEvent::Frame(req) => act matches SessionAction::Respond(resp)
                    && Self::spec_request_post(*old(self), *final(self), req, resp),
                SessionEvent::Malformed(m) => {
                    &&& act == SessionAction::RespondAndClose(
                        BrokerResponse::Failed { message: m },
                    )
                    &&& Self::spec_unchanged(*old(self), *final(self))
                },
            },
    {
        match ev {
            SessionEvent::Disconnected => SessionAction::Close,
            SessionEvent::Frame(req) => SessionAction::Respond(self.handle_request(req)),
            SessionEvent::Malformed(m) => SessionAction::RespondAndClose(
                BrokerResponse::Failed { message: m },
            ),
        }
    }
}

/// A create answered with a handle, followed at once by a successful
/// destroy of that handle, leaves the live-device registry, the pump
/// registry, and the backend without any entry for it, whatever kind was
/// created and whatever else was live.
pub proof fn lemma_create_then_destroy_leaves_no_entry<B: Backend>(
    pre: Broker<B>,
    mid: Broker<B>,
    post: Broker<B>,
    kind: DeviceKind,
    h: u64,
)
    requires
        Broker::spec_create_post(pre, mid, kind, BrokerResponse::OkCreate { handle: h }),
        Broker::spec_destroy_post(mid, post, h, BrokerResponse::Done),
    ensures
        !post.live_view().dom().contains(h),
        !post.pumps_view().dom().contains(h),
        !post.backend_live().contains(h),
{
}

} // verus!
