//! The wireless link, from uninitialized to associated.
//!
//! The radio itself is driven by the caller; each operation here takes the
//! radio's answer and moves the link's state accordingly.
use vstd::prelude::*;
use crate::error::CoreError;

verus! {

/// Why the link ended up failed.
#[derive(Clone, Copy, Debug, PartialEq, Eq, Structural)]
pub enum LinkFailure {
    /// The radio rejected the network parameters.
    ConfigRejected,
    /// The driver did not start.
    StartFailed,
    /// The driver did not accept the association request.
    ConnectFailed,
    /// Association did not complete within the polling bound.
    Timeout,
}

/// Where the link stands.
#[derive(Clone, Copy, Debug, PartialEq, Eq, Structural)]
pub enum LinkState {
    Uninitialized,
    Configured,
    Starting,
    Associating,
    Connected,
    Failed(LinkFailure),
}

/// The abstract state of a [`LinkConnector`].
pub struct LinkModel {
    pub state: LinkState,
    /// The driver has started successfully.
    pub started: bool,
    /// Association was requested after the driver started.
    pub connect_requested: bool,
    /// Polls that found the link not yet associated.
    pub polls: u32,
    /// How many such polls end the wait.
    pub max_polls: u32,
}

/// Drives the link through its states, bounding the wait for association.
#[derive(Clone, Copy)]
pub struct LinkConnector {
    state: LinkState,
    started: bool,
    connect_requested: bool,
    polls: u32,
    max_polls: u32,
}

impl View for LinkConnector {
    type V = LinkModel;

    closed spec fn view(&self) -> LinkModel {
        LinkModel {
            state: self.state,
            started: self.started,
            connect_requested: self.connect_requested,
            polls: self.polls,
            max_polls: self.max_polls,
        }
    }
}

/// The invariant of every link: it reaches `Connected` only after a request
/// to associate that followed a successful start, and a wait in progress
/// has not used up its bound.
pub open spec fn link_wf(m: LinkModel) -> bool {
    &&& m.max_polls > 0
    &&& m.connect_requested ==> m.started
    &&& m.state is Connected ==> m.connect_requested
    &&& m.state is Associating ==> m.connect_requested && m.polls < m.max_polls
    &&& (m.state is Uninitialized || m.state is Configured) ==> !m.started
    &&& m.state is Starting ==> m.started && !m.connect_requested
}

/// A link is never connected unless association was requested after the
/// driver started successfully.
pub proof fn lemma_connected_only_after_connect(m: LinkModel)
    requires
        link_wf(m),
        m.state is Connected,
    ensures
        m.started,
        m.connect_requested,
{
}

impl LinkConnector {
    #[verifier::type_invariant]
    spec fn inv(&self) -> bool {
        link_wf(self@)
    }

    /// A link that has not been touched; the wait for association ends after
    /// `max_polls` polls that find it not associated.
    pub fn new(max_polls: u32) -> (r: LinkConnector)
        requires
            max_polls > 0,
        ensures
            r@.state is Uninitialized,
            !r@.started,
            !r@.connect_requested,
            r@.polls == 0,
            r@.max_polls == max_polls,
            link_wf(r@),
    {
        LinkConnector {
            state: LinkState::Uninitialized,
            started: false,
            connect_requested: false,
            polls: 0,
            max_polls,
        }
    }

    /// Where the link stands.
    pub fn state(&self) -> (r: LinkState)
        ensures
            r == self@.state,
            link_wf(self@),
    {
        proof {
            use_type_invariant(self);
        }
        self.state
    }

    /// Records the radio's answer to the network parameters.
    pub fn configure(&mut self, accepted: bool) -> (r: Result<(), CoreError>)
        requires
            old(self)@.state is Uninitialized,
        ensures
            link_wf(final(self)@),
            final(self)@.max_polls == old(self)@.max_polls,
            final(self)@.started == old(self)@.started,
            final(self)@.connect_requested == old(self)@.connect_requested,
            final(self)@.polls == old(self)@.polls,
            accepted ==> r is Ok && final(self)@.state is Configured,
            !accepted ==> r == Err::<(), CoreError>(CoreError::ConfigError)
                && final(self)@.state == LinkState::Failed(LinkFailure::ConfigRejected),
    {
        proof {
            use_type_invariant(&*self);
        }
        if accepted {
            self.state = LinkState::Configured;
            Ok(())
        } else {
            self.state = LinkState::Failed(LinkFailure::ConfigRejected);
            Err(CoreError::ConfigError)
        }
    }

    /// Records whether the driver started.
    pub fn start(&mut self, ok: bool) -> (r: Result<(), CoreError>)
        requires
            old(self)@.state is Configured,
        ensures
            link_wf(final(self)@),
            final(self)@.max_polls == old(self)@.max_polls,
            final(self)@.connect_requested == old(self)@.connect_requested,
            final(self)@.polls == old(self)@.polls,
            ok ==> r is Ok && final(self)@.state is Starting && final(self)@.started,
            !ok ==> r == Err::<(), CoreError>(CoreError::LinkStartError)
                && final(self)@.state == LinkState::Failed(LinkFailure::StartFailed)
                && final(self)@.started == old(self)@.started,
    {
        proof {
            use_type_invariant(&*self);
        }
        if ok {
            *self = LinkConnector { state: LinkState::Starting, started: true, ..*self };
            Ok(())
        } else {
            self.state = LinkState::Failed(LinkFailure::StartFailed);
            Err(CoreError::LinkStartError)
        }
    }

    /// Records whether the driver accepted the request to associate. The
    /// request does not wait for association; polls follow.
    pub fn connect(&mut self, ok: bool) -> (r: Result<(), CoreError>)
        requires
            old(self)@.state is Starting,
        ensures
            link_wf(final(self)@),
            final(self)@.max_polls == old(self)@.max_polls,
            final(self)@.started == old(self)@.started,
            final(self)@.polls == 0,
            ok ==> r is Ok && final(self)@.state is Associating && final(self)@.connect_requested,
            !ok ==> r == Err::<(), CoreError>(CoreError::LinkStartError)
                && final(self)@.state == LinkState::Failed(LinkFailure::ConnectFailed)
                && final(self)@.connect_requested == old(self)@.connect_requested,
    {
        proof {
            use_type_invariant(&*self);
        }
        if ok {
            *self = LinkConnector {
                state: LinkState::Associating,
                connect_requested: true,
                polls: 0,
                ..*self
            };
            Ok(())
        } else {
            *self = LinkConnector {
                state: LinkState::Failed(LinkFailure::ConnectFailed),
                polls: 0,
                ..*self
            };
            Err(CoreError::LinkStartError)
        }
    }

    /// Records one poll of the radio: `associated` is whether association
    /// has completed. Returns `Ok(true)` once connected, `Ok(false)` while
    /// the wait goes on, and `LinkTimeout` at the poll that reaches the
    /// bound.
    pub fn poll_connected(&mut self, associated: bool) -> (r: Result<bool, CoreError>)
        requires
            old(self)@.state is Associating,
        ensures
            link_wf(final(self)@),
            final(self)@.max_polls == old(self)@.max_polls,
            final(self)@.started == old(self)@.started,
            final(self)@.connect_requested == old(self)@.connect_requested,
            associated ==> r == Ok::<bool, CoreError>(true) && final(self)@.state is Connected
                && final(self)@.polls == old(self)@.polls,
            !associated ==> final(self)@.polls == old(self)@.polls + 1,
            !associated && old(self)@.polls + 1 < old(self)@.max_polls ==> r == Ok::<bool, CoreError>(false)
                && final(self)@.state is Associating,
            !associated && old(self)@.polls + 1 >= old(self)@.max_polls ==> r == Err::<bool, CoreError>(CoreError::LinkTimeout)
                && final(self)@.state == LinkState::Failed(LinkFailure::Timeout),
            r == Ok::<bool, CoreError>(true) ==> final(self)@.started && final(self)@.connect_requested,
    {
        proof {
            use_type_invariant(&*self);
        }
        if associated {
            self.state = LinkState::Connected;
            Ok(true)
        } else {
            let polls = self.polls + 1;
            if polls >= self.max_polls {
                *self = LinkConnector { state: LinkState::Failed(LinkFailure::Timeout), polls, ..*self };
                Err(CoreError::LinkTimeout)
            } else {
                *self = LinkConnector { polls, ..*self };
                Ok(false)
            }
        }
    }

    /// Whether the link is associated. It never is before association was
    /// requested after a successful start.
    pub fn is_connected(&self) -> (r: bool)
        ensures
            r == self@.state is Connected,
            r ==> self@.started && self@.connect_requested,
    {
        proof {
            use_type_invariant(self);
        }
        match self.state {
            LinkState::Connected => true,
            _ => false,
        }
    }
}

} // verus!
