//! The session mediator: the broker's screen-capture contract (create
//! session, select sources, start cast, close session), backed by the
//! session registry and the discovery outcome of the configured resolver
//! strategy.
//!
//! Handle tracking is deliberate: without it a stale or forged handle
//! could start or close a session that was never legitimately created.

use vstd::prelude::*;

use crate::error::CastError;
use crate::error::DiscoveryError;
use crate::error::SessionError;
use crate::registry::SessionRegistry;
use crate::registry::contains_handle;
use crate::registry::spec_close;
use crate::registry::spec_create;

verus! {

/// The source types a capture stream can expose.
#[derive(Clone, Copy, Debug, PartialEq, Eq, Structural)]
pub enum SourceType {
    Monitor,
    Window,
}

/// The static source-type capability advertisement.
#[derive(Clone, Copy, Debug, PartialEq, Eq, Structural)]
pub struct SourceTypeSet {
    pub monitor: bool,
    pub window: bool,
}

/// The static cursor-mode capability advertisement.
#[derive(Clone, Copy, Debug, PartialEq, Eq, Structural)]
pub struct CursorModeSet {
    pub hidden: bool,
    pub embedded: bool,
    pub metadata: bool,
}

/// One entry of the stream list a successful cast returns.  This backend
/// only ever reports a monitor stream and no cursor metadata.
#[derive(Clone, Copy, Debug, PartialEq, Eq, Structural)]
pub struct StreamDescriptor {
    pub node_id: u32,
    pub source_type: SourceType,
}

/// The screen-capture mediator.  Its state is the set of open sessions;
/// its view is that registry's handle sequence.
pub struct Screencast {
    sessions: SessionRegistry,
}

impl View for Screencast {
    type V = Seq<Seq<char>>;

    closed spec fn view(&self) -> Seq<Seq<char>> {
        self.sessions@
    }
}

impl Screencast {
    /// No handle is ever tracked twice.
    pub closed spec fn wf(&self) -> bool {
        self.sessions.wf()
    }

    /// A mediator with no open sessions.
    pub fn new() -> (r: Screencast)
        ensures
            r@ == Seq::<Seq<char>>::empty(),
            r.wf(),
    {
        Screencast { sessions: SessionRegistry::new() }
    }

    /// The advertised source types: monitor and window, always.
    pub fn available_source_types(&self) -> (r: SourceTypeSet)
        ensures
            r == (SourceTypeSet { monitor: true, window: true }),
    {
        SourceTypeSet { monitor: true, window: true }
    }

    /// The advertised cursor modes: hidden, embedded and metadata, always.
    pub fn available_cursor_mode(&self) -> (r: CursorModeSet)
        ensures
            r == (CursorModeSet { hidden: true, embedded: true, metadata: true }),
    {
        CursorModeSet { hidden: true, embedded: true, metadata: true }
    }

    /// Whether the handle names a currently open session.
    pub fn contains_session(&self, session_handle: &String) -> (r: bool)
        ensures
            r == contains_handle(self@, session_handle@),
    {
        self.sessions.contains(session_handle)
    }

    /// Opens a session for the handle; a handle that is already open is
    /// refused with AlreadyExists and nothing changes.
    pub fn create_session(&mut self, session_handle: String) -> (r: Result<(), SessionError>)
        requires
            old(self).wf(),
        ensures
            final(self).wf(),
            r == spec_create(old(self)@, session_handle@).0,
            final(self)@ == spec_create(old(self)@, session_handle@).1,
    {
        self.sessions.create(session_handle)
    }

    /// Source selection for an open session; a handle that is not open is
    /// refused with NotFound.  Caller-supplied selection is not yet acted
    /// on: the full default capability set is reported regardless of the
    /// request, a known simplification kept as such.
    pub fn select_sources(&self, session_handle: &String) -> (r: Result<
        (SourceTypeSet, CursorModeSet),
        SessionError,
    >)
        ensures
            !contains_handle(self@, session_handle@) ==> r == Err::<
                (SourceTypeSet, CursorModeSet),
                SessionError,
            >(SessionError::NotFound),
            contains_handle(self@, session_handle@) ==> r == Ok::<
                (SourceTypeSet, CursorModeSet),
                SessionError,
            >(
                (
                    SourceTypeSet { monitor: true, window: true },
                    CursorModeSet { hidden: true, embedded: true, metadata: true },
                ),
            ),
    {
        if self.sessions.contains(session_handle) {
            Ok(
                (
                    SourceTypeSet { monitor: true, window: true },
                    CursorModeSet { hidden: true, embedded: true, metadata: true },
                ),
            )
        } else {
            Err(SessionError::NotFound)
        }
    }

    /// Starts the cast for an open session, given the outcome the caller's
    /// resolver strategy discovered: a one-element monitor stream list for
    /// the discovered node, or the resolver's failure wrapped as the
    /// user-facing error.  A handle that is not open is refused with
    /// NotFound whatever the outcome.
    pub fn start_cast(&self, session_handle: &String, discovery: Result<u32, DiscoveryError>) -> (r:
        Result<Vec<StreamDescriptor>, CastError>)
        ensures
            !contains_handle(self@, session_handle@) ==> r == Err::<
                Vec<StreamDescriptor>,
                CastError,
            >(CastError::Session(SessionError::NotFound)),
            discovery matches Ok(node_id) ==> (contains_handle(self@, session_handle@) ==> (
            r matches Ok(streams) && streams@ == seq![
                (StreamDescriptor { node_id, source_type: SourceType::Monitor }),
            ])),
            discovery matches Err(e) ==> (contains_handle(self@, session_handle@) ==> r == Err::<
                Vec<StreamDescriptor>,
                CastError,
            >(CastError::StreamUnavailable(e))),
    {
        if !self.sessions.contains(session_handle) {
            return Err(CastError::Session(SessionError::NotFound));
        }
        match discovery {
            Ok(node_id) => {
                let mut streams: Vec<StreamDescriptor> = Vec::new();
                streams.push(StreamDescriptor { node_id, source_type: SourceType::Monitor });
                proof {
                    assert(streams@ =~= seq![
                        (StreamDescriptor { node_id, source_type: SourceType::Monitor }),
                    ]);
                }
                Ok(streams)
            },
            Err(e) => Err(CastError::StreamUnavailable(e)),
        }
    }

    /// Closes an open session, removing its handle from the registry; a
    /// handle that is not open is refused with NotFound and nothing
    /// changes.  A closed handle may later be created again.
    pub fn session_closed(&mut self, session_handle: &String) -> (r: Result<(), SessionError>)
        requires
            old(self).wf(),
        ensures
            final(self).wf(),
            r == spec_close(old(self)@, session_handle@).0,
            final(self)@ == spec_close(old(self)@, session_handle@).1,
    {
        self.sessions.close(session_handle)
    }
}

} // verus!
