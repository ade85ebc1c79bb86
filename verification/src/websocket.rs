//! The request/response discipline of a connection to the conductor, and
//! the two interfaces built on it.
//!
//! Nothing here touches a socket. A channel records in which phase its
//! connection is; the caller performs the transport work and reports each
//! outcome. One request may be unanswered at a time, and a connection that
//! has failed or dropped stays unusable.

use crate::application::{ApplicationDescriptor, CellHandle, StatusKind};
use crate::error::{ConnectionCause, Error, ResponseKind};
use crate::retry::{ConnectStep, Connecting, RetryPolicy};
use crate::text::{decimal, push_decimal, push_str, string_of};
use vstd::prelude::*;

verus! {

/// The phase of a connection.
#[derive(Clone, Copy, Debug, PartialEq, Eq, Structural)]
pub enum Phase {
    /// Attempts to connect are under way.
    Connecting,
    /// The connection is established and no request is unanswered.
    Open,
    /// A request has been sent and its response has not arrived.
    Awaiting,
    /// The connection could not be established: the attempts are used up.
    Failed,
    /// The connection was established and has dropped.
    Dropped,
}

/// The address of the conductor's interface on `port`.
pub open spec fn connection_url(port: u16) -> Seq<char> {
    "ws://localhost:"@ + decimal(port as nat) + "/"@
}

/// One connection to a local conductor interface.
#[derive(Debug)]
pub struct ConductorChannel {
    port: u16,
    connecting: Connecting,
    phase: Phase,
}

impl ConductorChannel {
    /// The port of the interface.
    pub closed spec fn port(&self) -> u16 {
        self.port
    }

    /// The phase of the connection.
    pub closed spec fn phase(&self) -> Phase {
        self.phase
    }

    /// The retry policy under which the connection is established.
    pub closed spec fn policy(&self) -> RetryPolicy {
        self.connecting.policy()
    }

    /// The number of failed attempts to connect.
    pub closed spec fn failures(&self) -> nat {
        self.connecting.failures()
    }

    /// Why the channel refuses what its phase does not allow: it is not
    /// connected yet, it awaits a response, it awaits nothing, its attempts
    /// were used up, or it has dropped.
    pub open spec fn refusal(&self) -> ConnectionCause {
        match self.phase() {
            Phase::Connecting => ConnectionCause::NotConnected,
            Phase::Open => ConnectionCause::Unawaited,
            Phase::Awaiting => ConnectionCause::Busy,
            Phase::Failed => ConnectionCause::RetriesExhausted {
                attempts: self.policy().max_attempts,
            },
            Phase::Dropped => ConnectionCause::Dropped,
        }
    }

    /// Why the channel refuses what its phase does not allow.
    fn refuse(&self) -> (cause: ConnectionCause)
        ensures
            cause == self.refusal(),
    {
        match self.phase {
            Phase::Connecting => ConnectionCause::NotConnected,
            Phase::Open => ConnectionCause::Unawaited,
            Phase::Awaiting => ConnectionCause::Busy,
            Phase::Failed => ConnectionCause::RetriesExhausted {
                attempts: self.connecting.max_attempts(),
            },
            Phase::Dropped => ConnectionCause::Dropped,
        }
    }

    /// The phase in which connecting under `policy` is after `failures`
    /// failed attempts and no success.
    pub open spec fn phase_after(policy: RetryPolicy, failures: nat) -> Phase {
        if failures >= policy.max_attempts {
            Phase::Failed
        } else {
            Phase::Connecting
        }
    }

    /// Begins to connect to the interface on `port`. The step returned is
    /// the first attempt, or to give up where the policy allows no attempt.
    pub fn connect(port: u16, policy: RetryPolicy) -> (out: (ConductorChannel, ConnectStep))
        ensures
            out.0.port() == port,
            out.0.policy() == policy,
            out.0.failures() == 0,
            out.0.phase() == Self::phase_after(policy, 0),
            out.1 == policy.step_after(0),
    {
        let connecting = Connecting::new(policy);
        let step = connecting.step();
        let phase = match step {
            ConnectStep::Attempt { .. } => Phase::Connecting,
            ConnectStep::GiveUp { .. } => Phase::Failed,
        };
        (ConductorChannel { port, connecting, phase }, step)
    }

    /// The address to connect to: `ws://localhost:`, the port in decimal, `/`.
    pub fn url(&self) -> (out: String)
        ensures
            out@ == connection_url(self.port()),
    {
        let mut out: Vec<char> = Vec::new();
        push_str("ws://localhost:", &mut out);
        push_decimal(self.port as u64, &mut out);
        push_str("/", &mut out);
        assert(out@ =~= connection_url(self.port));
        string_of(&out)
    }

    /// Records that an attempt to connect has succeeded. Only a channel
    /// that is connecting becomes open.
    pub fn established(&mut self)
        ensures
            final(self).port() == old(self).port(),
            final(self).policy() == old(self).policy(),
            final(self).failures() == old(self).failures(),
            final(self).phase() == if old(self).phase() == Phase::Connecting {
                Phase::Open
            } else {
                old(self).phase()
            },
    {
        if self.phase == Phase::Connecting {
            self.phase = Phase::Open;
        }
    }

    /// Records that an attempt to connect has failed, and says what to do
    /// next. Once the policy's attempts are used up the channel has failed
    /// and the step is to give up with a connection error. On a channel
    /// that is not connecting nothing changes, and the step is to give up
    /// with the channel's refusal.
    pub fn attempt_failed(&mut self) -> (step: ConnectStep)
        ensures
            final(self).port() == old(self).port(),
            final(self).policy() == old(self).policy(),
            old(self).phase() == Phase::Connecting ==> {
                &&& final(self).failures() == if old(self).failures() < old(self).policy().max_attempts {
                    old(self).failures() + 1
                } else {
                    old(self).failures()
                }
                &&& final(self).phase() == Self::phase_after(
                    final(self).policy(),
                    final(self).failures(),
                )
                &&& step == final(self).policy().step_after(final(self).failures())
            },
            old(self).phase() != Phase::Connecting ==> {
                &&& final(self).failures() == old(self).failures()
                &&& final(self).phase() == old(self).phase()
                &&& step == (ConnectStep::GiveUp {
                    error: Error::Connection { cause: old(self).refusal() },
                })
            },
    {
        if self.phase == Phase::Connecting {
            let step = self.connecting.attempt_failed();
            match step {
                ConnectStep::Attempt { .. } => {},
                ConnectStep::GiveUp { .. } => {
                    self.phase = Phase::Failed;
                },
            }
            step
        } else {
            ConnectStep::GiveUp { error: Error::Connection { cause: self.refuse() } }
        }
    }

    /// Claims the channel for one request. An open channel awaits the
    /// response from now on; any other channel refuses and stays as it is.
    pub fn begin_request(&mut self) -> (out: Result<(), Error>)
        ensures
            final(self).port() == old(self).port(),
            final(self).policy() == old(self).policy(),
            final(self).failures() == old(self).failures(),
            old(self).phase() == Phase::Open ==> out is Ok && final(self).phase()
                == Phase::Awaiting,
            old(self).phase() != Phase::Open ==> final(self).phase() == old(self).phase() && out
                == Err::<(), Error>(Error::Connection { cause: old(self).refusal() }),
    {
        if self.phase == Phase::Open {
            self.phase = Phase::Awaiting;
            Ok(())
        } else {
            Err(Error::Connection { cause: self.refuse() })
        }
    }

    /// Records how the transport ended the request that the channel awaits:
    /// `delivered` says whether a response arrived. With a response the
    /// channel is open again; without one it has dropped. A channel that
    /// awaits nothing refuses and stays as it is.
    pub fn end_request(&mut self, delivered: bool) -> (out: Result<(), Error>)
        ensures
            final(self).port() == old(self).port(),
            final(self).policy() == old(self).policy(),
            final(self).failures() == old(self).failures(),
            old(self).phase() == Phase::Awaiting && delivered ==> out is Ok && final(self).phase()
                == Phase::Open,
            old(self).phase() == Phase::Awaiting && !delivered ==> final(self).phase()
                == Phase::Dropped && out == Err::<(), Error>(
                Error::Connection { cause: ConnectionCause::Dropped },
            ),
            old(self).phase() != Phase::Awaiting ==> final(self).phase() == old(self).phase()
                && out == Err::<(), Error>(
                Error::Connection { cause: old(self).refusal() },
            ),
    {
        if self.phase == Phase::Awaiting {
            if delivered {
                self.phase = Phase::Open;
                Ok(())
            } else {
                self.phase = Phase::Dropped;
                Err(Error::Connection { cause: ConnectionCause::Dropped })
            }
        } else {
            Err(Error::Connection { cause: self.refuse() })
        }
    }
}

/// A request on the administrative interface.
#[derive(Debug, PartialEq, Eq)]
pub enum AdminRequest {
    /// List the installed applications, all of them or those whose status
    /// is of the given kind.
    ListApps { status_filter: Option<StatusKind> },
}

/// A response on the administrative interface.
#[derive(Debug, PartialEq, Eq)]
pub enum AdminResponse {
    /// The installed applications, in the remote's order.
    AppsListed(Vec<ApplicationDescriptor>),
    /// The remote rejects the request.
    Error(String),
    /// A response of another kind.
    Other,
}

/// One invocation of a function of an application's cell.
#[derive(Debug, PartialEq, Eq)]
pub struct ZomeCall {
    pub cell: CellHandle,
    pub zome_name: String,
    pub fn_name: String,
    pub payload: Vec<u8>,
    pub cap_secret: Option<Vec<u8>>,
    pub provenance: Vec<u8>,
}

/// A request on the application interface.
#[derive(Debug, PartialEq, Eq)]
pub enum AppRequest {
    /// Describe the application with this identifier.
    AppInfo { installed_app_id: String },
    /// Invoke a function.
    ZomeCall(ZomeCall),
}

/// A response on the application interface.
#[derive(Debug, PartialEq, Eq)]
pub enum AppResponse {
    /// The application's descriptor, or `None` where it is not installed.
    AppInfo(Option<ApplicationDescriptor>),
    /// The bytes that the invoked function returned.
    ZomeCall(Vec<u8>),
    /// The remote rejects the request.
    Error(String),
    /// A response of another kind.
    Other,
}

impl AdminResponse {
    /// The discriminant of the response.
    pub open spec fn spec_kind(&self) -> ResponseKind {
        match self {
            AdminResponse::AppsListed(_) => ResponseKind::AppsListed,
            AdminResponse::Error(_) => ResponseKind::Error,
            AdminResponse::Other => ResponseKind::Other,
        }
    }

    /// The discriminant of the response.
    #[verifier::when_used_as_spec(spec_kind)]
    pub fn kind(&self) -> (kind: ResponseKind)
        ensures
            kind == self.spec_kind(),
    {
        match self {
            AdminResponse::AppsListed(_) => ResponseKind::AppsListed,
            AdminResponse::Error(_) => ResponseKind::Error,
            AdminResponse::Other => ResponseKind::Other,
        }
    }
}

impl AppResponse {
    /// The discriminant of the response.
    pub open spec fn spec_kind(&self) -> ResponseKind {
        match self {
            AppResponse::AppInfo(_) => ResponseKind::AppInfo,
            AppResponse::ZomeCall(_) => ResponseKind::ZomeCall,
            AppResponse::Error(_) => ResponseKind::Error,
            AppResponse::Other => ResponseKind::Other,
        }
    }

    /// The discriminant of the response.
    #[verifier::when_used_as_spec(spec_kind)]
    pub fn kind(&self) -> (kind: ResponseKind)
        ensures
            kind == self.spec_kind(),
    {
        match self {
            AppResponse::AppInfo(_) => ResponseKind::AppInfo,
            AppResponse::ZomeCall(_) => ResponseKind::ZomeCall,
            AppResponse::Error(_) => ResponseKind::Error,
            AppResponse::Other => ResponseKind::Other,
        }
    }
}

/// What a listing request yields for a response: the applications of
/// `AppsListed`, a protocol error for the remote's `Error`, and an
/// unexpected-response error for anything else.
pub open spec fn apps_of(response: AdminResponse) -> Result<Vec<ApplicationDescriptor>, Error> {
    match response {
        AdminResponse::AppsListed(apps) => Ok(apps),
        AdminResponse::Error(details) => Err(Error::Protocol { details }),
        AdminResponse::Other => Err(Error::UnexpectedResponse { got: ResponseKind::Other }),
    }
}

/// What a request for an application's descriptor yields for a response.
pub open spec fn app_info_of(response: AppResponse) -> Result<Option<ApplicationDescriptor>, Error> {
    match response {
        AppResponse::AppInfo(info) => Ok(info),
        AppResponse::Error(details) => Err(Error::Protocol { details }),
        AppResponse::ZomeCall(_) => Err(Error::UnexpectedResponse { got: ResponseKind::ZomeCall }),
        AppResponse::Other => Err(Error::UnexpectedResponse { got: ResponseKind::Other }),
    }
}

/// What a function invocation yields for a response.
pub open spec fn zome_result_of(response: AppResponse) -> Result<Vec<u8>, Error> {
    match response {
        AppResponse::ZomeCall(bytes) => Ok(bytes),
        AppResponse::Error(details) => Err(Error::Protocol { details }),
        AppResponse::AppInfo(_) => Err(Error::UnexpectedResponse { got: ResponseKind::AppInfo }),
        AppResponse::Other => Err(Error::UnexpectedResponse { got: ResponseKind::Other }),
    }
}

/// The client side of the conductor's administrative interface.
#[derive(Debug)]
pub struct AdminWebsocket {
    pub channel: ConductorChannel,
}

impl AdminWebsocket {
    /// Begins to connect to the administrative interface on `admin_port`.
    pub fn connect(admin_port: u16, policy: RetryPolicy) -> (out: (AdminWebsocket, ConnectStep))
        ensures
            out.0.channel.port() == admin_port,
            out.0.channel.policy() == policy,
            out.0.channel.failures() == 0,
            out.0.channel.phase() == ConductorChannel::phase_after(policy, 0),
            out.1 == policy.step_after(0),
    {
        let (channel, step) = ConductorChannel::connect(admin_port, policy);
        (AdminWebsocket { channel }, step)
    }

    /// The request that lists the installed applications, all of them or
    /// those of one kind of status. The channel must be open; it then
    /// awaits the response. Otherwise the request is refused with a
    /// connection error and the channel stays as it is.
    pub fn list_apps(&mut self, status_filter: Option<StatusKind>) -> (out: Result<
        AdminRequest,
        Error,
    >)
        ensures
            final(self).channel.port() == old(self).channel.port(),
            final(self).channel.policy() == old(self).channel.policy(),
            final(self).channel.failures() == old(self).channel.failures(),
            old(self).channel.phase() == Phase::Open ==> final(self).channel.phase()
                == Phase::Awaiting && out == Ok::<AdminRequest, Error>(
                AdminRequest::ListApps { status_filter },
            ),
            old(self).channel.phase() != Phase::Open ==> final(self).channel.phase() == old(
                self,
            ).channel.phase() && out == Err::<AdminRequest, Error>(
                Error::Connection { cause: old(self).channel.refusal() },
            ),
    {
        match self.channel.begin_request() {
            Ok(()) => Ok(AdminRequest::ListApps { status_filter }),
            Err(e) => Err(e),
        }
    }

    /// Takes the outcome of the listing request that the channel awaits:
    /// the response, or `None` where the transport failed. Returns the
    /// applications in the remote's order, or the error that the response
    /// stands for. Without a response the connection has dropped.
    pub fn apps_listed(&mut self, reply: Option<AdminResponse>) -> (out: Result<
        Vec<ApplicationDescriptor>,
        Error,
    >)
        ensures
            final(self).channel.port() == old(self).channel.port(),
            final(self).channel.policy() == old(self).channel.policy(),
            final(self).channel.failures() == old(self).channel.failures(),
            old(self).channel.phase() == Phase::Awaiting ==> match reply {
                Some(response) => final(self).channel.phase() == Phase::Open && out == apps_of(
                    response,
                ),
                None => final(self).channel.phase() == Phase::Dropped && out == Err::<
                    Vec<ApplicationDescriptor>,
                    Error,
                >(Error::Connection { cause: ConnectionCause::Dropped }),
            },
            old(self).channel.phase() != Phase::Awaiting ==> final(self).channel.phase() == old(
                self,
            ).channel.phase() && out == Err::<Vec<ApplicationDescriptor>, Error>(
                Error::Connection { cause: old(self).channel.refusal() },
            ),
    {
        match self.channel.end_request(reply.is_some()) {
            Ok(()) => {},
            Err(e) => {
                return Err(e);
            },
        }
        match reply {
            Some(AdminResponse::AppsListed(apps)) => Ok(apps),
            Some(AdminResponse::Error(details)) => Err(Error::Protocol { details }),
            Some(AdminResponse::Other) => Err(
                Error::UnexpectedResponse { got: ResponseKind::Other },
            ),
            None => Err(Error::Connection { cause: ConnectionCause::Dropped }),
        }
    }
}

/// The client side of the conductor's application interface.
#[derive(Debug)]
pub struct AppWebsocket {
    pub channel: ConductorChannel,
}

impl AppWebsocket {
    /// Begins to connect to the application interface on `app_port`.
    pub fn connect(app_port: u16, policy: RetryPolicy) -> (out: (AppWebsocket, ConnectStep))
        ensures
            out.0.channel.port() == app_port,
            out.0.channel.policy() == policy,
            out.0.channel.failures() == 0,
            out.0.channel.phase() == ConductorChannel::phase_after(policy, 0),
            out.1 == policy.step_after(0),
    {
        let (channel, step) = ConductorChannel::connect(app_port, policy);
        (AppWebsocket { channel }, step)
    }

    /// The request for the descriptor of the application `installed_app_id`.
    /// The channel must be open; it then awaits the response.
    pub fn get_app_info(&mut self, installed_app_id: String) -> (out: Result<AppRequest, Error>)
        ensures
            final(self).channel.port() == old(self).channel.port(),
            final(self).channel.policy() == old(self).channel.policy(),
            final(self).channel.failures() == old(self).channel.failures(),
            old(self).channel.phase() == Phase::Open ==> final(self).channel.phase()
                == Phase::Awaiting && out == Ok::<AppRequest, Error>(
                AppRequest::AppInfo { installed_app_id },
            ),
            old(self).channel.phase() != Phase::Open ==> final(self).channel.phase() == old(
                self,
            ).channel.phase() && out == Err::<AppRequest, Error>(
                Error::Connection { cause: old(self).channel.refusal() },
            ),
    {
        match self.channel.begin_request() {
            Ok(()) => Ok(AppRequest::AppInfo { installed_app_id }),
            Err(e) => Err(e),
        }
    }

    /// Takes the outcome of the descriptor request that the channel awaits.
    /// `Ok(None)` says that the application is not installed, which is no
    /// error.
    pub fn app_info(&mut self, reply: Option<AppResponse>) -> (out: Result<
        Option<ApplicationDescriptor>,
        Error,
    >)
        ensures
            final(self).channel.port() == old(self).channel.port(),
            final(self).channel.policy() == old(self).channel.policy(),
            final(self).channel.failures() == old(self).channel.failures(),
            old(self).channel.phase() == Phase::Awaiting ==> match reply {
                Some(response) => final(self).channel.phase() == Phase::Open && out
                    == app_info_of(response),
                None => final(self).channel.phase() == Phase::Dropped && out == Err::<
                    Option<ApplicationDescriptor>,
                    Error,
                >(Error::Connection { cause: ConnectionCause::Dropped }),
            },
            old(self).channel.phase() != Phase::Awaiting ==> final(self).channel.phase() == old(
                self,
            ).channel.phase() && out == Err::<Option<ApplicationDescriptor>, Error>(
                Error::Connection { cause: old(self).channel.refusal() },
            ),
    {
        match self.channel.end_request(reply.is_some()) {
            Ok(()) => {},
            Err(e) => {
                return Err(e);
            },
        }
        match reply {
            Some(AppResponse::AppInfo(info)) => Ok(info),
            Some(AppResponse::Error(details)) => Err(Error::Protocol { details }),
            Some(AppResponse::ZomeCall(_)) => Err(
                Error::UnexpectedResponse { got: ResponseKind::ZomeCall },
            ),
            Some(AppResponse::Other) => Err(Error::UnexpectedResponse { got: ResponseKind::Other }),
            None => Err(Error::Connection { cause: ConnectionCause::Dropped }),
        }
    }

    /// The request that invokes one function. The channel must be open; it
    /// then awaits the response.
    pub fn zome_call(&mut self, call: ZomeCall) -> (out: Result<AppRequest, Error>)
        ensures
            final(self).channel.port() == old(self).channel.port(),
            final(self).channel.policy() == old(self).channel.policy(),
            final(self).channel.failures() == old(self).channel.failures(),
            old(self).channel.phase() == Phase::Open ==> final(self).channel.phase()
                == Phase::Awaiting && out == Ok::<AppRequest, Error>(AppRequest::ZomeCall(call)),
            old(self).channel.phase() != Phase::Open ==> final(self).channel.phase() == old(
                self,
            ).channel.phase() && out == Err::<AppRequest, Error>(
                Error::Connection { cause: old(self).channel.refusal() },
            ),
    {
        match self.channel.begin_request() {
            Ok(()) => Ok(AppRequest::ZomeCall(call)),
            Err(e) => Err(e),
        }
    }

    /// Takes the outcome of the invocation that the channel awaits, and
    /// returns the bytes that the function returned.
    pub fn zome_called(&mut self, reply: Option<AppResponse>) -> (out: Result<Vec<u8>, Error>)
        ensures
            final(self).channel.port() == old(self).channel.port(),
            final(self).channel.policy() == old(self).channel.policy(),
            final(self).channel.failures() == old(self).channel.failures(),
            old(self).channel.phase() == Phase::Awaiting ==> match reply {
                Some(response) => final(self).channel.phase() == Phase::Open && out
                    == zome_result_of(response),
                None => final(self).channel.phase() == Phase::Dropped && out == Err::<
                    Vec<u8>,
                    Error,
                >(Error::Connection { cause: ConnectionCause::Dropped }),
            },
            old(self).channel.phase() != Phase::Awaiting ==> final(self).channel.phase() == old(
                self,
            ).channel.phase() && out == Err::<Vec<u8>, Error>(
                Error::Connection { cause: old(self).channel.refusal() },
            ),
    {
        match self.channel.end_request(reply.is_some()) {
            Ok(()) => {},
            Err(e) => {
                return Err(e);
            },
        }
        match reply {
            Some(AppResponse::ZomeCall(bytes)) => Ok(bytes),
            Some(AppResponse::Error(details)) => Err(Error::Protocol { details }),
            Some(AppResponse::AppInfo(_)) => Err(
                Error::UnexpectedResponse { got: ResponseKind::AppInfo },
            ),
            Some(AppResponse::Other) => Err(Error::UnexpectedResponse { got: ResponseKind::Other }),
            None => Err(Error::Connection { cause: ConnectionCause::Dropped }),
        }
    }
}

} // verus!
