//! Messages and types for the receiver namespace: the platform receiver that
//! launches and stops apps and reports the device's status.

use crate::message::{EndpointId, Namespace};
use crate::payload::{MessageType, RequestInner};
use crate::types::AppSession;
use vstd::prelude::*;
use vstd::string::*;

verus! {

pub const CHANNEL_NAMESPACE: &'static str = "urn:x-cast:com.google.cast.receiver";

pub const MESSAGE_REQUEST_TYPE_LAUNCH: &'static str = "LAUNCH";

pub const MESSAGE_REQUEST_TYPE_STOP: &'static str = "STOP";

pub const MESSAGE_REQUEST_TYPE_GET_STATUS: &'static str = "GET_STATUS";

pub const MESSAGE_REQUEST_TYPE_SET_VOLUME: &'static str = "SET_VOLUME";

pub const MESSAGE_RESPONSE_TYPE_RECEIVER_STATUS: &'static str = "RECEIVER_STATUS";

pub const MESSAGE_RESPONSE_TYPE_LAUNCH_ERROR: &'static str = "LAUNCH_ERROR";

pub const MESSAGE_RESPONSE_TYPE_INVALID_REQUEST: &'static str = "INVALID_REQUEST";

/// The id of a receiver app.
#[derive(Clone, Debug, PartialEq, Eq)]
pub struct AppId(pub String);

impl View for AppId {
    type V = Seq<char>;

    open spec fn view(&self) -> Seq<char> {
        self.0@
    }
}

/// Well known cast receiver app ids.
impl AppId {
    pub const DEFAULT_MEDIA_RECEIVER: &'static str = "CC1AD845";

    pub const BACKDROP: &'static str = "E8C28D3C";

    pub const NETFLIX: &'static str = "CA5E8412";

    pub const SPOTIFY: &'static str = "CC32E753";

    pub const TWITCH: &'static str = "B3DCF968";

    pub const YOUTUBE: &'static str = "233637DE";
}

impl AppId {
    pub fn as_str(&self) -> (r: &str)
        ensures
            r@ == self@,
    {
        self.0.as_str()
    }

    pub fn from_const(s: &'static str) -> (r: AppId)
        ensures
            r@ == s@,
    {
        AppId(String::from_str(s))
    }

    pub fn to_string(&self) -> (r: String)
        ensures
            r@ == self@,
    {
        self.0.clone()
    }

    /// Whether two app ids are the same.
    pub fn same_as(&self, other: &AppId) -> (r: bool)
        ensures
            r == (self@ == other@),
    {
        self.0 == other.0
    }
}

impl From<String> for AppId {
    fn from(s: String) -> (r: AppId) {
        AppId(s)
    }
}

impl vstd::std_specs::convert::FromSpecImpl<String> for AppId {
    open spec fn obeys_from_spec() -> bool {
        true
    }

    open spec fn from_spec(s: String) -> AppId {
        AppId(s)
    }
}

impl From<AppId> for String {
    fn from(id: AppId) -> (r: String) {
        id.0
    }
}

impl vstd::std_specs::convert::FromSpecImpl<AppId> for String {
    open spec fn obeys_from_spec() -> bool {
        true
    }

    open spec fn from_spec(id: AppId) -> String {
        id.0
    }
}

/// The id of a session of an app running on a receiver.
#[derive(Clone, Debug, PartialEq, Eq, PartialOrd, Ord)]
pub struct AppSessionId(pub String);

impl View for AppSessionId {
    type V = Seq<char>;

    open spec fn view(&self) -> Seq<char> {
        self.0@
    }
}

/// A namespace an app speaks.
#[derive(Clone, Debug, PartialEq, Eq)]
pub struct AppNamespace {
    pub name: Namespace,
}

/// An app running on a receiver, as the receiver's status reports it.
#[derive(Clone, Debug)]
pub struct Application {
    pub app_id: AppId,
    pub app_session_id: AppSessionId,
    pub transport_id: EndpointId,
    pub namespaces: Vec<AppNamespace>,
    pub display_name: String,
    pub status_text: String,
    pub app_type: String,
    pub icon_url: String,
    pub is_idle_screen: bool,
    pub launched_from_cloud: bool,
    pub universal_app_id: String,
}

/// Whether an app speaks the namespace `ns`.
pub open spec fn spec_has_namespace(app: Application, ns: Seq<char>) -> bool {
    exists|i: int| 0 <= i < app.namespaces@.len() && (#[trigger] app.namespaces@[i]).name@ == ns
}

impl Application {
    /// Whether this app speaks the namespace `ns`.
    pub fn has_namespace(&self, ns: &Namespace) -> (r: bool)
        ensures
            r == spec_has_namespace(*self, ns@),
    {
        let mut i: usize = 0;
        while i < self.namespaces.len()
            invariant
                i <= self.namespaces@.len(),
                forall|k: int| 0 <= k < i ==> (#[trigger] self.namespaces@[k]).name@ != ns@,
            decreases self.namespaces@.len() - i,
        {
            if self.namespaces[i].name.same_as(ns) {
                return true;
            }
            i = i + 1;
        }
        false
    }

    /// The session of this app, reached through the receiver `receiver_destination_id`.
    pub fn to_app_session(&self, receiver_destination_id: EndpointId) -> (r: Result<
        AppSession,
        anyhow::Error,
    >)
        ensures
            r is Ok,
            r matches Ok(s) && s.receiver_destination_id == receiver_destination_id
                && s.app_destination_id@ == self.transport_id@ && s.app_session_id@
                == self.app_session_id@,
    {
        Ok(
            AppSession {
                receiver_destination_id,
                app_destination_id: self.transport_id.duplicate(),
                app_session_id: AppSessionId(self.app_session_id.0.clone()),
            },
        )
    }
}

/// The apps among `apps` that speak the namespace `ns`, in their order.
pub fn applications_with_namespace<'a>(apps: &'a Vec<Application>, ns: &Namespace) -> (r: Vec<
    &'a Application,
>)
    ensures
        r@.map_values(|a: &Application| *a) == apps@.filter(
            |a: Application| spec_has_namespace(a, ns@),
        ),
{
    let ghost pred = |a: Application| spec_has_namespace(a, ns@);
    let mut found: Vec<&Application> = Vec::new();
    let mut i: usize = 0;
    proof {
        reveal(Seq::filter);
        assert(apps@.take(0) =~= Seq::<Application>::empty());
    }
    while i < apps.len()
        invariant
            i <= apps@.len(),
            pred == (|a: Application| spec_has_namespace(a, ns@)),
            found@.map_values(|a: &Application| *a) == apps@.take(i as int).filter(pred),
        decreases apps@.len() - i,
    {
        let app = &apps[i];
        let ghost prev = found@.map_values(|a: &Application| *a);
        proof {
            reveal(Seq::filter);
            assert(apps@.take(i + 1).drop_last() =~= apps@.take(i as int));
            assert(apps@.take(i + 1).last() == apps@[i as int]);
        }
        if app.has_namespace(ns) {
            found.push(app);
            proof {
                assert(found@.map_values(|a: &Application| *a) =~= prev.push(*app));
            }
        }
        i = i + 1;
    }
    proof {
        assert(apps@.take(apps@.len() as int) =~= apps@);
    }
    found
}

/// The first of `apps` that speaks the namespace `ns`, if any does.
pub fn find_app_with_namespace<'a>(apps: &'a Vec<Application>, ns: &Namespace) -> (r: Option<
    &'a Application,
>)
    ensures
        r is None <==> forall|i: int|
            0 <= i < apps@.len() ==> !spec_has_namespace(#[trigger] apps@[i], ns@),
        r is Some ==> exists|i: int|
            0 <= i < apps@.len() && *r.unwrap() == #[trigger] apps@[i] && spec_has_namespace(
                apps@[i],
                ns@,
            ) && forall|j: int| 0 <= j < i ==> !spec_has_namespace(#[trigger] apps@[j], ns@),
{
    let mut i: usize = 0;
    while i < apps.len()
        invariant
            i <= apps@.len(),
            forall|j: int| 0 <= j < i ==> !spec_has_namespace(#[trigger] apps@[j], ns@),
        decreases apps@.len() - i,
    {
        if apps[i].has_namespace(ns) {
            return Some(&apps[i]);
        }
        i = i + 1;
    }
    None
}

/// The first of `apps` with the app id `app_id`, if any has it.
pub fn find_app_by_id<'a>(apps: &'a Vec<Application>, app_id: &AppId) -> (r: Option<
    &'a Application,
>)
    ensures
        r is None <==> forall|i: int|
            0 <= i < apps@.len() ==> (#[trigger] apps@[i]).app_id@ != app_id@,
        r is Some ==> exists|i: int|
            0 <= i < apps@.len() && *r.unwrap() == #[trigger] apps@[i] && apps@[i].app_id@
                == app_id@ && forall|j: int| 0 <= j < i ==> (#[trigger] apps@[j]).app_id@ != app_id@,
{
    let mut i: usize = 0;
    while i < apps.len()
        invariant
            i <= apps@.len(),
            forall|j: int| 0 <= j < i ==> (#[trigger] apps@[j]).app_id@ != app_id@,
        decreases apps@.len() - i,
    {
        if apps[i].app_id.same_as(app_id) {
            return Some(&apps[i]);
        }
        i = i + 1;
    }
    None
}

/// Asks the receiver for its status.
#[derive(Debug)]
pub struct GetStatusRequest {}

impl RequestInner for GetStatusRequest {
    open spec fn spec_channel_namespace() -> Seq<char> {
        CHANNEL_NAMESPACE@
    }

    open spec fn spec_message_type() -> Seq<char> {
        MESSAGE_REQUEST_TYPE_GET_STATUS@
    }

    fn channel_namespace() -> Namespace {
        Namespace::from_const(CHANNEL_NAMESPACE)
    }

    fn message_type() -> MessageType {
        MessageType::from_const(MESSAGE_REQUEST_TYPE_GET_STATUS)
    }
}

/// Asks the receiver to launch an app.
#[derive(Debug)]
pub struct LaunchRequest {
    pub app_id: AppId,
}

impl RequestInner for LaunchRequest {
    open spec fn spec_channel_namespace() -> Seq<char> {
        CHANNEL_NAMESPACE@
    }

    open spec fn spec_message_type() -> Seq<char> {
        MESSAGE_REQUEST_TYPE_LAUNCH@
    }

    fn channel_namespace() -> Namespace {
        Namespace::from_const(CHANNEL_NAMESPACE)
    }

    fn message_type() -> MessageType {
        MessageType::from_const(MESSAGE_REQUEST_TYPE_LAUNCH)
    }
}

/// Asks the receiver to stop an app session.
#[derive(Debug)]
pub struct StopRequest {
    pub app_session_id: AppSessionId,
}

impl RequestInner for StopRequest {
    open spec fn spec_channel_namespace() -> Seq<char> {
        CHANNEL_NAMESPACE@
    }

    open spec fn spec_message_type() -> Seq<char> {
        MESSAGE_REQUEST_TYPE_STOP@
    }

    fn channel_namespace() -> Namespace {
        Namespace::from_const(CHANNEL_NAMESPACE)
    }

    fn message_type() -> MessageType {
        MessageType::from_const(MESSAGE_REQUEST_TYPE_STOP)
    }
}

} // verus!
