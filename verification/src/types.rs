//! Sessions: an app running on a receiver, and a media session within such an app.

use crate::message::EndpointId;
use crate::payload::media::MediaSessionId;
use crate::payload::receiver::AppSessionId;
use vstd::prelude::*;

verus! {

/// An app session on a receiver: where to send messages for the app, and
/// which receiver and session it belongs to.
#[derive(Clone, Debug)]
pub struct AppSession {
    pub app_destination_id: EndpointId,
    pub receiver_destination_id: EndpointId,
    pub app_session_id: AppSessionId,
}

/// A media session within an app session.
#[derive(Clone, Debug)]
pub struct MediaSession {
    pub app_session: AppSession,
    pub media_session_id: MediaSessionId,
}

impl MediaSession {
    pub fn app_destination_id(&self) -> (r: &EndpointId)
        ensures
            *r == self.app_session.app_destination_id,
    {
        &self.app_session.app_destination_id
    }

    pub fn receiver_destination_id(&self) -> (r: &EndpointId)
        ensures
            *r == self.app_session.receiver_destination_id,
    {
        &self.app_session.receiver_destination_id
    }

    pub fn app_session_id(&self) -> (r: &AppSessionId)
        ensures
            *r == self.app_session.app_session_id,
    {
        &self.app_session.app_session_id
    }
}

} // verus!
