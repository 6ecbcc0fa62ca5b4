//! The client's view of its login session.

use vstd::prelude::*;

use crate::oauth::SessionData;
use crate::text::copy_str;

verus! {

/// The client's login session: whether the user is authenticated, and who
/// they are.
pub struct SessionState {
    pub is_authenticated: bool,
    pub did: String,
    pub handle: String,
    pub pds_endpoint: String,
    pub access_token: String,
}

impl SessionState {
    /// Whether this is the logged-out session: not authenticated, every
    /// field empty.
    pub open spec fn is_empty_session(&self) -> bool {
        &&& !self.is_authenticated
        &&& self.did@.len() == 0
        &&& self.handle@.len() == 0
        &&& self.pds_endpoint@.len() == 0
        &&& self.access_token@.len() == 0
    }
}

impl Default for SessionState {
    fn default() -> (s: Self)
        ensures
            s.is_empty_session(),
    {
        SessionState {
            is_authenticated: false,
            did: String::new(),
            handle: String::new(),
            pds_endpoint: String::new(),
            access_token: String::new(),
        }
    }
}

/// Takes in the session data of a completed login: every field is set from
/// it and the session becomes authenticated.
pub fn apply_session_data(state: &mut SessionState, data: &SessionData)
    ensures
        final(state).is_authenticated,
        final(state).did@ == data.did@,
        final(state).handle@ == data.handle@,
        final(state).pds_endpoint@ == data.pds_endpoint@,
        final(state).access_token@ == data.access_token@,
{
    state.did = copy_str(data.did.as_str());
    state.handle = copy_str(data.handle.as_str());
    state.pds_endpoint = copy_str(data.pds_endpoint.as_str());
    state.access_token = copy_str(data.access_token.as_str());
    state.is_authenticated = true;
}

/// The session data that the client sends with its requests.
pub fn session_data_of(state: &SessionState) -> (data: SessionData)
    ensures
        data.did@ == state.did@,
        data.handle@ == state.handle@,
        data.pds_endpoint@ == state.pds_endpoint@,
        data.access_token@ == state.access_token@,
{
    SessionData {
        did: copy_str(state.did.as_str()),
        handle: copy_str(state.handle.as_str()),
        pds_endpoint: copy_str(state.pds_endpoint.as_str()),
        access_token: copy_str(state.access_token.as_str()),
    }
}

} // verus!
