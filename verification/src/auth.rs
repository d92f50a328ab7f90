//! Authentication helpers shared by the protocol handlers.

use crate::errors::AppError;
use crate::session::{spec_active, spec_claim_ok, Session, SessionState};
use crate::text::{is_blank, spec_is_blank};
use vstd::prelude::*;

verus! {

/// The `clientId` query parameter every non-health endpoint carries.
pub struct ClientIdParam {
    pub client_id: String,
}

/// Guards handlers that require an already claimed session: the client id
/// must be non-blank and the session active for this token and client.
pub fn require_active_session<S: Session>(session: &S, token: &str, client_id: &str) -> (r: Result<
    (),
    AppError,
>)
    ensures
        (r is Ok) == (!spec_is_blank(client_id@) && spec_active(
            session.spec_session_state(),
            session.spec_token(),
            token@,
            client_id@,
        )),
        r matches Err(e) ==> e is Unauthorized,
{
    if is_blank(client_id) {
        return Err(AppError::Unauthorized("Client ID cannot be empty".to_string()));
    }
    if !session.is_active(token, client_id) {
        return Err(AppError::Unauthorized("Invalid or inactive session".to_string()));
    }
    Ok(())
}

/// Guards handlers that initiate a transfer: claims the session for this
/// client, or validates an existing claim by the same client.
pub fn claim_or_validate_session<S: Session>(
    session: &mut S,
    token: &str,
    client_id: &str,
) -> (r: Result<(), AppError>)
    ensures
        (r is Ok) == spec_claim_ok(
            old(session).spec_session_state(),
            old(session).spec_token(),
            token@,
            client_id@,
        ),
        r matches Err(e) ==> e is Unauthorized,
        final(session).spec_token() == old(session).spec_token(),
        final(session).spec_key() == old(session).spec_key(),
        final(session).session_wf() == old(session).session_wf(),
        if (r is Ok) && old(session).spec_session_state() is Unclaimed {
            (final(session).spec_session_state() matches SessionState::Claimed(c) && c@
                == client_id@)
        } else {
            final(session).spec_session_state() == old(session).spec_session_state()
        },
{
    if session.claim(token, client_id) {
        Ok(())
    } else {
        Err(
            AppError::Unauthorized(
                "Invalid token or session already claimed by another client".to_string(),
            ),
        )
    }
}

} // verus!
