//! Session and token lifecycle of the actions server: signed session tokens,
//! the per-user session store, and the decisions taken when a request or a
//! login callback comes in.

mod claims;
mod error;
mod flow;
mod graphql;
mod session;

pub use claims::{
    lemma_expired_keeps_user, lemma_issue_then_decode, lemma_valid_round_trip, token_of, Claims,
    ClaimsView, Decoded, TokenFields, TokenFieldsView, TOKEN_LIFETIME,
};
pub use error::AuthError;
pub use flow::{
    authorize_step, complete_login, complete_refresh, refresh_source, route_request, step_for,
    AuthorizedParams, Issued, Step, UpstreamTokenSet,
};
pub use graphql::{ActionMutation, Mutation};
pub use session::{lemma_upsert_twice, SessionRecord, SessionService, SessionView};
