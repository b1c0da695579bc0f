//! The two flows around a token: inviting an address, and registering the
//! user who answers the invitation.

use vstd::prelude::*;
use vstd::string::StringExecFns;
use vstd::utf8::encode_utf8;
use crate::credential::{argon2_encoding, hashable, hashing_failure, is_hash_of, SALT_LEN};
use crate::error::{ApiError, ApiErrorView, FORBIDDEN, INTERNAL_ERROR};
use crate::hex_codec::hex_text;
use crate::random::random_block;
use crate::service::{
    issue_outcome, issued_under, tokens_after_issue, tokens_after_validation, validation_outcome,
    TokenService,
};
use crate::token::{encode_token_id, Purpose, TokenView, VerificationToken, TOKEN_ID_LEN};
use crate::user::{User, UserView};

verus! {

/// The message that carries a token to the invited address.
#[derive(Debug, PartialEq, Eq)]
pub struct Invitation {
    pub recipient: String,
    pub subject: String,
    pub html: String,
    /// Seconds since the epoch from which on the token is dead.
    pub expires_at: i64,
}

/// An invitation as plain values.
pub struct InvitationView {
    pub recipient: Seq<char>,
    pub subject: Seq<char>,
    pub html: Seq<char>,
    pub expires_at: int,
}

impl View for Invitation {
    type V = InvitationView;

    open spec fn view(&self) -> InvitationView {
        InvitationView {
            recipient: self.recipient@,
            subject: self.subject@,
            html: self.html@,
            expires_at: self.expires_at as int,
        }
    }
}

/// What a user sends to register: the token text, the address, the password.
#[derive(Debug, PartialEq, Eq)]
pub struct RegistrationMessage {
    pub token: String,
    pub email: String,
    pub password: String,
}

/// The invitation that carries a given token.
pub open spec fn invitation_for(token: TokenView) -> InvitationView {
    InvitationView {
        recipient: token.email,
        subject: "Confirm your email"@,
        html: "Your confirmation code is: "@ + hex_text(token.id),
        expires_at: token.expires_at,
    }
}

/// The payload for a token that could not be issued.
pub open spec fn issue_failure() -> ApiErrorView {
    ApiErrorView { status_code: INTERNAL_ERROR, message: "Failed to create verification token"@ }
}

/// What inviting under a given identifier returns.
pub open spec fn invitation_outcome(
    tokens: Map<Seq<u8>, TokenView>,
    horizon: int,
    id: Seq<u8>,
    email: Seq<char>,
    now: int,
) -> Result<InvitationView, ApiErrorView> {
    match issue_outcome(tokens, horizon, id, email, Purpose::Registration, now) {
        Ok(token) => Ok(invitation_for(token)),
        Err(_) => Err(issue_failure()),
    }
}

/// The result of inviting as plain values.
pub open spec fn invitation_result_view(r: Result<Invitation, ApiError>) -> Result<
    InvitationView,
    ApiErrorView,
> {
    match r {
        Ok(invitation) => Ok(invitation@),
        Err(e) => Err(e@),
    }
}

/// True when `r` and `after` are what inviting under the identifier `id` at
/// time `now` gives.
pub open spec fn invited_under(
    tokens: Map<Seq<u8>, TokenView>,
    horizon: int,
    id: Seq<u8>,
    email: Seq<char>,
    now: int,
    r: Result<InvitationView, ApiErrorView>,
    after: Map<Seq<u8>, TokenView>,
) -> bool {
    &&& id.len() == TOKEN_ID_LEN
    &&& r == invitation_outcome(tokens, horizon, id, email, now)
    &&& after == tokens_after_issue(tokens, horizon, id, email, Purpose::Registration, now)
}

/// Writes the message that carries a token to the address it is bound to.
pub fn write_invitation(token: VerificationToken) -> (invitation: Invitation)
    ensures
        invitation@ == invitation_for(token@),
{
    let mut html = "Your confirmation code is: ".to_owned();
    html.append(encode_token_id(token.id.as_slice()).as_str());
    Invitation {
        recipient: token.email,
        subject: "Confirm your email".to_owned(),
        html,
        expires_at: token.expires_at,
    }
}

/// Issues a registration token for `email` under the identifier `id` at time
/// `now`, and writes the message that carries it.
pub fn invite_with(service: &mut TokenService, email: &str, id: [u8; 32], now: i64) -> (r: Result<
    Invitation,
    ApiError,
>)
    requires
        old(service).wf(),
    ensures
        final(service).wf(),
        final(service).horizon() == old(service).horizon(),
        invitation_result_view(r) == invitation_outcome(
            old(service).tokens(),
            old(service).horizon(),
            id@,
            email@,
            now as int,
        ),
        final(service).tokens() == tokens_after_issue(
            old(service).tokens(),
            old(service).horizon(),
            id@,
            email@,
            Purpose::Registration,
            now as int,
        ),
{
    match service.issue_with_id(id, email, Purpose::Registration, now) {
        Ok(token) => Ok(write_invitation(token)),
        Err(_) => Err(ApiError::new(INTERNAL_ERROR, "Failed to create verification token")),
    }
}

/// Issues a registration token for `email` at time `now`, under a freshly
/// drawn identifier, and writes the message that carries it. Whether an
/// identifier can be drawn, and which, is left to chance, so the contract
/// says what holds for each outcome: the call fails and changes nothing, or
/// it behaves as `invite_with` does under some identifier.
pub fn invite(service: &mut TokenService, email: &str, now: i64) -> (r: Result<
    Invitation,
    ApiError,
>)
    requires
        old(service).wf(),
    ensures
        final(service).wf(),
        final(service).horizon() == old(service).horizon(),
        r is Ok ==> exists|id: Seq<u8>|
            invited_under(
                old(service).tokens(),
                old(service).horizon(),
                id,
                email@,
                now as int,
                invitation_result_view(r),
                final(service).tokens(),
            ),
        now + old(service).horizon() > i64::MAX ==> r is Err,
        r matches Ok(invitation) ==> invitation@.recipient == email@ && invitation@.expires_at
            == now + old(service).horizon(),
        r matches Err(e) ==> e@ == issue_failure() && final(service).tokens() == old(
            service,
        ).tokens(),
{
    match service.issue(email, Purpose::Registration, now) {
        Ok(token) => {
            let invitation = write_invitation(token);
            proof {
                let id = choose|id: Seq<u8>|
                    issued_under(
                        old(service).tokens(),
                        old(service).horizon(),
                        id,
                        email@,
                        Purpose::Registration,
                        now as int,
                        Ok(token@),
                        service.tokens(),
                    );
                assert(invited_under(
                    old(service).tokens(),
                    old(service).horizon(),
                    id,
                    email@,
                    now as int,
                    Ok(invitation@),
                    service.tokens(),
                ));
            }
            Ok(invitation)
        },
        Err(_) => Err(ApiError::new(INTERNAL_ERROR, "Failed to create verification token")),
    }
}

/// The user record that registering makes once the token is accepted: the
/// password is hashed under `salt`; where that fails, the hashing fault.
pub open spec fn new_user_outcome(
    email: Seq<char>,
    password: Seq<char>,
    user_id: i32,
    salt: Seq<u8>,
) -> Result<UserView, ApiErrorView> {
    match argon2_encoding(encode_utf8(password), salt) {
        Some(encoded) => Ok(UserView { id: user_id, email, password: encoded }),
        None => Err(hashing_failure()),
    }
}

/// What registering returns: a rejected token gives the payload for its
/// failure, an accepted one the new user record.
pub open spec fn registration_outcome(
    tokens: Map<Seq<u8>, TokenView>,
    raw: Seq<char>,
    email: Seq<char>,
    password: Seq<char>,
    user_id: i32,
    now: int,
    salt: Seq<u8>,
) -> Result<UserView, ApiErrorView> {
    match validation_outcome(tokens, raw, email, now) {
        Err(e) => Err(e.public_view()),
        Ok(_) => new_user_outcome(email, password, user_id, salt),
    }
}

/// The result of registering as plain values.
pub open spec fn registration_result_view(r: Result<User, ApiError>) -> Result<
    UserView,
    ApiErrorView,
> {
    match r {
        Ok(user) => Ok(user@),
        Err(e) => Err(e@),
    }
}

/// Makes the record of the user who sent `message`, under `user_id`, with
/// the password hashed under `salt`.
pub fn new_user(message: &RegistrationMessage, user_id: i32, salt: &[u8]) -> (r: Result<
    User,
    ApiError,
>)
    ensures
        registration_result_view(r) == new_user_outcome(
            message.email@,
            message.password@,
            user_id,
            salt@,
        ),
        r is Ok <==> hashable(encode_utf8(message.password@), salt@),
{
    let mut user = User::new(user_id, message.email.clone(), message.password.clone());
    match user.hash_password_with_salt(salt) {
        Ok(_) => Ok(user),
        Err(e) => Err(e),
    }
}

/// Registers the user who presents a token: validates and consumes the
/// token at time `now`, then makes the user record under `user_id` with the
/// password hashed under `salt`. The token is spent once it is accepted,
/// also where the hashing then fails.
pub fn register_with(
    service: &mut TokenService,
    message: &RegistrationMessage,
    user_id: i32,
    now: i64,
    salt: &[u8],
) -> (r: Result<User, ApiError>)
    requires
        old(service).wf(),
    ensures
        final(service).wf(),
        final(service).horizon() == old(service).horizon(),
        registration_result_view(r) == registration_outcome(
            old(service).tokens(),
            message.token@,
            message.email@,
            message.password@,
            user_id,
            now as int,
            salt@,
        ),
        final(service).tokens() == tokens_after_validation(
            old(service).tokens(),
            message.token@,
            message.email@,
            now as int,
        ),
{
    match service.validate_and_consume(message.token.as_str(), message.email.as_str(), now) {
        Ok(_) => new_user(message, user_id, salt),
        Err(e) => Err(e.to_api_error()),
    }
}

/// Registers the user who presents a token at time `now`, with a freshly
/// drawn salt. The token is validated and consumed first, exactly as
/// `register_with` does it. Whether a salt can then be drawn, and which, is
/// left to chance: the user comes with the password hashed under some salt
/// of `SALT_LEN` bytes, or the call ends in the hashing fault.
pub fn register(
    service: &mut TokenService,
    message: &RegistrationMessage,
    user_id: i32,
    now: i64,
) -> (r: Result<User, ApiError>)
    requires
        old(service).wf(),
    ensures
        final(service).wf(),
        final(service).horizon() == old(service).horizon(),
        final(service).tokens() == tokens_after_validation(
            old(service).tokens(),
            message.token@,
            message.email@,
            now as int,
        ),
        match validation_outcome(
            old(service).tokens(),
            message.token@,
            message.email@,
            now as int,
        ) {
            Err(rejection) => r matches Err(e) && e@ == rejection.public_view(),
            Ok(_) => (r matches Err(e) && e@ == hashing_failure()) || exists|salt: Seq<u8>|
                salt.len() == SALT_LEN && registration_result_view(r) == #[trigger] new_user_outcome(
                    message.email@,
                    message.password@,
                    user_id,
                    salt,
                ),
        },
        r matches Ok(user) ==> user@.id == user_id && user@.email == message.email@ && is_hash_of(
            user@.password,
            encode_utf8(message.password@),
        ),
{
    match service.validate_and_consume(message.token.as_str(), message.email.as_str(), now) {
        Ok(_) => {},
        Err(e) => {
            return Err(e.to_api_error());
        },
    }
    match random_block() {
        Some(salt) => new_user(message, user_id, salt.as_slice()),
        None => Err(ApiError::new(INTERNAL_ERROR, "Failed to hash password")),
    }
}

/// Registration does not tell why a token was refused: a malformed text, an
/// unknown token and a token bound to another address all end in one and the
/// same payload, whatever else the two requests hold. Only expiry is told
/// apart.
pub proof fn lemma_registration_hides_the_cause(
    tokens: Map<Seq<u8>, TokenView>,
    raw: Seq<char>,
    email: Seq<char>,
    password: Seq<char>,
    user_id: i32,
    now: int,
    salt: Seq<u8>,
    other_raw: Seq<char>,
    other_email: Seq<char>,
    other_password: Seq<char>,
    other_user_id: i32,
    other_now: int,
    other_salt: Seq<u8>,
)
    requires
        validation_outcome(tokens, raw, email, now) matches Err(e) && e.is_generic(),
        validation_outcome(tokens, other_raw, other_email, other_now) matches Err(e)
            && e.is_generic(),
    ensures
        registration_outcome(tokens, raw, email, password, user_id, now, salt)
            == registration_outcome(
            tokens,
            other_raw,
            other_email,
            other_password,
            other_user_id,
            other_now,
            other_salt,
        ),
        registration_outcome(tokens, raw, email, password, user_id, now, salt) == Err::<
            UserView,
            ApiErrorView,
        >(ApiErrorView { status_code: FORBIDDEN, message: "Invalid token"@ }),
{
}

} // verus!
