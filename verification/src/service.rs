//! The token service: issues tokens and validates each at most once.

use vstd::prelude::*;
use vstd::slice::slice_to_vec;
use crate::error::VerificationError;
use crate::hex_codec::{hex_text, hex_value, lemma_hex_round_trip};
use crate::random::random_block;
use crate::store::TokenStore;
use crate::token::{
    decode_token_id, same_text, token_id_of, Purpose, TokenView, VerificationToken, TOKEN_ID_LEN,
};

verus! {

/// The usual lifetime of a token: twenty-four hours, in seconds.
pub const DEFAULT_HORIZON_SECS: u32 = 86_400;

/// Why no token was issued.
#[derive(Clone, Copy, Debug, PartialEq, Eq, Structural)]
pub enum IssueError {
    /// The expiry time would not fit the clock's range.
    TimeOverflow,
    /// A live token already has the identifier that was drawn.
    IdTaken,
    /// The system had no random bytes to give, so no identifier was drawn.
    NoEntropy,
}

/// The token that issuing makes from its inputs.
pub open spec fn issued_token(
    id: Seq<u8>,
    email: Seq<char>,
    purpose: Purpose,
    now: int,
    horizon: int,
) -> TokenView {
    TokenView { id, email, expires_at: now + horizon, purpose }
}

/// What issuing under a given identifier returns.
pub open spec fn issue_outcome(
    tokens: Map<Seq<u8>, TokenView>,
    horizon: int,
    id: Seq<u8>,
    email: Seq<char>,
    purpose: Purpose,
    now: int,
) -> Result<TokenView, IssueError> {
    if now + horizon > i64::MAX {
        Err(IssueError::TimeOverflow)
    } else if tokens.contains_key(id) {
        Err(IssueError::IdTaken)
    } else {
        Ok(issued_token(id, email, purpose, now, horizon))
    }
}

/// The live tokens after issuing under a given identifier.
pub open spec fn tokens_after_issue(
    tokens: Map<Seq<u8>, TokenView>,
    horizon: int,
    id: Seq<u8>,
    email: Seq<char>,
    purpose: Purpose,
    now: int,
) -> Map<Seq<u8>, TokenView> {
    match issue_outcome(tokens, horizon, id, email, purpose, now) {
        Ok(token) => tokens.insert(id, token),
        Err(_) => tokens,
    }
}

/// The result of issuing as plain values.
pub open spec fn issue_result_view(r: Result<VerificationToken, IssueError>) -> Result<
    TokenView,
    IssueError,
> {
    match r {
        Ok(token) => Ok(token@),
        Err(e) => Err(e),
    }
}

/// True when `r` and `after` are what issuing under the identifier `id`
/// gives, `id` being of the fixed length.
pub open spec fn issued_under(
    tokens: Map<Seq<u8>, TokenView>,
    horizon: int,
    id: Seq<u8>,
    email: Seq<char>,
    purpose: Purpose,
    now: int,
    r: Result<TokenView, IssueError>,
    after: Map<Seq<u8>, TokenView>,
) -> bool {
    &&& id.len() == TOKEN_ID_LEN
    &&& r == issue_outcome(tokens, horizon, id, email, purpose, now)
    &&& after == tokens_after_issue(tokens, horizon, id, email, purpose, now)
}

/// What validating a token text returns. The checks come in this order:
/// the text's form, the lookup, the bound address, the expiry.
pub open spec fn validation_outcome(
    tokens: Map<Seq<u8>, TokenView>,
    raw: Seq<char>,
    email: Seq<char>,
    now: int,
) -> Result<(), VerificationError> {
    match token_id_of(raw) {
        None => Err(VerificationError::MalformedToken),
        Some(id) => if !tokens.contains_key(id) {
            Err(VerificationError::NotFound)
        } else if tokens[id].email != email {
            Err(VerificationError::EmailMismatch)
        } else if now >= tokens[id].expires_at {
            Err(VerificationError::Expired)
        } else {
            Ok(())
        },
    }
}

/// The live tokens after validating: an accepted token is gone, and a
/// rejected attempt changes nothing.
pub open spec fn tokens_after_validation(
    tokens: Map<Seq<u8>, TokenView>,
    raw: Seq<char>,
    email: Seq<char>,
    now: int,
) -> Map<Seq<u8>, TokenView> {
    if validation_outcome(tokens, raw, email, now) is Ok {
        tokens.remove(token_id_of(raw)->0)
    } else {
        tokens
    }
}

/// Issues and validates tokens over a store of the live ones.
pub struct TokenService {
    store: TokenStore,
    horizon_secs: u32,
}

impl TokenService {
    /// The service's invariant, which is that of its store.
    pub closed spec fn wf(&self) -> bool {
        self.store.wf()
    }

    /// The live tokens by identifier.
    pub closed spec fn tokens(&self) -> Map<Seq<u8>, TokenView> {
        self.store@
    }

    /// Seconds that a token lives from its issuance.
    pub closed spec fn horizon(&self) -> int {
        self.horizon_secs as int
    }

    /// A service over `store` whose tokens live `horizon_secs` seconds.
    pub fn new(store: TokenStore, horizon_secs: u32) -> (service: TokenService)
        requires
            store.wf(),
        ensures
            service.wf(),
            service.tokens() == store@,
            service.horizon() == horizon_secs,
    {
        TokenService { store, horizon_secs }
    }

    /// Issues a token under the identifier `id`, which the caller has drawn.
    pub fn issue_with_id(
        &mut self,
        id: [u8; 32],
        email: &str,
        purpose: Purpose,
        now: i64,
    ) -> (r: Result<VerificationToken, IssueError>)
        requires
            old(self).wf(),
        ensures
            final(self).wf(),
            final(self).horizon() == old(self).horizon(),
            issue_result_view(r) == issue_outcome(
                old(self).tokens(),
                old(self).horizon(),
                id@,
                email@,
                purpose,
                now as int,
            ),
            final(self).tokens() == tokens_after_issue(
                old(self).tokens(),
                old(self).horizon(),
                id@,
                email@,
                purpose,
                now as int,
            ),
    {
        let horizon: i64 = self.horizon_secs as i64;
        if now > i64::MAX - horizon {
            return Err(IssueError::TimeOverflow);
        }
        let token = VerificationToken {
            id: slice_to_vec(id.as_slice()),
            email: email.to_owned(),
            expires_at: now + horizon,
            purpose,
        };
        let copy = token.clone();
        if self.store.put(token) {
            Ok(copy)
        } else {
            Err(IssueError::IdTaken)
        }
    }

    /// Issues a token under a freshly drawn identifier. An expiry time out
    /// of range is refused first. Whether an identifier can then be drawn, and
    /// which, is left to chance, so the contract says what holds for each
    /// outcome: either none was drawn, or the call behaves as `issue_with_id`
    /// does under some identifier.
    pub fn issue(&mut self, email: &str, purpose: Purpose, now: i64) -> (r: Result<
        VerificationToken,
        IssueError,
    >)
        requires
            old(self).wf(),
        ensures
            final(self).wf(),
            final(self).horizon() == old(self).horizon(),
            r matches Err(IssueError::TimeOverflow) <==> now + old(self).horizon() > i64::MAX,
            now + old(self).horizon() <= i64::MAX ==> r matches Err(IssueError::NoEntropy)
                || exists|id: Seq<u8>|
                issued_under(
                    old(self).tokens(),
                    old(self).horizon(),
                    id,
                    email@,
                    purpose,
                    now as int,
                    issue_result_view(r),
                    final(self).tokens(),
                ),
            r matches Ok(token) ==> {
                &&& token@ == issued_token(
                    token@.id,
                    email@,
                    purpose,
                    now as int,
                    old(self).horizon(),
                )
                &&& token@.id.len() == TOKEN_ID_LEN
                &&& !old(self).tokens().contains_key(token@.id)
                &&& final(self).tokens() == old(self).tokens().insert(token@.id, token@)
            },
            r is Err ==> final(self).tokens() == old(self).tokens(),
    {
        if now > i64::MAX - (self.horizon_secs as i64) {
            return Err(IssueError::TimeOverflow);
        }
        let id = match random_block() {
            Some(id) => id,
            None => {
                return Err(IssueError::NoEntropy);
            },
        };
        let r = self.issue_with_id(id, email, purpose, now);
        assert(issued_under(
            old(self).tokens(),
            old(self).horizon(),
            id@,
            email@,
            purpose,
            now as int,
            issue_result_view(r),
            self.tokens(),
        ));
        r
    }

    /// Validates a token text for an address at time `now` and, if it is
    /// accepted, consumes the token in the same step.
    pub fn validate_and_consume(&mut self, raw_id: &str, email: &str, now: i64) -> (r: Result<
        (),
        VerificationError,
    >)
        requires
            old(self).wf(),
        ensures
            final(self).wf(),
            final(self).horizon() == old(self).horizon(),
            r == validation_outcome(old(self).tokens(), raw_id@, email@, now as int),
            final(self).tokens() == tokens_after_validation(
                old(self).tokens(),
                raw_id@,
                email@,
                now as int,
            ),
    {
        let id = match decode_token_id(raw_id) {
            Ok(id) => id,
            Err(e) => {
                return Err(e);
            },
        };
        match self.store.get(id.as_slice()) {
            None => {
                return Err(VerificationError::NotFound);
            },
            Some(token) => {
                if !same_text(token.email.as_str(), email) {
                    return Err(VerificationError::EmailMismatch);
                }
                if now >= token.expires_at {
                    return Err(VerificationError::Expired);
                }
            },
        }
        self.store.delete_if_present(id.as_slice());
        Ok(())
    }
}

/// A token is accepted at most once: after a text has been accepted, that
/// text, and any other text for the same identifier, is answered with
/// `NotFound`, whatever address and time come with it.
pub proof fn lemma_single_use(
    tokens: Map<Seq<u8>, TokenView>,
    raw: Seq<char>,
    email: Seq<char>,
    now: int,
    raw_again: Seq<char>,
    email_again: Seq<char>,
    now_again: int,
)
    requires
        validation_outcome(tokens, raw, email, now) is Ok,
        token_id_of(raw_again) == token_id_of(raw),
    ensures
        validation_outcome(
            tokens_after_validation(tokens, raw, email, now),
            raw_again,
            email_again,
            now_again,
        ) == Err::<(), VerificationError>(VerificationError::NotFound),
{
}

/// A rejected attempt consumes nothing, and an accepted one takes away the
/// one token it names and no other.
pub proof fn lemma_validation_touches_one_token(
    tokens: Map<Seq<u8>, TokenView>,
    raw: Seq<char>,
    email: Seq<char>,
    now: int,
    other: Seq<u8>,
)
    ensures
        validation_outcome(tokens, raw, email, now) is Err ==> tokens_after_validation(
            tokens,
            raw,
            email,
            now,
        ) == tokens,
        token_id_of(raw) != Some(other) ==> {
            let after = tokens_after_validation(tokens, raw, email, now);
            &&& after.contains_key(other) == tokens.contains_key(other)
            &&& after.contains_key(other) ==> after[other] == tokens[other]
        },
{
}

/// From its expiry time on a token is rejected as expired, even when the
/// identifier and the address both match.
pub proof fn lemma_expired_is_rejected(
    tokens: Map<Seq<u8>, TokenView>,
    raw: Seq<char>,
    email: Seq<char>,
    now: int,
)
    requires
        token_id_of(raw) matches Some(id) && tokens.contains_key(id) && tokens[id].email == email
            && now >= tokens[id].expires_at,
    ensures
        validation_outcome(tokens, raw, email, now) == Err::<(), VerificationError>(
            VerificationError::Expired,
        ),
        tokens_after_validation(tokens, raw, email, now) == tokens,
{
}

/// A token presented with another address than the one it was issued for is
/// rejected, and the payload shown for that is the generic one, the same as
/// for a token that was not found.
pub proof fn lemma_wrong_email_is_rejected(
    tokens: Map<Seq<u8>, TokenView>,
    raw: Seq<char>,
    email: Seq<char>,
    now: int,
)
    requires
        token_id_of(raw) matches Some(id) && tokens.contains_key(id) && tokens[id].email != email,
    ensures
        validation_outcome(tokens, raw, email, now) matches Err(e) && e.is_generic()
            && e.public_view() == VerificationError::NotFound.public_view(),
        tokens_after_validation(tokens, raw, email, now) == tokens,
{
}

/// A text that is not the hex form of an identifier of the fixed length is
/// rejected, and the payload shown for that is the same as for a token that
/// was not found.
pub proof fn lemma_malformed_is_rejected(
    tokens: Map<Seq<u8>, TokenView>,
    raw: Seq<char>,
    email: Seq<char>,
    now: int,
)
    requires
        token_id_of(raw) is None,
    ensures
        validation_outcome(tokens, raw, email, now) matches Err(e) && e.is_generic()
            && e.public_view() == VerificationError::NotFound.public_view(),
        tokens_after_validation(tokens, raw, email, now) == tokens,
{
}

/// A text of the wrong length, and a text with a character that is no hex
/// digit, are both malformed.
pub proof fn lemma_malformed_texts(raw: Seq<char>, at: int)
    ensures
        raw.len() != 2 * TOKEN_ID_LEN ==> token_id_of(raw) is None,
        0 <= at < raw.len() && hex_value(raw[at]) is None ==> token_id_of(raw) is None,
{
}

/// A token that was just issued is accepted, under the hex text of its
/// identifier and the address it was issued for, at any time before its
/// expiry, and is then gone.
pub proof fn lemma_issued_token_is_accepted(
    tokens: Map<Seq<u8>, TokenView>,
    horizon: int,
    id: Seq<u8>,
    email: Seq<char>,
    purpose: Purpose,
    now: int,
    later: int,
)
    requires
        id.len() == TOKEN_ID_LEN,
        issue_outcome(tokens, horizon, id, email, purpose, now) is Ok,
        later < now + horizon,
    ensures
        token_id_of(hex_text(id)) == Some(id),
        validation_outcome(
            tokens_after_issue(tokens, horizon, id, email, purpose, now),
            hex_text(id),
            email,
            later,
        ) is Ok,
        tokens_after_validation(
            tokens_after_issue(tokens, horizon, id, email, purpose, now),
            hex_text(id),
            email,
            later,
        ) == tokens,
{
    lemma_hex_round_trip(id);
    let issued = tokens_after_issue(tokens, horizon, id, email, purpose, now);
    assert(issued.remove(id) =~= tokens);
}

} // verus!
