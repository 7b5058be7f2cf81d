//! Sessions of the super admin: signed tokens, issued at login and asked for by every other
//! request.
use crate::clock::{expiry, in_calendar, session_expiry};
use crate::headers::{header_contents, header_text, read_header, HeaderContents};
use crate::reply::{error, error_response, Reply, ReplyView, Status};
use crate::text::{ascii_alphanumeric, behind, strip, trimmed};
use axum::http::HeaderMap;
use vstd::prelude::*;

verus! {

/// The subject that a session of the super admin names.
pub const SUPER_ADMIN: &'static str = "SUPER-BOSS";

/// How many seconds beyond its expiry a token is still taken, for clocks that differ.
pub const LEEWAY: u64 = 60;

/// What a session token says of its bearer.
#[derive(Debug)]
pub struct Claims {
    pub sub: String,
    pub exp: usize,
}

/// The claims of a session, by text and number.
#[verifier::ext_equal]
pub struct ClaimsView {
    pub sub: Seq<char>,
    pub exp: usize,
}

impl View for Claims {
    type V = ClaimsView;

    open spec fn view(&self) -> ClaimsView {
        ClaimsView { sub: self.sub@, exp: self.exp }
    }
}

/// The value of one claim. Of a number it holds the value where that is a whole number of at
/// most 64 bits.
#[derive(Debug)]
pub enum ClaimValue {
    Text(String),
    Number(Option<u64>),
    Other,
}

/// The value of one claim, by text or number.
#[verifier::ext_equal]
pub enum ClaimValueView {
    Text(Seq<char>),
    Number(Option<u64>),
    Other,
}

impl View for ClaimValue {
    type V = ClaimValueView;

    open spec fn view(&self) -> ClaimValueView {
        match self {
            ClaimValue::Text(text) => ClaimValueView::Text(text@),
            ClaimValue::Number(number) => ClaimValueView::Number(*number),
            ClaimValue::Other => ClaimValueView::Other,
        }
    }
}

/// One claim of a token, of whatever kind.
#[derive(Debug)]
pub struct Claim {
    pub name: String,
    pub value: ClaimValue,
}

impl View for Claim {
    type V = (Seq<char>, ClaimValueView);

    open spec fn view(&self) -> (Seq<char>, ClaimValueView) {
        (self.name@, self.value@)
    }
}

/// The claims of a token, by name and value.
pub open spec fn claims_of(claims: Seq<Claim>) -> Seq<(Seq<char>, ClaimValueView)> {
    claims.map_values(|c: Claim| c@)
}

/// Why a token was not encoded or not accepted.
#[verifier::external_type_specification]
#[verifier::external_body]
pub struct ExTokenError(jsonwebtoken::errors::Error);

/// The token that `jsonwebtoken::encode` makes of a subject and an expiry under a secret.
pub uninterp spec fn jwt_encoding(sub: Seq<char>, exp: usize, secret: Seq<char>) -> Option<
    Seq<char>,
>;

/// The claims, in the order of their names, that `jsonwebtoken::decode` reads from a token under
/// a secret at the time `now`, in seconds since 1970; nothing where it refuses the token.
pub uninterp spec fn jwt_decoding(
    token: Seq<char>,
    secret: Seq<char>,
    leeway: u64,
    now: nat,
) -> Option<Seq<(Seq<char>, ClaimValueView)>>;

/// The claims of a session, in the order of their names.
pub open spec fn session_claims(sub: Seq<char>, exp: usize) -> Seq<(Seq<char>, ClaimValueView)> {
    seq![
        ("exp"@, ClaimValueView::Number(Some(exp as u64))),
        ("sub"@, ClaimValueView::Text(sub)),
    ]
}

/// The claims of a session that expires at `exp`, as they are read at the time `now`.
pub open spec fn claims_until(sub: Seq<char>, exp: usize, leeway: u64, now: nat) -> Option<
    Seq<(Seq<char>, ClaimValueView)>,
> {
    if now <= exp + leeway {
        Some(session_claims(sub, exp))
    } else {
        None
    }
}

/// Text of the letters, digits and signs that tokens are made of.
pub open spec fn is_token_text(text: Seq<char>) -> bool {
    forall|i: int|
        0 <= i < text.len() ==> {
            ||| ascii_alphanumeric(#[trigger] text[i])
            ||| text[i] == '-'
            ||| text[i] == '_'
            ||| text[i] == '.'
        }
}

/// Whether decoding a token gives the claims of a session until it expires, and is refused from
/// then on.
pub open spec fn decodes_until(
    token: Seq<char>,
    secret: Seq<char>,
    sub: Seq<char>,
    exp: usize,
) -> bool {
    forall|leeway: u64, now: nat|
        leeway <= now ==> #[trigger] jwt_decoding(token, secret, leeway, now) == claims_until(
            sub,
            exp,
            leeway,
            now,
        )
}

/// Whether from the leeway on a token reads as the claims `life` up to the time `last`, and is
/// refused from then on.
pub open spec fn reads_until(
    token: Seq<char>,
    secret: Seq<char>,
    leeway: u64,
    life: Option<Seq<(Seq<char>, ClaimValueView)>>,
    last: nat,
) -> bool {
    forall|now: nat|
        leeway <= now ==> #[trigger] jwt_decoding(token, secret, leeway, now) == (if now <= last {
            life
        } else {
            None
        })
}

/// Whether a token that read as `outcome` has one lifetime, in which it reads as the same claims
/// throughout: those it read as, or, where it was refused, any it may have read as before.
pub open spec fn has_one_life(
    token: Seq<char>,
    secret: Seq<char>,
    leeway: u64,
    outcome: Option<Seq<(Seq<char>, ClaimValueView)>>,
) -> bool {
    exists|life: Option<Seq<(Seq<char>, ClaimValueView)>>, last: nat|
        (outcome is Some ==> life == outcome) && #[trigger] reads_until(
            token,
            secret,
            leeway,
            life,
            last,
        )
}

/// Whether a token that read as `outcome` is read up to the moment that its claim `exp` gives,
/// with the leeway beyond, where that claim is a whole number.
pub open spec fn ends_by_claim(
    token: Seq<char>,
    secret: Seq<char>,
    leeway: u64,
    outcome: Option<Seq<(Seq<char>, ClaimValueView)>>,
) -> bool {
    match outcome {
        Some(claims) => match claim_value(claims, "exp"@) {
            Some(ClaimValueView::Number(Some(exp))) => reads_until(
                token,
                secret,
                leeway,
                outcome,
                (exp + leeway) as nat,
            ),
            _ => true,
        },
        None => true,
    }
}

/// The claims that decoding handed out.
pub open spec fn decoded<E>(claims: Result<Vec<Claim>, E>) -> Option<
    Seq<(Seq<char>, ClaimValueView)>,
> {
    match claims {
        Ok(claims) => Some(claims_of(claims@)),
        Err(_) => None,
    }
}

/// `jsonwebtoken::encode` with the default header (HMAC-SHA256) and a key from
/// `EncodingKey::from_secret`: the token depends on the claims and the secret alone. It is made
/// of parts in the URL-safe alphabet of base64, joined by dots. Decoding it under the same
/// secret gives the claims back until the leeway beyond their expiry is over,
/// and is refused from then on.
#[verifier::external_body]
pub(crate) fn encode_token(claims: &Claims, secret: &str) -> (token: Result<
    String,
    jsonwebtoken::errors::Error,
>)
    ensures
        token is Ok <==> jwt_encoding(claims.sub@, claims.exp, secret@) is Some,
        token matches Ok(t) ==> jwt_encoding(claims.sub@, claims.exp, secret@) == Some(t@),
        token matches Ok(t) ==> is_token_text(t@),
        token matches Ok(t) ==> decodes_until(t@, secret@, claims.sub@, claims.exp),
{
    let mut map = serde_json::Map::new();
    map.insert("sub".to_string(), serde_json::Value::from(claims.sub.as_str()));
    map.insert("exp".to_string(), serde_json::Value::from(claims.exp));
    let key = jsonwebtoken::EncodingKey::from_secret(secret.as_bytes());
    jsonwebtoken::encode(&jsonwebtoken::Header::default(), &map, &key)
}

/// `jsonwebtoken::decode` under `Validation::new(Algorithm::HS256)` with the given leeway and a
/// key from `DecodingKey::from_secret`: what it returns depends on the token, the secret, the
/// leeway and the time at which it reads the clock. Nothing more is said of that time. The clock
/// is held against the expiry alone, so a token reads as the same claims until the leeway beyond
/// its claim `exp` is over, and is refused from then on. Where that claim is not a whole number,
/// nothing is said of when it is over. With a clock that stands closer to 1970 than the leeway
/// the call may panic. The claims are decoded as raw JSON, which has to be UTF-8 throughout, and
/// the value of each is told apart by `serde_json::from_str`.
#[verifier::external_body]
pub(crate) fn decode_token(token: &str, secret: &str, leeway: u64) -> (claims: Result<
    Vec<Claim>,
    jsonwebtoken::errors::Error,
>)
    requires
        leeway <= 3600,
    ensures
        exists|now: nat|
            decoded(claims) == #[trigger] jwt_decoding(token@, secret@, leeway, now),
        has_one_life(token@, secret@, leeway, decoded(claims)),
        ends_by_claim(token@, secret@, leeway, decoded(claims)),
{
    let mut validation = jsonwebtoken::Validation::new(jsonwebtoken::Algorithm::HS256);
    validation.leeway = leeway;
    let key = jsonwebtoken::DecodingKey::from_secret(secret.as_bytes());
    let data = jsonwebtoken::decode::<
        std::collections::BTreeMap<String, Box<serde_json::value::RawValue>>,
    >(token, &key, &validation)?;
    let claims = data.claims.into_iter();
    Ok(claims.map(|(name, raw)| Claim { name, value: match serde_json::from_str(raw.get()) {
        Ok(serde_json::Value::String(text)) => ClaimValue::Text(text),
        Ok(serde_json::Value::Number(number)) => ClaimValue::Number(number.as_u64()),
        _ => ClaimValue::Other,
    } }).collect())
}

/// Whether a token was decoded under a secret, and the outcome was the one of the time `now`.
pub closed spec fn was_read_at(token: Seq<char>, secret: Seq<char>, now: nat) -> bool {
    exists|t: &str, s: &str, claims: Result<Vec<Claim>, jsonwebtoken::errors::Error>|
        t@ == token && s@ == secret && decoded(claims) == jwt_decoding(token, secret, LEEWAY, now)
            && #[trigger] call_ensures(decode_token, (t, s, LEEWAY), claims)
}

/// A token that was read was decoded, with a leeway of a minute.
pub(crate) proof fn tokens_are_read_by_decoding(token: Seq<char>, secret: Seq<char>, now: nat)
    requires
        was_read_at(token, secret, now),
    ensures
        exists|t: &str, s: &str, claims: Result<Vec<Claim>, jsonwebtoken::errors::Error>|
            t@ == token && s@ == secret && decoded(claims) == jwt_decoding(token, secret, 60, now)
                && #[trigger] call_ensures(decode_token, (t, s, 60u64), claims),
{
}

/// The value that the first claim of the given name has.
pub open spec fn claim_value(
    claims: Seq<(Seq<char>, ClaimValueView)>,
    name: Seq<char>,
) -> Option<ClaimValueView>
    decreases claims.len(),
{
    if claims.len() == 0 {
        None
    } else if claims.first().0 == name {
        Some(claims.first().1)
    } else {
        claim_value(claims.drop_first(), name)
    }
}

/// The claims of a session, where a token has both: a subject that is text, and an expiry that
/// is a number of seconds.
pub open spec fn session_of(claims: Seq<(Seq<char>, ClaimValueView)>) -> Option<ClaimsView> {
    match (claim_value(claims, "sub"@), claim_value(claims, "exp"@)) {
        (
            Some(ClaimValueView::Text(sub)),
            Some(ClaimValueView::Number(Some(exp))),
        ) => if exp <= usize::MAX {
            Some(ClaimsView { sub, exp: exp as usize })
        } else {
            None
        },
        _ => None,
    }
}

/// The session that a token is taken for at the time `now`.
pub open spec fn accepted_session(token: Seq<char>, secret: Seq<char>, now: nat) -> Option<
    ClaimsView,
> {
    match jwt_decoding(token, secret, LEEWAY, now) {
        Some(claims) => session_of(claims),
        None => None,
    }
}

/// A session as its token is taken at the time `now`: it ends with the leeway beyond its expiry.
pub open spec fn session_until(session: ClaimsView, now: nat) -> Option<ClaimsView> {
    if now <= session.exp + LEEWAY {
        Some(session)
    } else {
        None
    }
}

/// Whether a token is taken for a session until that expires, and for nothing from then on.
pub open spec fn lasts(token: Seq<char>, secret: Seq<char>, session: ClaimsView) -> bool {
    forall|now: nat|
        LEEWAY <= now ==> #[trigger] accepted_session(token, secret, now) == session_until(
            session,
            now,
        )
}

/// Whether a token that is taken for a session is taken for the same one at any earlier time
/// from the leeway on, so that a session that is over never comes back.
pub open spec fn token_ages(token: Seq<char>, secret: Seq<char>) -> bool {
    forall|earlier: nat, later: nat|
        LEEWAY <= earlier <= later && (#[trigger] accepted_session(token, secret, later)) is Some
            ==> #[trigger] accepted_session(token, secret, earlier) == accepted_session(
            token,
            secret,
            later,
        )
}

/// The session that `session` stands for.
pub open spec fn claims_view(session: Option<Claims>) -> Option<ClaimsView> {
    match session {
        Some(claims) => Some(claims@),
        None => None,
    }
}

/// Finds the first claim of the given name.
fn find_claim<'a>(claims: &'a Vec<Claim>, name: &str) -> (value: Option<&'a ClaimValue>)
    ensures
        value is Some <==> claim_value(claims_of(claims@), name@) is Some,
        value matches Some(v) ==> claim_value(claims_of(claims@), name@) == Some(v@),
{
    let wanted = name.to_string();
    let ghost all = claims_of(claims@);
    assert(all.skip(0) =~= all);
    for i in 0..claims.len()
        invariant
            all == claims_of(claims@),
            wanted@ == name@,
            claim_value(all, name@) == claim_value(all.skip(i as int), name@),
    {
        assert(all.skip(i as int).first() == claims@[i as int]@);
        assert(all.skip(i as int).drop_first() =~= all.skip(i + 1));
        if claims[i].name == wanted {
            return Some(&claims[i].value);
        }
    }
    None
}

/// Reads the claims of a session from those of a token.
pub fn read_session(claims: &Vec<Claim>) -> (session: Option<Claims>)
    ensures
        claims_view(session) == session_of(claims_of(claims@)),
{
    match (find_claim(claims, "sub"), find_claim(claims, "exp")) {
        (Some(ClaimValue::Text(sub)), Some(ClaimValue::Number(Some(exp)))) => {
            let exp: u64 = *exp;
            if exp <= usize::MAX as u64 {
                Some(Claims { sub: sub.clone(), exp: exp as usize })
            } else {
                None
            }
        },
        _ => None,
    }
}

/// The token in the header `Authorization`, where that is of the form `Bearer <token>`.
pub open spec fn bearer_token(headers: HeaderContents) -> Option<Seq<char>> {
    match header_text(headers, "authorization"@) {
        Some(text) => match behind(text, "Bearer "@) {
            Some(token) => Some(trimmed(token)),
            None => None,
        },
        None => None,
    }
}

/// Reads the token that a request bears.
pub fn read_bearer_token(headers: &HeaderMap) -> (token: Option<String>)
    ensures
        token is Some <==> bearer_token(header_contents(*headers)) is Some,
        token matches Some(t) ==> bearer_token(header_contents(*headers)) == Some(t@),
{
    proof {
        reveal_strlit("authorization");
    }
    match read_header(headers, "authorization") {
        Some(text) => match strip(text.as_str(), "Bearer ") {
            Some(token) => Some(token.trim().to_string()),
            None => None,
        },
        None => None,
    }
}

/// Whom a request is let in as, or the reply that refuses it.
pub type SessionView = Result<Seq<char>, ReplyView>;

/// The outcome that `session` stands for.
pub open spec fn session_view(session: Result<String, Reply>) -> SessionView {
    match session {
        Ok(subject) => Ok(subject@),
        Err(refusal) => Err(refusal@),
    }
}

/// The refusal of a request that bears no token.
pub open spec fn no_session() -> ReplyView {
    error(Status::Unauthorized, "Sesi tidak valid."@)
}

/// The refusal of a token that is expired or not to be trusted.
pub open spec fn invalid_token() -> ReplyView {
    error(Status::Unauthorized, "Token kedaluarsa atau invalid."@)
}

/// The refusal of a session that is not the super admin's.
pub open spec fn access_denied() -> ReplyView {
    error(Status::Forbidden, "Akses Ditolak."@)
}

/// What becomes of a request by the session its token was accepted with, if it was.
pub open spec fn admission(accepted: Option<ClaimsView>) -> SessionView {
    match accepted {
        Some(claims) => if claims.sub == SUPER_ADMIN@ {
            Ok(claims.sub)
        } else {
            Err(access_denied())
        },
        None => Err(invalid_token()),
    }
}

/// Whom a request is let in as at the time `now`, by the token that it bears.
pub open spec fn session_at(headers: HeaderContents, secret: Seq<char>, now: nat) -> SessionView {
    match bearer_token(headers) {
        Some(token) => admission(accepted_session(token, secret, now)),
        None => Err(no_session()),
    }
}

/// Lets the super admin in, and nobody else, by the session that a token was taken for.
pub fn let_in(accepted: Option<Claims>) -> (session: Result<String, Reply>)
    ensures
        session_view(session) == admission(claims_view(accepted)),
{
    match accepted {
        Some(claims) => if claims.sub == SUPER_ADMIN.to_string() {
            Ok(claims.sub)
        } else {
            Err(error_response(Status::Forbidden, "Akses Ditolak."))
        },
        None => Err(error_response(Status::Unauthorized, "Token kedaluarsa atau invalid.")),
    }
}

/// Takes a token for the session that it carries now. It is taken for that session until the
/// leeway beyond the expiry is over. A session that is over never comes back.
pub fn accept_token(token: &str, secret: &str) -> (accepted: Option<Claims>)
    ensures
        exists|now: nat|
            claims_view(accepted) == #[trigger] accepted_session(
                token@,
                secret@,
                now,
            ) && was_read_at(token@, secret@, now),
        accepted matches Some(session) ==> lasts(token@, secret@, session@),
        token_ages(token@, secret@),
{
    let decoding = decode_token(token, secret, LEEWAY);
    let ghost now = choose|now: nat|
        decoded(decoding) == #[trigger] jwt_decoding(token@, secret@, LEEWAY, now);
    let accepted = match decoding {
        Ok(claims) => read_session(&claims),
        Err(_) => None,
    };
    assert(claims_view(accepted) == accepted_session(token@, secret@, now));
    assert(call_ensures(decode_token, (token, secret, LEEWAY), decoding));
    proof {
        lemma_token_ages(token@, secret@, decoded(decoding));
    }
    accepted
}

/// A token with one lifetime is taken for one session until that is over.
proof fn lemma_token_ages(
    token: Seq<char>,
    secret: Seq<char>,
    outcome: Option<Seq<(Seq<char>, ClaimValueView)>>,
)
    requires
        has_one_life(token, secret, LEEWAY, outcome),
    ensures
        token_ages(token, secret),
{
    let (life, last) = choose|life: Option<Seq<(Seq<char>, ClaimValueView)>>, last: nat|
        (outcome is Some ==> life == outcome) && #[trigger] reads_until(
            token,
            secret,
            LEEWAY,
            life,
            last,
        );
    assert(reads_until(token, secret, LEEWAY, life, last));
}

/// Whether a request bears a token of the super admin's session that expires at `exp`.
pub open spec fn bears_session(headers: HeaderContents, secret: Seq<char>, exp: usize) -> bool {
    &&& bearer_token(headers) matches Some(token)
    &&& lasts(token, secret, ClaimsView { sub: SUPER_ADMIN@, exp })
}

/// Whether the token that a request bears, if any, was read at the time `now`.
pub open spec fn was_judged_at(headers: HeaderContents, secret: Seq<char>, now: nat) -> bool {
    bearer_token(headers) matches Some(token) ==> was_read_at(token, secret, now)
}

/// Whether a request that is let in is let in as the same at any earlier time from the leeway
/// on: only the passing of time takes a session away, and none comes back.
pub open spec fn session_ages(headers: HeaderContents, secret: Seq<char>) -> bool {
    forall|earlier: nat, later: nat|
        LEEWAY <= earlier <= later && (#[trigger] session_at(headers, secret, later)) is Ok
            ==> #[trigger] session_at(headers, secret, earlier) == session_at(
            headers,
            secret,
            later,
        )
}

/// Decides whom a request is let in as now, by the token that it bears. A request that is let in
/// bears a session of the super admin that lasts until it expires, and would have been let in at
/// any earlier time.
pub fn verify_super_admin(headers: &HeaderMap, secret: &str) -> (session: Result<String, Reply>)
    ensures
        exists|now: nat|
            session_view(session) == #[trigger] session_at(
                header_contents(*headers),
                secret@,
                now,
            ) && was_judged_at(header_contents(*headers), secret@, now),
        bearer_token(header_contents(*headers)) is None ==> session_view(session)
            == SessionView::Err(no_session()),
        session is Ok ==> exists|exp: usize| #[trigger]
            bears_session(header_contents(*headers), secret@, exp),
        session_ages(header_contents(*headers), secret@),
{
    match read_bearer_token(headers) {
        Some(token) => {
            let accepted = accept_token(token.as_str(), secret);
            let ghost now = choose|now: nat|
                claims_view(accepted) == #[trigger] accepted_session(
                    token@,
                    secret@,
                    now,
                ) && was_read_at(token@, secret@, now);
            assert(accepted matches Some(claims) ==> claims.sub@ == SUPER_ADMIN@ ==> bears_session(
                header_contents(*headers),
                secret@,
                claims.exp,
            ));
            let session = let_in(accepted);
            assert(session_view(session) == session_at(header_contents(*headers), secret@, now));
            session
        },
        None => {
            let session = Err(error_response(Status::Unauthorized, "Sesi tidak valid."));
            assert(session_view(session) == session_at(header_contents(*headers), secret@, 0));
            session
        },
    }
}

/// The token of a session that starts at `now`.
pub open spec fn issued_token(secret: Seq<char>, now: int) -> Option<Seq<char>> {
    match expiry(now) {
        Some(exp) => jwt_encoding(SUPER_ADMIN@, exp, secret),
        None => None,
    }
}

/// Whether a token is that of a session of the super admin that starts at `now`.
pub open spec fn session_starts(token: Seq<char>, secret: Seq<char>, now: int) -> bool {
    &&& is_token_text(token)
    &&& expiry(now) matches Some(exp)
    &&& lasts(token, secret, ClaimsView { sub: SUPER_ADMIN@, exp })
}

/// Issues the token of a session that starts at `now`. The token is taken for the session of
/// the super admin until it expires.
pub fn issue_token(secret: &str, now: i64) -> (token: Option<String>)
    requires
        in_calendar(now as int),
    ensures
        token is Some <==> issued_token(secret@, now as int) is Some,
        token matches Some(t) ==> issued_token(secret@, now as int) == Some(t@),
        token matches Some(t) ==> session_starts(t@, secret@, now as int),
{
    match session_expiry(now) {
        Some(exp) => {
            let claims = Claims { sub: SUPER_ADMIN.to_string(), exp };
            match encode_token(&claims, secret) {
                Ok(token) => {
                    proof {
                        lemma_session_claims(SUPER_ADMIN@, exp);
                    }
                    Some(token)
                },
                Err(_) => None,
            }
        },
        None => None,
    }
}

/// Reading the claims of a session gives the session back.
pub proof fn lemma_session_claims(sub: Seq<char>, exp: usize)
    ensures
        session_of(session_claims(sub, exp)) == Some(ClaimsView { sub, exp }),
{
    reveal_strlit("sub");
    reveal_strlit("exp");
    let claims = session_claims(sub, exp);
    assert("exp"@[0] != "sub"@[0]);
    assert(claims.drop_first().first() == claims[1]);
    reveal_with_fuel(claim_value, 3);
}

/// The secret that tokens are signed under, by what the environment says of it.
pub open spec fn secret_of(variable: Option<Seq<char>>) -> Seq<char> {
    match variable {
        Some(secret) => secret,
        None => "secret_default"@,
    }
}

/// Picks the secret that tokens are signed under.
pub fn jwt_secret(variable: Option<String>) -> (secret: String)
    ensures
        variable matches Some(v) ==> secret@ == secret_of(Some(v@)),
        variable is None ==> secret@ == secret_of(None),
{
    match variable {
        Some(secret) => secret,
        None => "secret_default".to_string(),
    }
}

} // verus!
