//! What holds of sessions: who is let in, by which token, and for how long.
use super::replies::{fails_with, lemma_reply_headers, spells};
use super::text::{is_blank, is_core, trimming_cuts_off_white_space};
use crate::clock::session_expiry;
use crate::headers::{
    all_visible, header_contents, header_text, read_header, visible, HeaderContents,
};
use crate::reply::{Reply, Status};
use crate::session::{
    accept_token, accepted_session, bearer_token, claim_value, claims_of, claims_view, decode_token,
    decoded, issue_token, issued_token, jwt_decoding, jwt_encoding, let_in, read_bearer_token,
    read_session, session_at, session_of, session_until, session_view,
    tokens_are_read_by_decoding, verify_super_admin, was_judged_at, was_read_at, Claim, ClaimValue,
    ClaimValueView, Claims, SessionView,
};
use axum::http::HeaderMap;
use vstd::prelude::*;

verus! {

// The token that a request bears.

/// Whether the first value of a header is made of printable ASCII and tabs alone.
pub open spec fn is_readable(headers: HeaderContents, name: Seq<char>) -> bool {
    &&& headers.contains_key(name)
    &&& forall|i: int|
        0 <= i < headers[name][0].len() ==> {
            ||| 32 <= #[trigger] headers[name][0][i] <= 126
            ||| headers[name][0][i] == 9
        }
}

/// Whether bytes start with `Bearer` and a space.
pub open spec fn starts_with_bearer(bytes: Seq<u8>) -> bool {
    &&& bytes.len() >= 7
    &&& bytes[0] == 66
    &&& bytes[1] == 101
    &&& bytes[2] == 97
    &&& bytes[3] == 114
    &&& bytes[4] == 101
    &&& bytes[5] == 114
    &&& bytes[6] == 32
}

/// Whether a byte is a space or a tab.
pub open spec fn is_gap(byte: u8) -> bool {
    byte == 32 || byte == 9
}

/// Whether the bytes from `i` up to `j` spell the token, what stands between `Bearer ` and them
/// and what follows them are spaces and tabs, and they neither start nor end with one.
pub open spec fn holds_token(bytes: Seq<u8>, token: Seq<char>, i: int, j: int) -> bool {
    &&& 7 <= i <= j <= bytes.len()
    &&& spells(bytes.subrange(i, j), token)
    &&& forall|k: int| 7 <= k < i ==> is_gap(#[trigger] bytes[k])
    &&& forall|k: int| j <= k < bytes.len() ==> is_gap(#[trigger] bytes[k])
    &&& i < j ==> !is_gap(bytes[i]) && !is_gap(bytes[j - 1])
}

/// A header is read as text if and only if it is readable, and the text is what its bytes spell.
pub proof fn headers_are_read_as_text(headers: HeaderContents, name: Seq<char>)
    ensures
        header_text(headers, name) is Some <==> is_readable(headers, name),
        header_text(headers, name) matches Some(text) ==> spells(headers[name][0], text),
{
    let bytes = headers[name][0];
    if is_readable(headers, name) {
        assert forall|i: int| 0 <= i < bytes.len() implies visible(#[trigger] bytes[i]) by {
            assert(32 <= headers[name][0][i] <= 126 || headers[name][0][i] == 9);
        }
    } else if headers.contains_key(name) {
        if all_visible(bytes) {
            assert forall|i: int| 0 <= i < headers[name][0].len() implies {
                ||| 32 <= #[trigger] headers[name][0][i] <= 126
                ||| headers[name][0][i] == 9
            } by {
                assert(visible(bytes[i]));
            }
        }
    }
}

/// A request bears a token if and only if its header `Authorization` is readable and starts with
/// `Bearer `, and the token is the rest of it without the spaces and tabs at either end.
pub proof fn tokens_stand_behind_bearer(headers: HeaderContents)
    ensures
        bearer_token(headers) is Some <==> is_readable(headers, "authorization"@)
            && starts_with_bearer(headers["authorization"@][0]),
        bearer_token(headers) matches Some(token) ==> exists|i: int, j: int|
            holds_token(headers["authorization"@][0], token, i, j),
{
    headers_are_read_as_text(headers, "authorization"@);
    reveal_strlit("Bearer ");
    let bytes = headers["authorization"@][0];
    if let Some(text) = header_text(headers, "authorization"@) {
        assert(forall|i: int| 0 <= i < text.len() ==> #[trigger] bytes[i] as int == text[i] as int);
        if starts_with_bearer(bytes) {
            assert(text.subrange(0, 7) =~= "Bearer "@);
            assert("Bearer "@.is_prefix_of(text));
        } else if "Bearer "@.is_prefix_of(text) {
            assert(text.subrange(0, 7) =~= "Bearer "@);
            assert forall|i: int| 0 <= i < 7 implies #[trigger] bytes[i] as int
                == "Bearer "@[i] as int by {
                assert(text.subrange(0, 7)[i] == text[i]);
            }
            assert(bytes[0] == 66);
            assert(false);
        }
        if let Some(token) = bearer_token(headers) {
            let rest = text.skip(7);
            trimming_cuts_off_white_space(rest);
            let (i, j) = choose|i: int, j: int| is_core(rest, token, i, j);
            assert forall|k: int| 0 <= k < rest.len() implies #[trigger] is_blank(rest[k]) == is_gap(
                bytes[k + 7],
            ) by {
                assert(bytes[k + 7] as int == text[k + 7] as int);
            }
            assert forall|k: int| 7 <= k < i + 7 implies is_gap(#[trigger] bytes[k]) by {
                assert(is_blank(rest[k - 7]));
            }
            assert forall|k: int| j + 7 <= k < bytes.len() implies is_gap(#[trigger] bytes[k]) by {
                assert(is_blank(rest[k - 7]));
            }
            assert forall|k: int| 0 <= k < token.len() implies #[trigger] bytes.subrange(
                i + 7,
                j + 7,
            )[k] as int == token[k] as int by {
                assert(token[k] == rest[i + k]);
            }
            if i < j {
                assert(is_blank(rest[i]) == is_gap(bytes[i + 7]));
                assert(is_blank(rest[j - 1]) == is_gap(bytes[j - 1 + 7]));
            }
            assert(holds_token(bytes, token, i + 7, j + 7));
        }
    }
}

/// What `read_header` and `read_bearer_token` read of a request is what stands in its headers.
pub proof fn requests_are_read_as_they_stand(
    headers: &HeaderMap,
    name: &str,
    text: Option<String>,
    token: Option<String>,
)
    requires
        call_ensures(read_header, (headers, name), text),
        call_ensures(read_bearer_token, (headers,), token),
    ensures
        text is Some <==> is_readable(header_contents(*headers), name@),
        text matches Some(t) ==> spells(header_contents(*headers)[name@][0], t@),
        token is Some <==> is_readable(header_contents(*headers), "authorization"@)
            && starts_with_bearer(header_contents(*headers)["authorization"@][0]),
        token matches Some(t) ==> exists|i: int, j: int|
            holds_token(header_contents(*headers)["authorization"@][0], t@, i, j),
{
    headers_are_read_as_text(header_contents(*headers), name@);
    tokens_stand_behind_bearer(header_contents(*headers));
}

// The session that a token is taken for.

/// Whether `value` is the first claim of a name.
pub open spec fn claims_first(
    claims: Seq<(Seq<char>, ClaimValueView)>,
    name: Seq<char>,
    value: ClaimValueView,
) -> bool {
    exists|i: int|
        0 <= i < claims.len() && #[trigger] claims[i] == (name, value) && forall|j: int|
            0 <= j < i ==> (#[trigger] claims[j]).0 != name
}

/// Whether claims are those of a session: a subject that is text, and an expiry that is a whole
/// number of a machine word.
pub open spec fn claims_session(
    claims: Seq<(Seq<char>, ClaimValueView)>,
    sub: Seq<char>,
    exp: u64,
) -> bool {
    &&& claims_first(claims, "sub"@, ClaimValueView::Text(sub))
    &&& claims_first(claims, "exp"@, ClaimValueView::Number(Some(exp)))
    &&& exp <= usize::MAX
}

/// The value of a claim is that of the first of its name.
proof fn lemma_claim_value(
    claims: Seq<(Seq<char>, ClaimValueView)>,
    name: Seq<char>,
    value: ClaimValueView,
)
    ensures
        claim_value(claims, name) == Some(value) <==> claims_first(claims, name, value),
    decreases claims.len(),
{
    if claims.len() > 0 {
        let rest = claims.drop_first();
        lemma_claim_value(rest, name, value);
        assert(forall|i: int| 0 < i < claims.len() ==> #[trigger] claims[i] == rest[i - 1]);
        if claims.first().0 == name {
            assert(claims[0].0 == name);
            if claims.first().1 == value {
                assert(claims[0] == (name, value));
            }
        } else {
            if claims_first(rest, name, value) {
                let i = choose|i: int|
                    0 <= i < rest.len() && #[trigger] rest[i] == (name, value) && forall|j: int|
                        0 <= j < i ==> (#[trigger] rest[j]).0 != name;
                assert(claims[i + 1] == (name, value));
            }
            if claims_first(claims, name, value) {
                let i = choose|i: int|
                    0 <= i < claims.len() && #[trigger] claims[i] == (name, value) && forall|
                        j: int,
                    |
                        0 <= j < i ==> (#[trigger] claims[j]).0 != name;
                assert(rest[i - 1] == (name, value));
                assert forall|j: int| 0 <= j < i - 1 implies (#[trigger] rest[j]).0 != name by {
                    assert(claims[j + 1].0 != name);
                }
            }
        }
    }
}

/// Claims are read as a session if and only if they are those of one, and as that one.
pub proof fn sessions_are_read_from_claims(claims: Seq<(Seq<char>, ClaimValueView)>)
    ensures
        session_of(claims) matches Some(s) ==> claims_session(claims, s.sub, s.exp as u64),
        forall|sub: Seq<char>, exp: u64| #[trigger]
            claims_session(claims, sub, exp) ==> (session_of(claims) matches Some(s) && s.sub == sub
                && s.exp == exp),
{
    if let Some(s) = session_of(claims) {
        lemma_claim_value(claims, "sub"@, ClaimValueView::Text(s.sub));
        lemma_claim_value(claims, "exp"@, ClaimValueView::Number(Some(s.exp as u64)));
    }
    assert forall|sub: Seq<char>, exp: u64| #[trigger] claims_session(claims, sub, exp) implies (
    session_of(claims) matches Some(s) && s.sub == sub && s.exp == exp) by {
        lemma_claim_value(claims, "sub"@, ClaimValueView::Text(sub));
        lemma_claim_value(claims, "exp"@, ClaimValueView::Number(Some(exp)));
    }
}

/// Whether a request is refused with the given status and text.
pub open spec fn is_refused(session: SessionView, status: Status, text: Seq<char>) -> bool {
    session matches Err(refusal) && fails_with(refusal, status, text)
}

/// Who is let in. Without a token nobody is. A token has to be one that decodes, with a leeway
/// of a minute, to the claims of a session. Of the sessions, only those of the super admin are
/// let in.
pub proof fn requests_are_let_in_by_their_claims(
    headers: HeaderContents,
    secret: Seq<char>,
    now: nat,
    sub: Seq<char>,
    exp: u64,
)
    ensures
        bearer_token(headers) is None ==> is_refused(
            session_at(headers, secret, now),
            Status::Unauthorized,
            "Sesi tidak valid."@,
        ),
        bearer_token(headers) matches Some(token) ==> match jwt_decoding(token, secret, 60, now) {
            Some(claims) => {
                &&& claims_session(claims, sub, exp) && sub == "SUPER-BOSS"@ ==> session_at(
                    headers,
                    secret,
                    now,
                ) == SessionView::Ok(sub)
                &&& claims_session(claims, sub, exp) && sub != "SUPER-BOSS"@ ==> is_refused(
                    session_at(headers, secret, now),
                    Status::Forbidden,
                    "Akses Ditolak."@,
                )
                &&& (forall|s: Seq<char>, e: u64| !#[trigger] claims_session(claims, s, e))
                    ==> is_refused(
                    session_at(headers, secret, now),
                    Status::Unauthorized,
                    "Token kedaluarsa atau invalid."@,
                )
            },
            None => is_refused(
                session_at(headers, secret, now),
                Status::Unauthorized,
                "Token kedaluarsa atau invalid."@,
            ),
        },
{
    lemma_reply_headers();
    if let Some(token) = bearer_token(headers) {
        if let Some(claims) = jwt_decoding(token, secret, 60, now) {
            sessions_are_read_from_claims(claims);
        }
    }
}

/// What `verify_super_admin` returns is what the request is due at the time at which its token
/// was read.
pub proof fn verdicts_are_due_when_the_token_is_read(
    headers: &HeaderMap,
    secret: &str,
    session: Result<String, Reply>,
)
    requires
        call_ensures(verify_super_admin, (headers, secret), session),
    ensures
        exists|now: nat|
            was_judged_at(header_contents(*headers), secret@, now) && match (
                #[trigger] session_at(header_contents(*headers), secret@, now),
                session,
            ) {
                (Ok(due), Ok(subject)) => due == subject@,
                (Err(due), Err(refusal)) => due == refusal@,
                _ => false,
            },
{
    let now = choose|now: nat|
        session_view(session) == #[trigger] session_at(header_contents(*headers), secret@, now)
            && was_judged_at(header_contents(*headers), secret@, now);
    assert(session_view(session) == session_at(header_contents(*headers), secret@, now));
}

/// What `verify_super_admin` returns of a request with a token is decided by one decoding of that
/// token, under the given secret and with a leeway of a minute: where it gives the claims of a
/// session, their subject decides, and where it does not, the token is refused.
pub(crate) proof fn verdicts_rest_on_a_decoding(
    headers: &HeaderMap,
    secret: &str,
    session: Result<String, Reply>,
    token: Seq<char>,
)
    requires
        call_ensures(verify_super_admin, (headers, secret), session),
        bearer_token(header_contents(*headers)) == Some(token),
    ensures
        exists|t: &str, s: &str, claims: Result<Vec<Claim>, jsonwebtoken::errors::Error>|
            {
                &&& #[trigger] call_ensures(decode_token, (t, s, 60u64), claims)
                &&& t@ == token
                &&& s@ == secret@
                &&& verdict_follows(decoded(claims), session)
            },
{
    verdicts_are_due_when_the_token_is_read(headers, secret, session);
    let now = choose|now: nat|
        was_judged_at(header_contents(*headers), secret@, now) && match (
            #[trigger] session_at(header_contents(*headers), secret@, now),
            session,
        ) {
            (Ok(due), Ok(subject)) => due == subject@,
            (Err(due), Err(refusal)) => due == refusal@,
            _ => false,
        };
    tokens_are_read_by_decoding(token, secret@, now);
    let (t, s, claims) = choose|
        t: &str,
        s: &str,
        claims: Result<Vec<Claim>, jsonwebtoken::errors::Error>,
    |
        t@ == token && s@ == secret@ && decoded(claims) == jwt_decoding(token, secret@, 60, now)
            && #[trigger] call_ensures(decode_token, (t, s, 60u64), claims);
    lemma_reply_headers();
    if let Some(list) = decoded(claims) {
        sessions_are_read_from_claims(list);
    }
    assert(verdict_follows(decoded(claims), session));
}

/// Whether a verdict is the one that follows from the outcome of decoding a token.
pub open spec fn verdict_follows(
    outcome: Option<Seq<(Seq<char>, ClaimValueView)>>,
    session: Result<String, Reply>,
) -> bool {
    match session {
        Ok(subject) => {
            &&& subject@ == "SUPER-BOSS"@
            &&& outcome matches Some(claims)
            &&& exists|exp: u64| #[trigger] claims_session(claims, subject@, exp)
        },
        Err(refusal) => {
            ||| {
                &&& fails_with(refusal@, Status::Forbidden, "Akses Ditolak."@)
                &&& outcome matches Some(claims)
                &&& exists|sub: Seq<char>, exp: u64| #[trigger]
                    claims_session(claims, sub, exp) && sub != "SUPER-BOSS"@
            }
            ||| {
                &&& fails_with(
                    refusal@,
                    Status::Unauthorized,
                    "Token kedaluarsa atau invalid."@,
                )
                &&& outcome matches Some(claims) ==> forall|sub: Seq<char>, exp: u64| !#[trigger]
                    claims_session(claims, sub, exp)
            }
        },
    }
}

/// Whom `let_in` lets in: the super admin, under the name of the session, and nobody else.
pub proof fn the_super_admin_alone_is_let_in(
    accepted: Option<Claims>,
    session: Result<String, Reply>,
)
    requires
        call_ensures(let_in, (accepted,), session),
    ensures
        accepted matches Some(c) ==> (c.sub@ == "SUPER-BOSS"@ ==> (session matches Ok(s) && s@
            == "SUPER-BOSS"@)),
        accepted matches Some(c) ==> (c.sub@ != "SUPER-BOSS"@ ==> (session matches Err(r)
            && fails_with(r@, Status::Forbidden, "Akses Ditolak."@))),
        accepted is None ==> (session matches Err(r) && fails_with(
            r@,
            Status::Unauthorized,
            "Token kedaluarsa atau invalid."@,
        )),
{
    lemma_reply_headers();
}

/// What `read_session` reads: the session that the claims are those of, if they are.
pub proof fn claims_are_read_as_they_are(
    claims: &Vec<Claim>,
    shown: Seq<(Seq<char>, ClaimValueView)>,
    session: Option<Claims>,
)
    requires
        call_ensures(read_session, (claims,), session),
        shown.len() == claims.len(),
        forall|i: int| 0 <= i < claims.len() ==> #[trigger] shown[i] == claims@[i]@,
    ensures
        session matches Some(s) ==> claims_session(shown, s.sub@, s.exp as u64),
        session is None ==> forall|sub: Seq<char>, exp: u64| !#[trigger]
            claims_session(shown, sub, exp),
{
    assert(shown =~= claims_of(claims@));
    sessions_are_read_from_claims(shown);
}

/// Claims show in their views as they are.
pub proof fn views_of_claims(claims: Claims, claim: Claim)
    ensures
        claims@.sub == claims.sub@,
        claims@.exp == claims.exp,
        claim@.0 == claim.name@,
        claim.value matches ClaimValue::Text(text) ==> claim@.1 == ClaimValueView::Text(text@),
        claim.value matches ClaimValue::Number(n) ==> claim@.1 == ClaimValueView::Number(n),
        claim.value is Other ==> claim@.1 is Other,
{
}

/// How long a token that was taken is taken: from the first minute of 1970 on, until a minute
/// after its expiry, for a session of the same subject and expiry, and for nothing after that.
pub proof fn taken_tokens_end_a_minute_after_their_expiry(
    token: &str,
    secret: &str,
    accepted: Option<Claims>,
    now: nat,
)
    requires
        call_ensures(accept_token, (token, secret), accepted),
        now >= 60,
    ensures
        accepted matches Some(c) ==> (now <= c.exp + 60 ==> (jwt_decoding(
            token@,
            secret@,
            60,
            now,
        ) matches Some(claims) && claims_session(claims, c.sub@, c.exp as u64))),
        accepted matches Some(c) ==> (now > c.exp + 60 ==> accepted_session(
            token@,
            secret@,
            now,
        ) is None),
        accepted is None ==> exists|t: nat|
            was_read_at(token@, secret@, t) && match #[trigger] jwt_decoding(token@, secret@, 60, t) {
                Some(claims) => forall|sub: Seq<char>, exp: u64| !#[trigger]
                    claims_session(claims, sub, exp),
                None => true,
            },
{
    if let Some(c) = accepted {
        assert(accepted_session(token@, secret@, now) == session_until(c@, now));
        if let Some(claims) = jwt_decoding(token@, secret@, 60, now) {
            sessions_are_read_from_claims(claims);
        }
    } else {
        let t = choose|t: nat|
            claims_view(accepted) == #[trigger] accepted_session(
                token@,
                secret@,
                t,
            ) && was_read_at(token@, secret@, t);
        if let Some(claims) = jwt_decoding(token@, secret@, 60, t) {
            sessions_are_read_from_claims(claims);
        }
    }
}

// The start of a session.

/// When a session that starts at `now` expires: two hours later, as far as the calendar goes.
pub proof fn sessions_expire_after_two_hours(now: i64, exp: Option<usize>)
    requires
        call_ensures(session_expiry, (now,), exp),
    ensures
        now + 7200 <= 8_210_266_876_799 ==> exp == Some((now + 7200) as usize),
        now + 7200 > 8_210_266_876_799 ==> exp is None,
{
}

/// The token of a session names the super admin and the time two hours on.
proof fn lemma_issued_token(secret: Seq<char>, now: int)
    ensures
        issued_token(secret, now) == (if now + 7200 <= 8_210_266_876_799 {
            jwt_encoding("SUPER-BOSS"@, (now + 7200) as usize, secret)
        } else {
            None
        }),
{
}

/// The token that is issued for a session that starts at `now` is the one that encodes the super
/// admin's name and the time two hours on, under the given secret.
pub proof fn issued_tokens_name_the_super_admin(secret: &str, now: i64, token: Option<String>)
    requires
        call_ensures(issue_token, (secret, now), token),
        now + 7200 <= 8_210_266_876_799,
    ensures
        token matches Some(t) ==> jwt_encoding("SUPER-BOSS"@, (now + 7200) as usize, secret@)
            == Some(t@),
        token is None ==> jwt_encoding("SUPER-BOSS"@, (now + 7200) as usize, secret@) is None,
{
    lemma_issued_token(secret@, now as int);
}

} // verus!
