//! What holds of replies and of the server's settings.
use crate::database::AnswerView;
use crate::flow::{StageView, StepView};
use crate::headers::HeaderContents;
use crate::reply::{
    error_headers, error_response, message_response, success_headers, success_response, Body,
    BodyView, Reply, ReplyView, Status,
};
use crate::server::{bind_address, global_headers, header_pair, next_step, PERMITS};
use crate::session::jwt_secret;
use vstd::prelude::*;

verus! {

/// Whether bytes spell a text of ASCII.
pub open spec fn spells(bytes: Seq<u8>, text: Seq<char>) -> bool {
    &&& bytes.len() == text.len()
    &&& forall|i: int| 0 <= i < text.len() ==> #[trigger] bytes[i] as int == text[i] as int
}

/// Whether headers are the listed ones and no others, each with its one value.
pub open spec fn are_exactly(
    headers: HeaderContents,
    list: Seq<(Seq<char>, Seq<char>)>,
) -> bool {
    &&& forall|name: Seq<char>| #[trigger]
        headers.contains_key(name) ==> exists|i: int|
            0 <= i < list.len() && (#[trigger] list[i]).0 == name
    &&& forall|i: int|
        0 <= i < list.len() ==> {
            let (name, text) = #[trigger] list[i];
            &&& headers.contains_key(name)
            &&& headers[name].len() == 1
            &&& spells(headers[name][0], text)
        }
}

/// The headers of a reply that reports success.
pub open spec fn headers_of_success() -> Seq<(Seq<char>, Seq<char>)> {
    seq![
        ("cache-control"@, "no-store, no-cache, must-revalidate, max-age=0"@),
        ("pragma"@, "no-cache"@),
        ("x-content-type-options"@, "nosniff"@),
        ("x-frame-options"@, "DENY"@),
        ("strict-transport-security"@, "max-age=31536000; includeSubDomains"@),
    ]
}

/// The headers of a reply that reports an error.
pub open spec fn headers_of_errors() -> Seq<(Seq<char>, Seq<char>)> {
    seq![
        ("cache-control"@, "no-store, no-cache, must-revalidate"@),
        ("x-content-type-options"@, "nosniff"@),
        ("x-frame-options"@, "DENY"@),
    ]
}

/// Whether a reply reports success with `body`.
pub open spec fn succeeds_with(reply: ReplyView, body: BodyView) -> bool {
    &&& reply.status == Status::Success
    &&& are_exactly(reply.headers, headers_of_success())
    &&& reply.body == body
}

/// Whether a reply reports an error of the given status and text.
pub open spec fn fails_with(reply: ReplyView, status: Status, text: Seq<char>) -> bool {
    &&& reply.status == status
    &&& are_exactly(reply.headers, headers_of_errors())
    &&& reply.body matches BodyView::Error { error }
    &&& error == text
}

/// The replies that report success and errors have the headers that are due to them.
pub(crate) proof fn lemma_reply_headers()
    ensures
        are_exactly(success_headers(), headers_of_success()),
        are_exactly(error_headers(), headers_of_errors()),
{
    reveal_strlit("cache-control");
    reveal_strlit("no-store, no-cache, must-revalidate, max-age=0");
    reveal_strlit("no-store, no-cache, must-revalidate");
    reveal_strlit("pragma");
    reveal_strlit("no-cache");
    reveal_strlit("x-content-type-options");
    reveal_strlit("nosniff");
    reveal_strlit("x-frame-options");
    reveal_strlit("DENY");
    reveal_strlit("strict-transport-security");
    reveal_strlit("max-age=31536000; includeSubDomains");
    let s = headers_of_success();
    assert(s[0].0 == "cache-control"@ && s[1].0 == "pragma"@ && s[2].0 == "x-content-type-options"@
        && s[3].0 == "x-frame-options"@ && s[4].0 == "strict-transport-security"@);
    let e = headers_of_errors();
    assert(e[0].0 == "cache-control"@ && e[1].0 == "x-content-type-options"@ && e[2].0
        == "x-frame-options"@);
}

/// What the three makers of replies make: success with the payload or the message that they are
/// given, and errors with the status and the text that they are given.
pub proof fn replies_say_what_they_are_given(
    payload: Body,
    success: Reply,
    text: &str,
    told: Reply,
    status: Status,
    failed: Reply,
)
    requires
        call_ensures(success_response, (payload,), success),
        call_ensures(message_response, (text,), told),
        call_ensures(error_response, (status, text), failed),
    ensures
        succeeds_with(success@, payload@),
        succeeds_with(told@, BodyView::Message { message: text@ }),
        fails_with(failed@, status, text@),
{
    lemma_reply_headers();
}

/// Every reply that ends the work on a request carries the headers of its status and no others.
pub proof fn replies_carry_their_headers(stage: StageView, answer: AnswerView, now: int)
    ensures
        next_step(stage, answer, now) matches StepView::Done(reply) ==> are_exactly(
            reply.headers,
            if reply.status == Status::Success {
                headers_of_success()
            } else {
                headers_of_errors()
            },
        ),
{
    lemma_reply_headers();
}

/// The numbers of the statuses are those of HTTP.
pub proof fn statuses_have_their_numbers(status: Status, code: u16)
    requires
        call_ensures(Status::code, (status,), code),
    ensures
        status == Status::Success <==> code == 200,
        status == Status::BadRequest <==> code == 400,
        status == Status::Unauthorized <==> code == 401,
        status == Status::Forbidden <==> code == 403,
        status == Status::NotFound <==> code == 404,
        status == Status::Conflict <==> code == 409,
        status == Status::InternalServerError <==> code == 500,
        status == Status::ServiceUnavailable <==> code == 503,
{
}

/// The secret is the one that the environment names, whatever it is, or the default.
pub proof fn the_secret_is_the_one_given(variable: Option<String>, secret: String)
    requires
        call_ensures(jwt_secret, (variable,), secret),
    ensures
        variable matches Some(v) ==> secret@ == v@,
        variable is None ==> secret@ == "secret_default"@,
{
}

/// The server listens on every interface, on the port that the environment names or on 8000.
pub proof fn the_address_ends_in_the_port(port: Option<String>, address: String)
    requires
        call_ensures(bind_address, (port,), address),
    ensures
        port matches Some(p) ==> address@ == "0.0.0.0:"@ + p@,
        port is None ==> address@ == "0.0.0.0:"@ + "8000"@,
{
}

/// Five requests at a time use the database.
pub proof fn five_permits()
    ensures
        PERMITS == 5,
{
}

/// The headers of every response are these four, in this order.
pub proof fn every_response_is_protected(list: Vec<(&'static str, &'static str)>)
    requires
        call_ensures(global_headers, (), list),
    ensures
        list.len() == 4,
        list@[0].0@ == "x-content-type-options"@ && list@[0].1@ == "nosniff"@,
        list@[1].0@ == "x-frame-options"@ && list@[1].1@ == "DENY"@,
        list@[2].0@ == "strict-transport-security"@,
        list@[2].1@ == "max-age=31536000; includeSubDomains"@,
        list@[3].0@ == "x-xss-protection"@ && list@[3].1@ == "1; mode=block"@,
{
    let pairs = list@.map_values(|h: (&'static str, &'static str)| header_pair(h));
    assert(pairs.len() == list.len());
    assert(forall|i: int| 0 <= i < list.len() ==> #[trigger] pairs[i] == (list@[i].0@, list@[i].1@));
    assert(pairs[0] == ("x-content-type-options"@, "nosniff"@));
    assert(pairs[1] == ("x-frame-options"@, "DENY"@));
    assert(pairs[2] == ("strict-transport-security"@, "max-age=31536000; includeSubDomains"@));
    assert(pairs[3] == ("x-xss-protection"@, "1; mode=block"@));
}

} // verus!
