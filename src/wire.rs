//! The messages exchanged with the daemon: the request that carries the
//! caller's context, and the response that carries an identity or an error.
use vstd::prelude::*;

use crate::error::GetMyIdError;
use crate::json::{
    decimal, decimal_text, find_member, find_string, member, members_view, missing_member_error,
    object_members_of, parse_object, parse_string, string_literal_of, string_member, text_is,
    write_string,
};
use crate::types::{
    extra_members, is_runner_key, parse_runner, runner_from_members, runner_of, Identity,
    IdentityView, Runner, RunnerRequest,
};

verus! {

/// What a response text decodes to.
pub enum Decoded {
    Identity(IdentityView),
    DaemonError { code: Seq<char>, message: Seq<char> },
    MissingField(Seq<char>),
    InvalidJson,
}

/// The identity that the members of a success document describe: four string
/// members and a runner object.
pub open spec fn success_of(ms: Seq<(Seq<char>, Seq<char>)>) -> Option<IdentityView> {
    match (
        string_member(ms, "identity"@),
        string_member(ms, "idm_url"@),
        string_member(ms, "config_url"@),
        string_member(ms, "token"@),
        member(ms, "runner"@),
    ) {
        (Some(identity), Some(idm_url), Some(config_url), Some(token), Some(raw)) => match runner_of(
            raw,
        ) {
            Some(runner) => Some(IdentityView { identity, idm_url, config_url, token, runner }),
            None => None,
        },
        _ => None,
    }
}

/// The code and message of an error document: two string members.
pub open spec fn error_of(ms: Seq<(Seq<char>, Seq<char>)>) -> Option<(Seq<char>, Seq<char>)> {
    match (string_member(ms, "error_code"@), string_member(ms, "message"@)) {
        (Some(code), Some(message)) => Some((code, message)),
        _ => None,
    }
}

/// How a response text decodes. It must be a JSON object with a string
/// `status`. Under `"ok"` the success members are read, and their absence is
/// reported as a missing `identity`; under any other status the error members
/// are read, and their absence is reported as a missing `error_code`.
pub open spec fn decoded(text: Seq<char>) -> Decoded {
    match object_members_of(text) {
        None => Decoded::InvalidJson,
        Some(ms) => decoded_members(ms),
    }
}

/// How the members of a response object decode (see [`decoded`]).
pub open spec fn decoded_members(ms: Seq<(Seq<char>, Seq<char>)>) -> Decoded {
    match string_member(ms, "status"@) {
        None => Decoded::InvalidJson,
        Some(status) => if status == "ok"@ {
            match success_of(ms) {
                Some(id) => Decoded::Identity(id),
                None => Decoded::MissingField("identity"@),
            }
        } else {
            match error_of(ms) {
                Some((code, message)) => Decoded::DaemonError { code, message },
                None => Decoded::MissingField("error_code"@),
            }
        },
    }
}

/// Every member of a runner object without a field of its own is among the
/// runner's extra members, unchanged.
pub proof fn lemma_extra_member_kept(ms: Seq<(Seq<char>, Seq<char>)>, i: int)
    requires
        0 <= i < ms.len(),
        !is_runner_key(ms[i].0),
    ensures
        extra_members(ms).contains(ms[i]),
    decreases ms.len(),
{
    let rest = extra_members(ms.drop_last());
    if i == ms.len() - 1 {
        assert(extra_members(ms) == rest.push(ms.last()));
        assert(extra_members(ms)[rest.len() as int] == ms[i]);
    } else {
        lemma_extra_member_kept(ms.drop_last(), i);
        assert(ms.drop_last()[i] == ms[i]);
        let k = choose|k: int| 0 <= k < rest.len() && rest[k] == ms[i];
        if !is_runner_key(ms.last().0) {
            assert(extra_members(ms)[k] == ms[i]);
        }
    }
}

/// A document with status `"ok"` and every success member decodes to an
/// identity that holds those members unchanged: the four strings, the runner
/// read from its object, and each member of that object without a field of
/// its own among the runner's extra members.
pub proof fn lemma_success_lossless(
    text: Seq<char>,
    ms: Seq<(Seq<char>, Seq<char>)>,
    rms: Seq<(Seq<char>, Seq<char>)>,
)
    requires
        object_members_of(text) == Some(ms),
        string_member(ms, "status"@) == Some("ok"@),
        string_member(ms, "identity"@) is Some,
        string_member(ms, "idm_url"@) is Some,
        string_member(ms, "config_url"@) is Some,
        string_member(ms, "token"@) is Some,
        member(ms, "runner"@) is Some,
        object_members_of(member(ms, "runner"@).unwrap()) == Some(rms),
        runner_from_members(rms) is Some,
    ensures
        decoded(text) matches Decoded::Identity(id) && {
            &&& Some(id.identity) == string_member(ms, "identity"@)
            &&& Some(id.idm_url) == string_member(ms, "idm_url"@)
            &&& Some(id.config_url) == string_member(ms, "config_url"@)
            &&& Some(id.token) == string_member(ms, "token"@)
            &&& Some(id.runner) == runner_from_members(rms)
            &&& forall|i: int|
                0 <= i < rms.len() && !is_runner_key(rms[i].0) ==> id.runner.extra.contains(
                    #[trigger] rms[i],
                )
        },
{
    assert forall|i: int| 0 <= i < rms.len() && !is_runner_key(rms[i].0) implies extra_members(
        rms,
    ).contains(#[trigger] rms[i]) by {
        lemma_extra_member_kept(rms, i);
    }
}

/// A document with status `"error"` and both error members decodes to the
/// daemon's error, with its code and message unchanged.
pub proof fn lemma_daemon_error_kept(text: Seq<char>, ms: Seq<(Seq<char>, Seq<char>)>)
    requires
        object_members_of(text) == Some(ms),
        string_member(ms, "status"@) == Some("error"@),
        error_of(ms) is Some,
    ensures
        decoded(text) == (Decoded::DaemonError {
            code: error_of(ms).unwrap().0,
            message: error_of(ms).unwrap().1,
        }),
{
    reveal_strlit("ok");
    reveal_strlit("error");
    assert("error"@ != "ok"@) by {
        assert("error"@[0] != "ok"@[0]);
    }
}

/// A text that is not one JSON object decodes to invalid JSON, and to nothing
/// else.
pub proof fn lemma_not_json_rejected(text: Seq<char>)
    requires
        object_members_of(text) is None,
    ensures
        decoded(text) is InvalidJson,
{
}

/// A document with status `"ok"` whose members have the error shape, and not
/// the success shape, decodes to a missing `identity`.
pub proof fn lemma_ok_with_error_shape(text: Seq<char>, ms: Seq<(Seq<char>, Seq<char>)>)
    requires
        object_members_of(text) == Some(ms),
        string_member(ms, "status"@) == Some("ok"@),
        error_of(ms) is Some,
        success_of(ms) is None,
    ensures
        decoded(text) == Decoded::MissingField("identity"@),
{
}

/// A document with a status other than `"ok"` whose members lack the error
/// shape decodes to a missing `error_code`.
pub proof fn lemma_error_without_error_shape(
    text: Seq<char>,
    ms: Seq<(Seq<char>, Seq<char>)>,
    status: Seq<char>,
)
    requires
        object_members_of(text) == Some(ms),
        string_member(ms, "status"@) == Some(status),
        status != "ok"@,
        error_of(ms) is None,
    ensures
        decoded(text) == Decoded::MissingField("error_code"@),
{
}

/// `r` is the outcome that `d` describes.
pub open spec fn outcome_is(r: Result<Identity, GetMyIdError>, d: Decoded) -> bool {
    match r {
        Ok(id) => d == Decoded::Identity(id@),
        Err(GetMyIdError::InvalidJson(_)) => d is InvalidJson,
        Err(GetMyIdError::DaemonError { code, message }) => d == Decoded::DaemonError {
            code: code@,
            message: message@,
        },
        Err(GetMyIdError::MissingField { field }) => d == Decoded::MissingField(field@),
        Err(_) => false,
    }
}

/// Decodes the daemon's response text into an identity or an error.
pub fn parse_response(response: &str) -> (r: Result<Identity, GetMyIdError>)
    ensures
        outcome_is(r, decoded(response@)),
{
    match parse_object(response) {
        Ok(ms) => decode_members(&ms),
        Err(e) => Err(GetMyIdError::InvalidJson(e)),
    }
}

/// Decodes the members of a response object (each key with the JSON text of
/// its value) into an identity or an error.
pub fn decode_members(ms: &Vec<(String, String)>) -> (r: Result<Identity, GetMyIdError>)
    ensures
        outcome_is(r, decoded_members(members_view(ms@))),
{
    let status = match find_member(ms, "status") {
        Some(i) => match parse_string(ms[i].1.as_str()) {
            Ok(s) => s,
            Err(e) => return Err(GetMyIdError::InvalidJson(e)),
        },
        None => return Err(GetMyIdError::InvalidJson(missing_member_error("status"))),
    };
    if !text_is(&status, "ok") {
        let code = find_string(ms, "error_code");
        let message = find_string(ms, "message");
        return match (code, message) {
            (Some(code), Some(message)) => Err(GetMyIdError::DaemonError { code, message }),
            _ => Err(GetMyIdError::MissingField { field: "error_code" }),
        };
    }
    let identity = find_string(ms, "identity");
    let idm_url = find_string(ms, "idm_url");
    let config_url = find_string(ms, "config_url");
    let token = find_string(ms, "token");
    let runner: Option<Runner> = match find_member(ms, "runner") {
        Some(i) => parse_runner(ms[i].1.as_str()),
        None => None,
    };
    match (identity, idm_url, config_url, token, runner) {
        (Some(identity), Some(idm_url), Some(config_url), Some(token), Some(runner)) => {
            Ok(Identity { identity, idm_url, config_url, token, runner })
        },
        _ => Err(GetMyIdError::MissingField { field: "identity" }),
    }
}

/// Strings as plain sequences.
pub open spec fn texts_view(v: Seq<String>) -> Seq<Seq<char>> {
    v.map_values(|s: String| s@)
}

/// The parts separated by commas.
pub open spec fn joined(parts: Seq<Seq<char>>) -> Seq<char>
    decreases parts.len(),
{
    if parts.len() == 0 {
        Seq::empty()
    } else if parts.len() == 1 {
        parts[0]
    } else {
        joined(parts.drop_last()) + ","@ + parts.last()
    }
}

/// The JSON text of each custom member: its key as a string literal, a colon,
/// and its value text.
pub open spec fn custom_members(ms: Seq<(Seq<char>, Seq<char>)>) -> Seq<Seq<char>> {
    ms.map_values(|m: (Seq<char>, Seq<char>)| string_literal_of(m.0) + ":"@ + m.1)
}

/// The JSON text of a number member.
pub open spec fn number_member(name: Seq<char>, n: Option<u64>) -> Seq<Seq<char>> {
    match n {
        Some(v) => seq![name + decimal(v as nat)],
        None => Seq::empty(),
    }
}

/// The members of a request object: the instance identifier and the
/// timestamp where they are set, then the custom members in order.
pub open spec fn request_members(req: RunnerRequest) -> Seq<Seq<char>> {
    number_member("\"instance_id\":"@, req.instance_id) + number_member(
        "\"timestamp\":"@,
        req.timestamp,
    ) + custom_members(members_view(req.extra@))
}

/// The request text: the request object under the single key `runner`.
pub open spec fn request_text(req: RunnerRequest) -> Seq<char> {
    "{\"runner\":{"@ + joined(request_members(req)) + "}}"@
}

fn join_texts(parts: &Vec<String>) -> (r: String)
    ensures
        r@ == joined(texts_view(parts@)),
{
    let ghost pv = texts_view(parts@);
    let mut out = String::new();
    let mut i: usize = 0;
    while i < parts.len()
        invariant
            i <= parts@.len(),
            pv == texts_view(parts@),
            out@ == joined(pv.subrange(0, i as int)),
        decreases parts@.len() - i,
    {
        let ghost sub = pv.subrange(0, i + 1);
        assert(sub.drop_last() =~= pv.subrange(0, i as int));
        if i > 0 {
            out.append(",");
        }
        out.append(parts[i].as_str());
        assert(out@ =~= joined(sub));
        i = i + 1;
    }
    assert(pv.subrange(0, parts@.len() as int) =~= pv);
    out
}

fn push_number_member(parts: &mut Vec<String>, name: &str, n: Option<u64>)
    ensures
        texts_view(final(parts)@) == texts_view(old(parts)@) + number_member(name@, n),
{
    if let Some(v) = n {
        let mut p = String::from_str(name);
        let digits = decimal_text(v);
        p.append(digits.as_str());
        parts.push(p);
        assert(texts_view(parts@) =~= texts_view(old(parts)@) + number_member(name@, n));
    } else {
        assert(texts_view(parts@) =~= texts_view(old(parts)@) + number_member(name@, n));
    }
}

/// The text sent to the daemon to hand it the caller's context.
pub fn request_body(runner: &RunnerRequest) -> (r: String)
    ensures
        r@ == request_text(*runner),
{
    let mut parts: Vec<String> = Vec::new();
    push_number_member(&mut parts, "\"instance_id\":", runner.instance_id);
    push_number_member(&mut parts, "\"timestamp\":", runner.timestamp);
    let ghost head = texts_view(parts@);
    let ghost mv = members_view(runner.extra@);
    let mut i: usize = 0;
    assert(mv.subrange(0, 0) =~= Seq::<(Seq<char>, Seq<char>)>::empty());
    assert(head + custom_members(mv.subrange(0, 0)) =~= head);
    while i < runner.extra.len()
        invariant
            i <= runner.extra@.len(),
            mv == members_view(runner.extra@),
            texts_view(parts@) == head + custom_members(mv.subrange(0, i as int)),
        decreases runner.extra@.len() - i,
    {
        let mut p = match write_string(runner.extra[i].0.as_str()) {
            Ok(t) => t,
            Err(_) => String::new(),
        };
        p.append(":");
        p.append(runner.extra[i].1.as_str());
        let ghost before = texts_view(parts@);
        parts.push(p);
        assert(custom_members(mv.subrange(0, i + 1)) =~= custom_members(
            mv.subrange(0, i as int),
        ).push(p@));
        assert(texts_view(parts@) =~= before.push(p@));
        i = i + 1;
    }
    assert(mv.subrange(0, runner.extra@.len() as int) =~= mv);
    let body = join_texts(&parts);
    let mut out = String::from_str("{\"runner\":{");
    out.append(body.as_str());
    out.append("}}");
    out
}

} // verus!
