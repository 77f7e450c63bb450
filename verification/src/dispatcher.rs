//! Dispatcher: fans a due notification out to every configured endpoint and
//! collects one outcome per endpoint. Every target is attempted, whatever
//! happened to the targets before it, so a partial outage cannot mask
//! delivery to the others. In dry-run mode no network request is made and a
//! synthetic outcome is reported for each target.

use vstd::prelude::*;

verus! {

/// The HTTP client the notifications go out through.
#[verifier::external_type_specification]
#[verifier::external_body]
pub struct ExClient(reqwest::blocking::Client);

/// The transport error reqwest reports when no response was obtained.
#[verifier::external_type_specification]
#[verifier::external_body]
pub struct ExReqwestError(reqwest::Error);

/// The outcome of one send attempt to one target.
#[derive(Debug, Clone, PartialEq, Eq)]
pub enum Outcome {
    /// The target answered with a 2xx status.
    Success(u16),
    /// The target answered, but with a status outside 2xx.
    Rejected(u16),
    /// No response was obtained: DNS failure, connection refused, timeout.
    /// Carries the transport error's text.
    Unreachable(String),
    /// Dry run: no request was made; this target would have been sent to.
    WouldSend,
}

/// How a received status code is classified: 2xx is success, everything
/// else a rejection.
pub open spec fn spec_classify(code: u16) -> Outcome {
    if 200 <= code < 300 {
        Outcome::Success(code)
    } else {
        Outcome::Rejected(code)
    }
}

/// Classifies a received status code.
pub fn classify_status(code: u16) -> (r: Outcome)
    ensures
        r == spec_classify(code),
{
    if 200 <= code && code < 300 {
        Outcome::Success(code)
    } else {
        Outcome::Rejected(code)
    }
}

/// What the dispatcher may report for one target: a correctly classified
/// response, or unreachability — never a dry-run outcome.
pub open spec fn spec_live_outcome(o: Outcome) -> bool {
    match o {
        Outcome::Success(code) => 200 <= code < 300,
        Outcome::Rejected(code) => !(200 <= code < 300),
        Outcome::Unreachable(_) => true,
        Outcome::WouldSend => false,
    }
}

/// Relies on `reqwest::blocking::Client`: one HTTP POST of `message` to
/// `url`, answering the response's status code, or the transport error when
/// no response was obtained. The outcome depends on the network, so nothing
/// is promised of it.
#[verifier::external_body]
fn post_once(client: &reqwest::blocking::Client, url: &str, message: &str) -> Result<
    u16,
    reqwest::Error,
> {
    match client.post(url).body(message.to_owned()).send() {
        Ok(resp) => Ok(resp.status().as_u16()),
        Err(e) => Err(e),
    }
}

/// Relies on `reqwest::Error: Display`: the error rendered as text.
#[verifier::external_body]
fn transport_error_text(e: &reqwest::Error) -> String {
    e.to_string()
}

/// Sends `message` to every URL in `urls`, in order, collecting one outcome
/// per URL; a failed target never keeps a later target from being
/// attempted. In dry-run mode no request is made and every target reports
/// the synthetic dry-run outcome.
pub fn send_batsign(
    client: &reqwest::blocking::Client,
    urls: &Vec<String>,
    message: &String,
    dry_run: bool,
) -> (outcomes: Vec<Outcome>)
    ensures
        outcomes@.len() == urls@.len(),
        dry_run ==> forall|i: int| 0 <= i < outcomes@.len() ==> outcomes@[i] is WouldSend,
        !dry_run ==> forall|i: int|
            0 <= i < outcomes@.len() ==> spec_live_outcome(#[trigger] outcomes@[i]),
{
    let mut outcomes: Vec<Outcome> = Vec::new();
    let mut i: usize = 0;
    while i < urls.len()
        invariant
            i <= urls@.len(),
            outcomes@.len() == i,
            dry_run ==> forall|k: int| 0 <= k < i ==> outcomes@[k] is WouldSend,
            !dry_run ==> forall|k: int| 0 <= k < i ==> spec_live_outcome(#[trigger] outcomes@[k]),
        decreases urls@.len() - i,
    {
        if dry_run {
            outcomes.push(Outcome::WouldSend);
        } else {
            let outcome = match post_once(client, urls[i].as_str(), message.as_str()) {
                Ok(code) => classify_status(code),
                Err(e) => Outcome::Unreachable(transport_error_text(&e)),
            };
            outcomes.push(outcome);
        }
        i += 1;
    }
    outcomes
}

/// Whether at least one outcome in the list is a success.
pub fn any_success(outcomes: &Vec<Outcome>) -> (r: bool)
    ensures
        r == exists|i: int| 0 <= i < outcomes@.len() && (#[trigger] outcomes@[i]) is Success,
{
    let mut i: usize = 0;
    while i < outcomes.len()
        invariant
            i <= outcomes@.len(),
            forall|k: int| 0 <= k < i ==> !((#[trigger] outcomes@[k]) is Success),
        decreases outcomes@.len() - i,
    {
        if let Outcome::Success(_) = outcomes[i] {
            return true;
        }
        i += 1;
    }
    false
}

} // verus!
