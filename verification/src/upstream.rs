//! The upstream deployment query, reduced to plain values: the request URL,
//! the outcome of the call, and its classification into a status string.

use vstd::prelude::*;

verus! {

/// What the upstream query came to, as plain values. Either the transport
/// failed outright, or a response arrived with its HTTP status code and,
/// once the body was decoded, the status field of each deployment entry in
/// order. `None` stands for a body whose shape could not be decoded.
pub enum UpstreamOutcome {
    Offline,
    Response { code: u16, deployments: Option<Vec<String>> },
}

/// The status string for an upstream outcome.
///
/// A transport failure is `offline`; a response with HTTP status 401 is
/// `unauthorized` before the body is even considered; otherwise an
/// undecodable body is `parse_error`, an empty deployment list is
/// `no_history`, and a non-empty list reports its first entry's status
/// verbatim.
pub open spec fn classification(o: UpstreamOutcome) -> Seq<char> {
    match o {
        UpstreamOutcome::Offline => "offline"@,
        UpstreamOutcome::Response { code, deployments } => if code == 401 {
            "unauthorized"@
        } else {
            match deployments {
                Option::None => "parse_error"@,
                Option::Some(list) => if list@.len() == 0 {
                    "no_history"@
                } else {
                    list@[0]@
                },
            }
        },
    }
}

/// Classifies an upstream outcome into its status string.
pub fn classify(o: &UpstreamOutcome) -> (r: String)
    ensures
        r@ == classification(*o),
{
    match o {
        UpstreamOutcome::Offline => String::from_str("offline"),
        UpstreamOutcome::Response { code, deployments } => {
            if *code == 401 {
                String::from_str("unauthorized")
            } else {
                match deployments {
                    Option::None => String::from_str("parse_error"),
                    Option::Some(list) => {
                        if list.len() == 0 {
                            String::from_str("no_history")
                        } else {
                            list[0].clone()
                        }
                    },
                }
            }
        },
    }
}

/// The URL of the upstream query for one application: the configured base
/// followed by the fixed deployments path and the raw application identifier.
pub fn upstream_url(base: &str, application_id: &str) -> (r: String)
    ensures
        r@ == base@ + "/api/v1/deployments/applications/"@ + application_id@,
{
    let mut url = String::from_str(base);
    url.append("/api/v1/deployments/applications/");
    url.append(application_id);
    url
}

/// A response with HTTP status 401 is classified `unauthorized`, whatever
/// its body decoded to.
pub proof fn lemma_response_401_unauthorized(deployments: Option<Vec<String>>)
    ensures
        classification((UpstreamOutcome::Response { code: 401, deployments })) == "unauthorized"@,
{
}

/// A transport failure is classified `offline`.
pub proof fn lemma_offline_classified_offline()
    ensures
        classification(UpstreamOutcome::Offline) == "offline"@,
{
}

/// A decodable response with an empty deployment list is classified
/// `no_history`, on any HTTP status code other than 401.
pub proof fn lemma_empty_list_no_history(code: u16, list: Vec<String>)
    requires
        code != 401,
        list@.len() == 0,
    ensures
        classification((UpstreamOutcome::Response { code, deployments: Some(list) }))
            == "no_history"@,
{
}

/// Only the first entry of a non-empty deployment list decides the status:
/// its status field is reported verbatim.
pub proof fn lemma_first_entry_decides(code: u16, list: Vec<String>)
    requires
        code != 401,
        list@.len() > 0,
    ensures
        classification((UpstreamOutcome::Response { code, deployments: Some(list) })) == list@[0]@,
{
}

/// A body that could not be decoded is classified `parse_error`, on any HTTP
/// status code other than 401.
pub proof fn lemma_undecodable_body_parse_error(code: u16)
    ensures
        code != 401 ==> classification((UpstreamOutcome::Response { code, deployments: None }))
            == "parse_error"@,
{
}

} // verus!
