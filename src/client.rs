use vstd::prelude::*;
use crate::json::{
    json_accepts, json_as_string, json_field, json_index, json_is_null, json_null, json_text, parse_json,
    parsed_json,
};
use crate::labels::{config_view, labels_view, second_resolution, second_status};
use crate::naming::{
    classify_key, classify_name, opt_view, pair_view, regex_find, trimmed, FEATURE_PATTERN,
    REQUIREMENT_PATTERN,
};
use crate::payload::{FeatureUpdate, WorkflowStatusUpdate};

verus! {

#[verifier::external_type_specification]
#[verifier::external_body]
pub struct ExUrl(url::Url);

#[verifier::external_type_specification]
#[verifier::external_body]
pub struct ExUrlParseError(url::ParseError);

/// Whether a text parses as an absolute URL.
pub uninterp spec fn url_accepts(text: Seq<char>) -> bool;

/// The URL that a text parses to.
pub uninterp spec fn parsed_url(text: Seq<char>) -> url::Url;

/// Relies on url::Url::parse: whether it succeeds, and the URL it gives,
/// depend on the text alone.
#[verifier::external_body]
fn parse_url(text: &str) -> (r: Result<url::Url, url::ParseError>)
    ensures
        r.is_ok() == url_accepts(text@),
        r is Ok ==> r->Ok_0 == parsed_url(text@),
{
    url::Url::parse(text)
}

/// The kind of request sent to the service.
#[derive(Debug, Clone, Copy, PartialEq, Eq, Structural)]
pub enum Method {
    Get,
    Post,
    Put,
}

/// The configuration of a client for one tenant of the service.
pub struct Aha {
    pub domain: String,
    pub user_email: String,
    /// The value of the `Authorization` header sent with every request.
    pub authorization: String,
    pub verbose: bool,
    pub dry_run: bool,
}

/// The view of an optional workflow status.
pub open spec fn status_view(w: Option<WorkflowStatusUpdate>) -> Option<Seq<char>> {
    match w {
        Some(x) => Some(x.name@),
        None => None,
    }
}

/// The workflow status an update asks for: the explicit one if given, else
/// "In code review" for records still waiting for development, else none.
pub open spec fn next_status(current: Option<Seq<char>>, explicit: Option<Seq<char>>) -> Option<Seq<char>> {
    match explicit {
        Some(s) => Some(s),
        None => if current == Some("Ready to develop"@) || current == Some("Under consideration"@) {
            Some("In code review"@)
        } else {
            None
        },
    }
}

/// The text of a response body; an unreadable body counts as empty.
pub open spec fn body_text(body: Option<String>) -> Seq<char> {
    match body {
        Some(b) => b@,
        None => Seq::empty(),
    }
}

/// Decodes a response body as JSON; an unreadable body is decoded as the
/// empty text, which fails.
pub fn decode_response(body: Option<String>) -> (r: Result<serde_json::Value, serde_json::Error>)
    ensures
        r.is_ok() == json_accepts(body_text(body)),
        r is Ok ==> r->Ok_0 == parsed_json(body_text(body)),
        body_text(body).len() == 0 ==> r is Err,
        body is None ==> r is Err,
{
    match &body {
        Some(b) => parse_json(b.as_str()),
        None => {
            proof {
                reveal_strlit("");
                assert(""@ =~= Seq::<char>::empty());
            }
            parse_json("")
        },
    }
}

impl Aha {
    /// The text of the API root for this tenant.
    pub open spec fn base_url_spec(&self) -> Seq<char> {
        "https://"@ + self.domain@ + ".aha.io/api/v1/"@
    }

    /// A client for `domain`, authenticating with the bearer token
    /// `auth_token` and acting for `email`; not verbose, not a dry run.
    pub fn new(domain: String, auth_token: String, email: String) -> (r: Aha)
        ensures
            r.domain == domain,
            r.user_email == email,
            r.authorization@ == "Bearer "@ + auth_token@,
            !r.verbose,
            !r.dry_run,
    {
        let mut authorization = String::from_str("Bearer ");
        authorization.append(auth_token.as_str());
        Aha { domain, user_email: email, authorization, verbose: false, dry_run: false }
    }

    /// The text `https://{domain}.aha.io/api/v1/`.
    pub fn base_url_text(&self) -> (r: String)
        ensures
            r@ == self.base_url_spec(),
    {
        let mut s = String::from_str("https://");
        s.append(self.domain.as_str());
        s.append(".aha.io/api/v1/");
        s
    }

    /// The API root for this tenant, or `None` where the domain does not
    /// make a valid URL.
    pub fn try_base_url(&self) -> (r: Option<url::Url>)
        ensures
            r == (if url_accepts(self.base_url_spec()) {
                Some(parsed_url(self.base_url_spec()))
            } else {
                None
            }),
    {
        let text = self.base_url_text();
        match parse_url(text.as_str()) {
            Ok(_) => Some(self.base_url()),
            Err(_) => None,
        }
    }

    /// The API root for this tenant; the same as `url_builder`.
    pub fn base_url(&self) -> (r: url::Url)
        requires
            url_accepts(self.base_url_spec()),
        ensures
            r == parsed_url(self.base_url_spec()),
    {
        self.url_builder()
    }

    /// The API root for this tenant: the URL that `base_url_text` parses to.
    pub fn url_builder(&self) -> (r: url::Url)
        requires
            url_accepts(self.base_url_spec()),
        ensures
            r == parsed_url(self.base_url_spec()),
    {
        let text = self.base_url_text();
        parse_url(text.as_str()).unwrap()
    }

    /// Whether a request of this kind goes out: reads always do, writes
    /// only outside a dry run.
    pub fn sends_request(&self, method: Method) -> (r: bool)
        ensures
            r == (method == Method::Get || !self.dry_run),
    {
        match method {
            Method::Get => true,
            _ => !self.dry_run,
        }
    }

    /// The workflow status for a list of labels. Each label resolves through
    /// `config_labels` first, then the built-in table; the second label that
    /// resolves decides, and with fewer than two there is none.
    pub fn status_for_labels(&self, labels: Vec<String>, config_labels: Option<Vec<(String, String)>>) -> (r:
        Option<String>)
        ensures
            opt_view(r) == second_resolution(config_view(config_labels), labels_view(labels@)),
    {
        second_status(&labels, &config_labels)
    }

    /// Classifies a name as `("requirement", key)` or `("feature", key)` by
    /// the key at the start of its trimmed text.
    pub fn type_from_name(&self, name: &str) -> (r: Option<(String, String)>)
        ensures
            pair_view(r) == classify_name(name@),
    {
        let text = trimmed(name);
        let requirement = regex_find(REQUIREMENT_PATTERN, text);
        let feature = regex_find(FEATURE_PATTERN, text);
        classify_key(requirement, feature)
    }

    /// The update for a record, given whether it is unassigned and its
    /// current workflow status: assign it to this user only if nobody has
    /// it, and move its status as `next_status` says.
    pub fn update_for_state(
        &self,
        assigned_is_null: bool,
        current_status: Option<String>,
        status: Option<String>,
    ) -> (r: FeatureUpdate)
        ensures
            opt_view(r.assigned_to_user) == (if assigned_is_null {
                Some(self.user_email@)
            } else {
                None
            }),
            r.custom_fields is None,
            status_view(r.workflow_status) == next_status(opt_view(current_status), opt_view(status)),
    {
        let assigned = if assigned_is_null {
            Some(self.user_email.clone())
        } else {
            None
        };
        let workflow_status = match status {
            Some(name) => Some(WorkflowStatusUpdate { name }),
            None => match current_status {
                Some(cur) => {
                    if cur == String::from_str("Ready to develop") || cur == String::from_str(
                        "Under consideration",
                    ) {
                        Some(WorkflowStatusUpdate { name: String::from_str("In code review") })
                    } else {
                        None
                    }
                },
                None => None,
            },
        };
        FeatureUpdate { assigned_to_user: assigned, custom_fields: None, workflow_status }
    }

    /// The update for a record as the service returned it: its
    /// `assigned_to_user` and `workflow_status.name` decide, through
    /// `update_for_state`.
    pub fn generate_update_function(&self, current: &serde_json::Value, status: Option<String>) -> (r:
        FeatureUpdate)
        ensures
            opt_view(r.assigned_to_user) == (if json_null(json_index(*current, "assigned_to_user"@)) {
                Some(self.user_email@)
            } else {
                None
            }),
            status_view(r.workflow_status) == next_status(
                json_text(json_index(json_index(*current, "workflow_status"@), "name"@)),
                opt_view(status),
            ),
            r.custom_fields is None,
    {
        let unassigned = json_is_null(json_field(current, "assigned_to_user"));
        let current_status = json_as_string(json_field(json_field(current, "workflow_status"), "name"));
        self.update_for_state(unassigned, current_status, status)
    }
}

} // verus!
