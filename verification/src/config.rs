//! Connection parameters for the upstream log service: an endpoint address
//! plus optional credentials, built with set-if-present override methods.

use vstd::prelude::*;

verus! {

/// The mathematical model of a [`LokiConnectionInfo`]: each field as the
/// sequence of characters it holds.
pub struct ConnInfoView {
    pub user: Option<Seq<char>>,
    pub pw: Option<Seq<char>>,
    pub endpoint: Seq<char>,
}

/// Loki connection information: the endpoint, and credentials when the
/// upstream service requires Basic authentication.
#[derive(Clone)]
pub struct LokiConnectionInfo {
    pub user: Option<String>,
    pub pw: Option<String>,
    pub endpoint: String,
}

impl View for LokiConnectionInfo {
    type V = ConnInfoView;

    open spec fn view(&self) -> ConnInfoView {
        ConnInfoView {
            user: self.user.deep_view(),
            pw: self.pw.deep_view(),
            endpoint: self.endpoint@,
        }
    }
}

/// What overriding the user field means: an absent argument keeps the
/// previous value, a present one replaces it.
pub open spec fn with_user_sp(v: ConnInfoView, user: Option<Seq<char>>) -> ConnInfoView {
    if user is Some {
        ConnInfoView { user, ..v }
    } else {
        v
    }
}

/// What overriding the password field means, as [`with_user_sp`].
pub open spec fn with_password_sp(v: ConnInfoView, pw: Option<Seq<char>>) -> ConnInfoView {
    if pw is Some {
        ConnInfoView { pw, ..v }
    } else {
        v
    }
}

/// What overriding the endpoint field means, as [`with_user_sp`].
pub open spec fn with_endpoint_sp(v: ConnInfoView, endpoint: Option<Seq<char>>) -> ConnInfoView {
    match endpoint {
        Some(e) => ConnInfoView { endpoint: e, ..v },
        None => v,
    }
}

impl LokiConnectionInfo {
    /// Builds connection information from plain values. Reading them from the
    /// process environment is the caller's concern; an unset user or password
    /// stays `None` rather than becoming an empty string.
    pub fn new(endpoint: String, user: Option<String>, pw: Option<String>) -> (r:
        LokiConnectionInfo)
        ensures
            r@ == (ConnInfoView {
                user: user.deep_view(),
                pw: pw.deep_view(),
                endpoint: endpoint@,
            }),
    {
        LokiConnectionInfo { user, pw, endpoint }
    }

    /// Sets the username; a `None` argument keeps the current value.
    pub fn with_user(self, user: Option<String>) -> (r: LokiConnectionInfo)
        ensures
            r@ == with_user_sp(self@, user.deep_view()),
    {
        let mut r = self;
        if user.is_some() {
            r.user = user;
        }
        r
    }

    /// Sets the password; a `None` argument keeps the current value.
    pub fn with_password(self, password: Option<String>) -> (r: LokiConnectionInfo)
        ensures
            r@ == with_password_sp(self@, password.deep_view()),
    {
        let mut r = self;
        if password.is_some() {
            r.pw = password;
        }
        r
    }

    /// Sets the endpoint; a `None` argument keeps the current value.
    pub fn with_endpoint(self, address: Option<String>) -> (r: LokiConnectionInfo)
        ensures
            r@ == with_endpoint_sp(self@, address.deep_view()),
    {
        let mut r = self;
        if let Some(address) = address {
            r.endpoint = address;
        }
        r
    }
}

/// Later overrides win, absent ones do not: overriding the user with an
/// absent value keeps the previously set user, and a further override with a
/// present value replaces it.
pub proof fn lemma_with_user_override(v: ConnInfoView, a: Seq<char>, b: Seq<char>)
    ensures
        with_user_sp(with_user_sp(v, Some(a)), None::<Seq<char>>).user == Some(a),
        with_user_sp(with_user_sp(with_user_sp(v, Some(a)), None::<Seq<char>>), Some(b)).user
            == Some(b),
{
}

} // verus!
