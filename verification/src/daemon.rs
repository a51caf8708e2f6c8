//! The requests that a running launcher daemon answers over D-Bus, and the
//! introspection data that the daemon publishes for them.
use vstd::prelude::*;

use crate::consts::DBUS_INTERFACE_NAME;
use crate::text::{contains_seq, occurs_at, str_equal};

verus! {

/// A request sent to the daemon.
#[derive(PartialEq, Eq, Structural, Clone, Copy, Debug)]
pub enum CrabDaemonMethod {
    /// Show the launcher window.
    ShowWindow,
    /// Read the configuration file again and apply it.
    RefreshConfig,
}

/// The D-Bus member name of a request.
pub open spec fn method_name(m: CrabDaemonMethod) -> Seq<char> {
    match m {
        CrabDaemonMethod::ShowWindow => "ShowWindow"@,
        CrabDaemonMethod::RefreshConfig => "RefreshConfig"@,
    }
}

/// The request that a D-Bus member name stands for, if any.
pub open spec fn method_from_name(s: Seq<char>) -> Option<CrabDaemonMethod> {
    if s == "ShowWindow"@ {
        Some(CrabDaemonMethod::ShowWindow)
    } else if s == "RefreshConfig"@ {
        Some(CrabDaemonMethod::RefreshConfig)
    } else {
        None
    }
}

/// The declaration of one method in D-Bus introspection XML.
pub open spec fn method_xml(m: CrabDaemonMethod) -> Seq<char> {
    "<method name='"@ + method_name(m) + "'/>"@
}

/// The introspection XML of the daemon's interface: both requests, each as
/// a method without arguments.
pub open spec fn introspection_spec() -> Seq<char> {
    "<node><interface name='"@ + DBUS_INTERFACE_NAME@ + "'>"@ + method_xml(
        CrabDaemonMethod::ShowWindow,
    ) + method_xml(CrabDaemonMethod::RefreshConfig) + "</interface></node>"@
}

impl CrabDaemonMethod {
    /// The request named `s`; an error for any other name.
    pub fn from_str(s: &str) -> (r: Result<CrabDaemonMethod, ()>)
        ensures
            match method_from_name(s@) {
                Some(m) => r == Ok::<CrabDaemonMethod, ()>(m),
                None => r == Err::<CrabDaemonMethod, ()>(()),
            },
    {
        if str_equal(s, "ShowWindow") {
            Ok(CrabDaemonMethod::ShowWindow)
        } else if str_equal(s, "RefreshConfig") {
            Ok(CrabDaemonMethod::RefreshConfig)
        } else {
            Err(())
        }
    }

    /// The D-Bus member name of the request.
    pub fn to_string(&self) -> (s: String)
        ensures
            s@ == method_name(*self),
    {
        match self {
            CrabDaemonMethod::ShowWindow => String::from_str("ShowWindow"),
            CrabDaemonMethod::RefreshConfig => String::from_str("RefreshConfig"),
        }
    }
}

/// Converting a request to its name and back gives the request again: the
/// daemon acts on exactly the request that the client sent.
pub proof fn lemma_method_name_round_trip(m: CrabDaemonMethod)
    ensures
        method_from_name(method_name(m)) == Some(m),
{
    reveal_strlit("ShowWindow");
    reveal_strlit("RefreshConfig");
    assert("ShowWindow"@.len() != "RefreshConfig"@.len());
}

/// Distinct requests have distinct names.
pub proof fn lemma_method_names_distinct(a: CrabDaemonMethod, b: CrabDaemonMethod)
    requires
        a != b,
    ensures
        method_name(a) != method_name(b),
{
    lemma_method_name_round_trip(a);
    lemma_method_name_round_trip(b);
}

/// The introspection XML declares every request that the server acts on,
/// under the name that the client sends.
pub proof fn lemma_introspection_declares_every_method(m: CrabDaemonMethod)
    ensures
        contains_seq(introspection_spec(), method_xml(m)),
{
    let head = "<node><interface name='"@ + DBUS_INTERFACE_NAME@ + "'>"@;
    let show = method_xml(CrabDaemonMethod::ShowWindow);
    let refresh = method_xml(CrabDaemonMethod::RefreshConfig);
    let tail = "</interface></node>"@;
    let x = introspection_spec();
    assert(x =~= head + show + refresh + tail);
    match m {
        CrabDaemonMethod::ShowWindow => {
            let i = head.len() as int;
            assert(x.subrange(i, i + show.len()) =~= show);
            assert(occurs_at(x, show, i));
        },
        CrabDaemonMethod::RefreshConfig => {
            let i = (head.len() + show.len()) as int;
            assert(x.subrange(i, i + refresh.len()) =~= refresh);
            assert(occurs_at(x, refresh, i));
        },
    }
}

/// The side of the D-Bus connection that owns the daemon's bus name.
pub struct CrabDaemonServer;

impl CrabDaemonServer {
    pub fn new() -> (s: Self)
        ensures
            s == CrabDaemonServer,
    {
        CrabDaemonServer
    }

    /// The event that a call of the D-Bus method `method_name` raises in the
    /// daemon: the request of that name; none for an unknown name.
    pub fn method_event(&self, method_name: &str) -> (e: Option<CrabDaemonMethod>)
        ensures
            e == method_from_name(method_name@),
    {
        match CrabDaemonMethod::from_str(method_name) {
            Ok(m) => Some(m),
            Err(_) => None,
        }
    }

    /// The introspection XML that the server registers its object with.
    pub fn introspection_xml(&self) -> (x: String)
        ensures
            x@ == introspection_spec(),
    {
        let mut x = String::from_str("<node><interface name='");
        x.append(DBUS_INTERFACE_NAME);
        x.append("'>");
        x.append("<method name='");
        x.append(CrabDaemonMethod::ShowWindow.to_string().as_str());
        x.append("'/>");
        x.append("<method name='");
        x.append(CrabDaemonMethod::RefreshConfig.to_string().as_str());
        x.append("'/>");
        x.append("</interface></node>");
        assert(x@ =~= introspection_spec());
        x
    }
}

/// The side of the D-Bus connection that sends requests to a running daemon.
pub struct CrabDaemonClient;

impl CrabDaemonClient {
    pub fn new() -> (c: Self)
        ensures
            c == CrabDaemonClient,
    {
        CrabDaemonClient
    }

    /// The D-Bus member that the client calls to send `method`.
    pub fn member_name(&self, method: CrabDaemonMethod) -> (s: String)
        ensures
            s@ == method_name(method),
            method_from_name(s@) == Some(method),
    {
        proof {
            lemma_method_name_round_trip(method);
        }
        method.to_string()
    }
}

} // verus!
