//! Backend descriptors: what it takes to open a connection to an upstream.

use vstd::prelude::*;
use vstd::string::*;
use crate::text::{alphanumeric_marks, is_alphanumeric, keep_marked, lemma_marked_is_filter, str_eq};

verus! {

/// The connection name of an upstream host: its letters and digits, in their
/// order, with every other character left out.
pub open spec fn host_name_of(host: Seq<char>) -> Seq<char> {
    host.filter(|c: char| is_alphanumeric(c))
}

/// Derives the name under which the connection to `host` is registered, by
/// leaving out every character that is not a letter or a digit. Two hosts
/// may share a name; nothing tells them apart here.
pub fn backend_host_name(host: &String) -> (name: String)
    ensures
        name@ == host_name_of(host@),
{
    let marks = alphanumeric_marks(host.as_str());
    proof {
        lemma_marked_is_filter(host@, marks@, |c: char| is_alphanumeric(c));
    }
    keep_marked(host.as_str(), &marks)
}

/// The parameters of one outbound connection.
#[derive(Debug, PartialEq, Eq)]
pub struct BackendDescriptor {
    /// The name the connection is registered under.
    pub name: String,
    /// The upstream host to connect to, with its port where it has one.
    pub host: String,
    /// The value sent as the `Host` header in place of the inbound one.
    pub override_host: String,
    /// Whether the connection uses TLS.
    pub tls: bool,
    /// The host name asked for in the TLS handshake; set exactly when `tls` is.
    pub sni_hostname: Option<String>,
}

/// A backend descriptor with its strings as sequences of characters.
pub struct BackendView {
    pub name: Seq<char>,
    pub host: Seq<char>,
    pub override_host: Seq<char>,
    pub tls: bool,
    pub sni_hostname: Option<Seq<char>>,
}

impl View for BackendDescriptor {
    type V = BackendView;

    open spec fn view(&self) -> BackendView {
        BackendView {
            name: self.name@,
            host: self.host@,
            override_host: self.override_host@,
            tls: self.tls,
            sni_hostname: match self.sni_hostname {
                Some(sni) => Some(sni@),
                None => None,
            },
        }
    }
}

/// The descriptor of the connection to `upstream` for a request whose
/// rewritten URL has the given scheme: TLS exactly for `https`, and then with
/// the upstream host as the name asked for in the handshake.
pub open spec fn descriptor_for(upstream: Seq<char>, scheme: Seq<char>) -> BackendView {
    let tls = scheme == "https"@;
    BackendView {
        name: host_name_of(upstream),
        host: upstream,
        override_host: upstream,
        tls,
        sni_hostname: if tls {
            Some(upstream)
        } else {
            None
        },
    }
}

impl BackendDescriptor {
    /// Describes the connection to `upstream_host` for a request whose
    /// rewritten URL has the scheme `scheme`.
    pub fn build(upstream_host: &str, scheme: &str) -> (descriptor: BackendDescriptor)
        ensures
            descriptor@ == descriptor_for(upstream_host@, scheme@),
    {
        let host = String::from_str(upstream_host);
        let name = backend_host_name(&host);
        let tls = str_eq(scheme, "https");
        let sni_hostname = if tls {
            Some(String::from_str(upstream_host))
        } else {
            None
        };
        BackendDescriptor {
            name,
            host,
            override_host: String::from_str(upstream_host),
            tls,
            sni_hostname,
        }
    }
}

} // verus!
