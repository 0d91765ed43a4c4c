//! What the HTTP boundary computes: the configuration of the servers, the
//! request context recorded for analytics, the page that loads the widget
//! script, and the `Content-Security-Policy` header derived from a
//! project's verified domains. The routing and the sockets live outside
//! the library.

use crate::text::str_eq;
use crate::Domain;
use vstd::prelude::*;
use vstd::string::StringExecFns;

verus! {

/// Configuration of the HTTP servers.
pub struct ServerConfig {
    pub port: u16,
    pub metrics_port: u16,
    /// The process-wide token-signing secret.
    pub secret: Vec<u8>,
    /// Countries whose requests are blocked when a geo-IP resolver is
    /// configured.
    pub blocked_countries: Vec<String>,
}

/// What a request's surroundings tell about it, recorded for analytics.
pub struct RequestInfo {
    pub user_agent: Option<String>,
    pub country: Option<String>,
}

/// The body of an attestation request and response.
pub struct AttestationBody {
    pub attestation_id: String,
    pub origin: String,
}

/// The protocol a domain is allowed to embed over: plain HTTP only for
/// local development.
pub open spec fn spec_csp_protocol(d: Seq<char>) -> Seq<char> {
    if d == "localhost"@ {
        "http://"@
    } else {
        "https://"@
    }
}

/// The two sources a single verified domain contributes to the header.
/// `*.domain` does not match `domain` by the Content-Security-Policy
/// specification, so both are listed.
pub open spec fn spec_csp_for_domain(d: Seq<char>) -> Seq<char> {
    " "@ + spec_csp_protocol(d) + "*."@ + d + " "@ + spec_csp_protocol(d) + d
}

/// The whole `frame-ancestors` header value for a list of verified
/// domains, in their order.
pub open spec fn spec_csp_header(ds: Seq<Seq<char>>) -> Seq<char>
    decreases ds.len(),
{
    if ds.len() == 0 {
        "frame-ancestors"@
    } else {
        spec_csp_header(ds.drop_last()) + spec_csp_for_domain(ds.last())
    }
}

/// Builds the `Content-Security-Policy` header value that allows exactly
/// the verified domains, and each of their subdomains, to embed the
/// widget.
pub fn build_content_security_header(domains: Vec<Domain>) -> (r: String)
    ensures
        r@ == spec_csp_header(domains.deep_view()),
{
    let ghost dv = domains.deep_view();
    let mut out: String = "frame-ancestors".to_owned();
    proof {
        assert(dv.take(0) =~= Seq::<Seq<char>>::empty());
    }
    let mut i: usize = 0;
    while i < domains.len()
        invariant
            i <= domains.len(),
            dv == domains.deep_view(),
            out@ == spec_csp_header(dv.take(i as int)),
        decreases domains.len() - i,
    {
        let d = &domains[i];
        let proto: &str = if str_eq(d.0.as_str(), "localhost") {
            "http://"
        } else {
            "https://"
        };
        out.append(" ");
        out.append(proto);
        out.append("*.");
        out.append(d.0.as_str());
        out.append(" ");
        out.append(proto);
        out.append(d.0.as_str());
        proof {
            assert(dv.take(i + 1).drop_last() =~= dv.take(i as int));
            assert(dv.take(i + 1).last() == dv[i as int]);
            assert(out@ =~= spec_csp_header(dv.take(i + 1)));
        }
        i += 1;
    }
    proof {
        assert(dv.take(domains.len() as int) =~= dv);
    }
    out
}

/// The page served for a project with the Verify API enabled: it loads the
/// widget script and hands it the freshly issued token.
pub fn index_html(token: &str) -> (r: String)
    ensures
        r@ == "<!-- index.html --><html><head><script src=\"/index.js?token="@ + token@
            + "\"></script></head></html>"@,
{
    let mut out: String = "<!-- index.html --><html><head><script src=\"/index.js?token=".to_owned();
    out.append(token);
    out.append("\"></script></head></html>");
    out
}

} // verus!
