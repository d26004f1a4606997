//! The catalogue of issues and recommendations: fixed texts for each rule,
//! with the measured values written into the descriptions.
use vstd::prelude::*;
use crate::text::{
    append_decimal, decimal, rounded_ms, rounded_percent, text_list1, text_list2, text_list3,
    text_list4, whole_ms,
};
use crate::types::{DiagnosticIssue, IssueCategory, IssueSeverity, IssueView};

verus! {

/// Whole milliseconds of a duration, as text.
pub open spec fn ms_text(us: nat) -> Seq<char> {
    decimal(rounded_ms(us as int) as nat)
}

/// The name of the target resolved to no address.
pub open spec fn dns_unresolved_issue(domain: Seq<char>) -> IssueView {
    IssueView {
        category: IssueCategory::Dns,
        severity: IssueSeverity::Error,
        title: "DNS resolution failed"@,
        description: "No IP address found for domain "@ + domain,
        possible_causes: seq![
            "The domain does not exist or is not registered"@,
            "The DNS server is not responding"@,
            "DNS is blocked by a firewall"@,
        ],
        solutions: seq![
            "Check the domain name"@,
            "Try switching DNS to 8.8.8.8 or 1.1.1.1"@,
            "Check the internet connection"@,
        ],
    }
}

/// The name lookup took longer than 200 ms.
pub open spec fn dns_slow_issue(domain: Seq<char>, first_ip: Seq<char>, lookup_us: nat) -> IssueView {
    IssueView {
        category: IssueCategory::Dns,
        severity: IssueSeverity::Warning,
        title: "DNS slow"@,
        description: "DNS lookup time: "@ + ms_text(lookup_us) + "ms (should be < 200ms)"@,
        possible_causes: seq![
            "The DNS server is geographically distant"@,
            "The DNS server is overloaded"@,
            "No DNS cache"@,
        ],
        solutions: seq![
            "Switch to a faster DNS such as Cloudflare (1.1.1.1) or Google (8.8.8.8)"@,
            "Add "@ + domain + " to /etc/hosts with IP "@ + first_ip,
        ],
    }
}

/// No response came at all.
pub open spec fn tcp_failed_issue() -> IssueView {
    IssueView {
        category: IssueCategory::Tcp,
        severity: IssueSeverity::Error,
        title: "TCP connection failed"@,
        description: "The TCP connection failed completely"@,
        possible_causes: seq![
            "The website is down"@,
            "Port 443 is blocked"@,
            "A firewall is blocking the connection"@,
            "Routing problem"@,
        ],
        solutions: seq![
            "Check whether the website works by opening it in a browser"@,
            "Try using a VPN"@,
            "Contact your ISP if the problem persists"@,
        ],
    }
}

/// Establishing the connection took longer than 500 ms.
pub open spec fn tcp_slow_issue(connect_only_us: nat) -> IssueView {
    IssueView {
        category: IssueCategory::Tcp,
        severity: IssueSeverity::Warning,
        title: "TCP connect slow"@,
        description: "TCP connect time: "@ + ms_text(connect_only_us) + "ms (should be < 500ms)"@,
        possible_causes: seq![
            "The server is far away (another continent)"@,
            "Poor routing from the ISP"@,
            "Network congestion"@,
        ],
        solutions: seq![
            "This is usually caused by geographic distance and is hard to improve"@,
            "Try a VPN with a server closer to the target"@,
        ],
    }
}

/// The secure-channel handshake took longer than 500 ms.
pub open spec fn ssl_slow_issue(ssl_only_us: nat) -> IssueView {
    IssueView {
        category: IssueCategory::Ssl,
        severity: IssueSeverity::Warning,
        title: "SSL handshake slow"@,
        description: "SSL handshake time: "@ + ms_text(ssl_only_us) + "ms (should be < 500ms)"@,
        possible_causes: seq![
            "Long SSL certificate chain"@,
            "OCSP stapling is not enabled"@,
            "High latency to the server"@,
        ],
        solutions: seq![
            "This is usually a server-side problem"@,
            "Check for a man-in-the-middle"@,
        ],
    }
}

/// The whole request took longer than 3000 ms.
pub open spec fn total_slow_issue(total_us: nat) -> IssueView {
    IssueView {
        category: IssueCategory::Tcp,
        severity: IssueSeverity::Warning,
        title: "Total time slow"@,
        description: "Total time: "@ + ms_text(total_us) + "ms (should be < 3000ms)"@,
        possible_causes: seq![
            "The server responds slowly"@,
            "Unstable network connection"@,
            "Many redirects"@,
        ],
        solutions: seq!["Check your network speed"@, "Try again at another time of day"@],
    }
}

/// The response status was in 400..=499.
pub open spec fn http_client_error_issue(code: nat) -> IssueView {
    IssueView {
        category: IssueCategory::Http,
        severity: IssueSeverity::Warning,
        title: "HTTP Error "@ + decimal(code),
        description: "The server returned a client-side error"@,
        possible_causes: seq!["Invalid request"@, "Login required"@, "Page not found"@],
        solutions: seq!["Check that the URL is correct"@],
    }
}

/// The response status was 500 or above.
pub open spec fn http_server_error_issue(code: nat) -> IssueView {
    IssueView {
        category: IssueCategory::Http,
        severity: IssueSeverity::Error,
        title: "HTTP Error "@ + decimal(code),
        description: "The server hit an internal error"@,
        possible_causes: seq![
            "The server is under maintenance"@,
            "The server is overloaded"@,
            "Server-side application error"@,
        ],
        solutions: seq!["Wait and try again later"@, "Check the service's status page"@],
    }
}

/// More than 30 percent of the traced hops did not answer.
pub open spec fn silent_hops_issue(percent: nat) -> IssueView {
    IssueView {
        category: IssueCategory::Routing,
        severity: IssueSeverity::Warning,
        title: "Many hops not responding"@,
        description: decimal(percent) + "% of hops in the traceroute did not respond"@,
        possible_causes: seq![
            "Routers block ICMP (normal)"@,
            "A firewall blocks traceroute"@,
            "Routing problem"@,
        ],
        solutions: seq![
            "This can be normal if the website still works"@,
            "Try tcptraceroute for more detail"@,
        ],
    }
}

/// The path has more than 20 hops.
pub open spec fn many_hops_issue(hops: nat) -> IssueView {
    IssueView {
        category: IssueCategory::Routing,
        severity: IssueSeverity::Info,
        title: "Many hops"@,
        description: decimal(hops) + " hops to the destination (more than usual)"@,
        possible_causes: seq!["The server is far away"@, "Suboptimal routing"@],
        solutions: seq!["A VPN may help optimise routing"@],
    }
}

/// Fewer than 80 percent of the samples succeeded.
pub open spec fn unstable_issue(successful: nat, total: nat) -> IssueView {
    IssueView {
        category: IssueCategory::Stability,
        severity: IssueSeverity::Error,
        title: "Unstable connection"@,
        description: "Only "@ + decimal(rounded_percent(successful, total))
            + "% of requests succeeded"@,
        possible_causes: seq![
            "Unstable network"@,
            "Weak WiFi signal"@,
            "ISP problem"@,
            "The server is overloaded"@,
        ],
        solutions: seq![
            "Move closer to the WiFi router or use a LAN cable"@,
            "Restart the modem/router"@,
            "Contact your ISP if the problem persists"@,
        ],
    }
}

/// At least 80 but under 100 percent of the samples succeeded.
pub open spec fn packet_loss_issue(successful: nat, total: nat) -> IssueView {
    IssueView {
        category: IssueCategory::Stability,
        severity: IssueSeverity::Warning,
        title: "Packet loss detected"@,
        description: "Success rate: "@ + decimal(rounded_percent(successful, total)) + "%"@,
        possible_causes: seq!["Temporary network congestion"@, "Unstable WiFi signal"@],
        solutions: seq!["Check the WiFi signal"@, "Try again in a few minutes"@],
    }
}

/// The jitter exceeded 100 ms.
pub open spec fn jitter_issue(jitter_us: nat) -> IssueView {
    IssueView {
        category: IssueCategory::Stability,
        severity: IssueSeverity::Warning,
        title: "High jitter"@,
        description: "Response time variation: "@ + ms_text(jitter_us) + "ms"@,
        possible_causes: seq!["Unstable network"@, "Other devices are using bandwidth"@],
        solutions: seq![
            "Reduce the number of devices using the network at the same time"@,
            "Use a LAN cable instead of WiFi"@,
        ],
    }
}

/// The resolution probe failed or timed out.
pub open spec fn dns_absent_issue() -> IssueView {
    IssueView {
        category: IssueCategory::Dns,
        severity: IssueSeverity::Error,
        title: "DNS check unavailable"@,
        description: "The name resolution probe failed or timed out"@,
        possible_causes: seq![
            "The DNS lookup tool is not available"@,
            "The DNS server did not answer in time"@,
        ],
        solutions: seq!["Check the internet connection"@, "Run the diagnostic again"@],
    }
}

/// The connection timing probe failed or timed out.
pub open spec fn tcp_absent_issue() -> IssueView {
    IssueView {
        category: IssueCategory::Tcp,
        severity: IssueSeverity::Error,
        title: "Connection check unavailable"@,
        description: "The connection timing probe failed or timed out"@,
        possible_causes: seq![
            "The request tool is not available"@,
            "The server did not answer in time"@,
        ],
        solutions: seq!["Check the internet connection"@, "Run the diagnostic again"@],
    }
}

/// The path tracing probe failed or timed out.
pub open spec fn routing_absent_issue() -> IssueView {
    IssueView {
        category: IssueCategory::Routing,
        severity: IssueSeverity::Info,
        title: "Path trace unavailable"@,
        description: "The path tracing probe failed or timed out"@,
        possible_causes: seq![
            "The traceroute tool is not available"@,
            "The trace did not finish in time"@,
        ],
        solutions: seq!["Install traceroute to include the network path"@],
    }
}

/// The stability probe failed or timed out.
pub open spec fn stability_absent_issue() -> IssueView {
    IssueView {
        category: IssueCategory::Stability,
        severity: IssueSeverity::Info,
        title: "Stability check unavailable"@,
        description: "The stability probe failed or timed out"@,
        possible_causes: seq![
            "The request tool is not available"@,
            "The samples did not finish in time"@,
        ],
        solutions: seq!["Run the diagnostic again"@],
    }
}

/// The recommendation given when the name servers belong to a CDN.
pub open spec fn cdn_recommendation(cdn: Seq<char>) -> Seq<char> {
    "Website uses CDN "@ + cdn + " - a good sign for performance"@
}

/// The recommendation given when no issue was found.
pub open spec fn all_clear_recommendation() -> Seq<char> {
    "The connection to the website works well; no issues were detected."@
}

/// The recommendation given when name resolution had an issue.
pub open spec fn dns_recommendation() -> Seq<char> {
    "Consider switching the DNS server to 1.1.1.1 (Cloudflare) or 8.8.8.8 (Google)."@
}

/// The recommendation given when the connection or its stability had an issue.
pub open spec fn link_recommendation() -> Seq<char> {
    "Check the WiFi signal and consider using a LAN cable."@
}

/// The recommendation given when the score fell under 50.
pub open spec fn escalation_recommendation() -> Seq<char> {
    "The connection has many problems - consider using a VPN or contacting your ISP."@
}

/// Builds the issue for a name that resolved to no address.
pub fn dns_unresolved(domain: &String) -> (r: DiagnosticIssue)
    ensures
        r@ == dns_unresolved_issue(domain@),
{
    let mut description = String::from_str("No IP address found for domain ");
    description.append(domain.as_str());
    DiagnosticIssue {
        category: IssueCategory::Dns,
        severity: IssueSeverity::Error,
        title: String::from_str("DNS resolution failed"),
        description,
        possible_causes: text_list3(
            "The domain does not exist or is not registered",
            "The DNS server is not responding",
            "DNS is blocked by a firewall",
        ),
        solutions: text_list3(
            "Check the domain name",
            "Try switching DNS to 8.8.8.8 or 1.1.1.1",
            "Check the internet connection",
        ),
    }
}

/// Builds the issue for a slow name lookup.
pub fn dns_slow(domain: &String, first_ip: &String, lookup_us: u64) -> (r: DiagnosticIssue)
    ensures
        r@ == dns_slow_issue(domain@, first_ip@, lookup_us as nat),
{
    let mut description = String::from_str("DNS lookup time: ");
    append_decimal(&mut description, whole_ms(lookup_us));
    description.append("ms (should be < 200ms)");
    let mut hosts = String::from_str("Add ");
    hosts.append(domain.as_str());
    hosts.append(" to /etc/hosts with IP ");
    hosts.append(first_ip.as_str());
    let mut solutions = text_list1(
        "Switch to a faster DNS such as Cloudflare (1.1.1.1) or Google (8.8.8.8)",
    );
    let ghost before = solutions@;
    solutions.push(hosts);
    assert(crate::types::texts(solutions@) =~= crate::types::texts(before).push(
        "Add "@ + domain@ + " to /etc/hosts with IP "@ + first_ip@,
    ));
    let r = DiagnosticIssue {
        category: IssueCategory::Dns,
        severity: IssueSeverity::Warning,
        title: String::from_str("DNS slow"),
        description,
        possible_causes: text_list3(
            "The DNS server is geographically distant",
            "The DNS server is overloaded",
            "No DNS cache",
        ),
        solutions,
    };
    assert(r@.solutions =~= dns_slow_issue(domain@, first_ip@, lookup_us as nat).solutions);
    r
}

/// Builds the issue for a request that got no response.
pub fn tcp_failed() -> (r: DiagnosticIssue)
    ensures
        r@ == tcp_failed_issue(),
{
    DiagnosticIssue {
        category: IssueCategory::Tcp,
        severity: IssueSeverity::Error,
        title: String::from_str("TCP connection failed"),
        description: String::from_str("The TCP connection failed completely"),
        possible_causes: text_list4(
            "The website is down",
            "Port 443 is blocked",
            "A firewall is blocking the connection",
            "Routing problem",
        ),
        solutions: text_list3(
            "Check whether the website works by opening it in a browser",
            "Try using a VPN",
            "Contact your ISP if the problem persists",
        ),
    }
}

/// Builds the issue for a slow connection establishment.
pub fn tcp_slow(connect_only_us: u64) -> (r: DiagnosticIssue)
    ensures
        r@ == tcp_slow_issue(connect_only_us as nat),
{
    let mut description = String::from_str("TCP connect time: ");
    append_decimal(&mut description, whole_ms(connect_only_us));
    description.append("ms (should be < 500ms)");
    DiagnosticIssue {
        category: IssueCategory::Tcp,
        severity: IssueSeverity::Warning,
        title: String::from_str("TCP connect slow"),
        description,
        possible_causes: text_list3(
            "The server is far away (another continent)",
            "Poor routing from the ISP",
            "Network congestion",
        ),
        solutions: text_list2(
            "This is usually caused by geographic distance and is hard to improve",
            "Try a VPN with a server closer to the target",
        ),
    }
}

/// Builds the issue for a slow secure-channel handshake.
pub fn ssl_slow(ssl_only_us: u64) -> (r: DiagnosticIssue)
    ensures
        r@ == ssl_slow_issue(ssl_only_us as nat),
{
    let mut description = String::from_str("SSL handshake time: ");
    append_decimal(&mut description, whole_ms(ssl_only_us));
    description.append("ms (should be < 500ms)");
    DiagnosticIssue {
        category: IssueCategory::Ssl,
        severity: IssueSeverity::Warning,
        title: String::from_str("SSL handshake slow"),
        description,
        possible_causes: text_list3(
            "Long SSL certificate chain",
            "OCSP stapling is not enabled",
            "High latency to the server",
        ),
        solutions: text_list2(
            "This is usually a server-side problem",
            "Check for a man-in-the-middle",
        ),
    }
}

/// Builds the issue for a slow request as a whole.
pub fn total_slow(total_us: u64) -> (r: DiagnosticIssue)
    ensures
        r@ == total_slow_issue(total_us as nat),
{
    let mut description = String::from_str("Total time: ");
    append_decimal(&mut description, whole_ms(total_us));
    description.append("ms (should be < 3000ms)");
    DiagnosticIssue {
        category: IssueCategory::Tcp,
        severity: IssueSeverity::Warning,
        title: String::from_str("Total time slow"),
        description,
        possible_causes: text_list3(
            "The server responds slowly",
            "Unstable network connection",
            "Many redirects",
        ),
        solutions: text_list2("Check your network speed", "Try again at another time of day"),
    }
}

fn http_error_title(code: u16) -> (r: String)
    ensures
        r@ == "HTTP Error "@ + decimal(code as nat),
{
    let mut title = String::from_str("HTTP Error ");
    append_decimal(&mut title, code as u64);
    title
}

/// Builds the issue for a client-side error status.
pub fn http_client_error(code: u16) -> (r: DiagnosticIssue)
    ensures
        r@ == http_client_error_issue(code as nat),
{
    DiagnosticIssue {
        category: IssueCategory::Http,
        severity: IssueSeverity::Warning,
        title: http_error_title(code),
        description: String::from_str("The server returned a client-side error"),
        possible_causes: text_list3("Invalid request", "Login required", "Page not found"),
        solutions: text_list1("Check that the URL is correct"),
    }
}

/// Builds the issue for a server-side error status.
pub fn http_server_error(code: u16) -> (r: DiagnosticIssue)
    ensures
        r@ == http_server_error_issue(code as nat),
{
    DiagnosticIssue {
        category: IssueCategory::Http,
        severity: IssueSeverity::Error,
        title: http_error_title(code),
        description: String::from_str("The server hit an internal error"),
        possible_causes: text_list3(
            "The server is under maintenance",
            "The server is overloaded",
            "Server-side application error",
        ),
        solutions: text_list2("Wait and try again later", "Check the service's status page"),
    }
}

/// Builds the issue for a path where many hops stayed silent.
pub fn silent_hops(percent: u64) -> (r: DiagnosticIssue)
    ensures
        r@ == silent_hops_issue(percent as nat),
{
    let mut description = String::new();
    append_decimal(&mut description, percent);
    description.append("% of hops in the traceroute did not respond");
    DiagnosticIssue {
        category: IssueCategory::Routing,
        severity: IssueSeverity::Warning,
        title: String::from_str("Many hops not responding"),
        description,
        possible_causes: text_list3(
            "Routers block ICMP (normal)",
            "A firewall blocks traceroute",
            "Routing problem",
        ),
        solutions: text_list2(
            "This can be normal if the website still works",
            "Try tcptraceroute for more detail",
        ),
    }
}

/// Builds the issue for a long path.
pub fn many_hops(hops: u32) -> (r: DiagnosticIssue)
    ensures
        r@ == many_hops_issue(hops as nat),
{
    let mut description = String::new();
    append_decimal(&mut description, hops as u64);
    description.append(" hops to the destination (more than usual)");
    DiagnosticIssue {
        category: IssueCategory::Routing,
        severity: IssueSeverity::Info,
        title: String::from_str("Many hops"),
        description,
        possible_causes: text_list2("The server is far away", "Suboptimal routing"),
        solutions: text_list1("A VPN may help optimise routing"),
    }
}

/// Builds the issue for a low success rate.
pub fn unstable(successful: u32, total: u32) -> (r: DiagnosticIssue)
    requires
        successful <= total,
        total > 0,
    ensures
        r@ == unstable_issue(successful as nat, total as nat),
{
    let mut description = String::from_str("Only ");
    append_decimal(&mut description, crate::text::percent_of(successful as u64, total as u64));
    description.append("% of requests succeeded");
    DiagnosticIssue {
        category: IssueCategory::Stability,
        severity: IssueSeverity::Error,
        title: String::from_str("Unstable connection"),
        description,
        possible_causes: text_list4(
            "Unstable network",
            "Weak WiFi signal",
            "ISP problem",
            "The server is overloaded",
        ),
        solutions: text_list3(
            "Move closer to the WiFi router or use a LAN cable",
            "Restart the modem/router",
            "Contact your ISP if the problem persists",
        ),
    }
}

/// Builds the issue for some failed samples.
pub fn packet_loss(successful: u32, total: u32) -> (r: DiagnosticIssue)
    requires
        successful <= total,
        total > 0,
    ensures
        r@ == packet_loss_issue(successful as nat, total as nat),
{
    let mut description = String::from_str("Success rate: ");
    append_decimal(&mut description, crate::text::percent_of(successful as u64, total as u64));
    description.append("%");
    DiagnosticIssue {
        category: IssueCategory::Stability,
        severity: IssueSeverity::Warning,
        title: String::from_str("Packet loss detected"),
        description,
        possible_causes: text_list2("Temporary network congestion", "Unstable WiFi signal"),
        solutions: text_list2("Check the WiFi signal", "Try again in a few minutes"),
    }
}

/// Builds the issue for high jitter.
pub fn high_jitter(jitter_us: u64) -> (r: DiagnosticIssue)
    ensures
        r@ == jitter_issue(jitter_us as nat),
{
    let mut description = String::from_str("Response time variation: ");
    append_decimal(&mut description, whole_ms(jitter_us));
    description.append("ms");
    DiagnosticIssue {
        category: IssueCategory::Stability,
        severity: IssueSeverity::Warning,
        title: String::from_str("High jitter"),
        description,
        possible_causes: text_list2("Unstable network", "Other devices are using bandwidth"),
        solutions: text_list2(
            "Reduce the number of devices using the network at the same time",
            "Use a LAN cable instead of WiFi",
        ),
    }
}

/// Builds the issue for a missing resolution outcome.
pub fn dns_absent() -> (r: DiagnosticIssue)
    ensures
        r@ == dns_absent_issue(),
{
    DiagnosticIssue {
        category: IssueCategory::Dns,
        severity: IssueSeverity::Error,
        title: String::from_str("DNS check unavailable"),
        description: String::from_str("The name resolution probe failed or timed out"),
        possible_causes: text_list2(
            "The DNS lookup tool is not available",
            "The DNS server did not answer in time",
        ),
        solutions: text_list2("Check the internet connection", "Run the diagnostic again"),
    }
}

/// Builds the issue for a missing transport outcome.
pub fn tcp_absent() -> (r: DiagnosticIssue)
    ensures
        r@ == tcp_absent_issue(),
{
    DiagnosticIssue {
        category: IssueCategory::Tcp,
        severity: IssueSeverity::Error,
        title: String::from_str("Connection check unavailable"),
        description: String::from_str("The connection timing probe failed or timed out"),
        possible_causes: text_list2(
            "The request tool is not available",
            "The server did not answer in time",
        ),
        solutions: text_list2("Check the internet connection", "Run the diagnostic again"),
    }
}

/// Builds the issue for a missing path outcome.
pub fn routing_absent() -> (r: DiagnosticIssue)
    ensures
        r@ == routing_absent_issue(),
{
    DiagnosticIssue {
        category: IssueCategory::Routing,
        severity: IssueSeverity::Info,
        title: String::from_str("Path trace unavailable"),
        description: String::from_str("The path tracing probe failed or timed out"),
        possible_causes: text_list2(
            "The traceroute tool is not available",
            "The trace did not finish in time",
        ),
        solutions: text_list1("Install traceroute to include the network path"),
    }
}

/// Builds the issue for a missing stability outcome.
pub fn stability_absent() -> (r: DiagnosticIssue)
    ensures
        r@ == stability_absent_issue(),
{
    DiagnosticIssue {
        category: IssueCategory::Stability,
        severity: IssueSeverity::Info,
        title: String::from_str("Stability check unavailable"),
        description: String::from_str("The stability probe failed or timed out"),
        possible_causes: text_list2(
            "The request tool is not available",
            "The samples did not finish in time",
        ),
        solutions: text_list1("Run the diagnostic again"),
    }
}

} // verus!
