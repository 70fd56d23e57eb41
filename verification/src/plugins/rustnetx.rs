//! The port scanner's bookkeeping: which ports to try, what service a port
//! usually carries, and how the outcomes of the connection attempts become a
//! report. The attempts themselves are the caller's work.
use vstd::prelude::*;
use vstd::string::*;
use crate::errhuman::ErrorKind;
use crate::errhuman::Fault;
use crate::errhuman::TransRError;
use crate::errhuman::TransRResult;
use crate::text::decimal_digits;
use crate::text::join;
use crate::text::render_decimal;

verus! {

/// The outcome for one port: whether a connection was accepted, and if so the
/// service that usually listens there.
#[derive(Debug, Clone)]
pub struct PortScanResult {
    pub host: String,
    pub port: u16,
    pub is_open: bool,
    pub service: Option<String>,
}

/// A port's outcome as contracts see it.
pub struct PortScanModel {
    pub host: Seq<char>,
    pub port: u16,
    pub is_open: bool,
    pub service: Option<Seq<char>>,
}

impl View for PortScanResult {
    type V = PortScanModel;

    open spec fn view(&self) -> PortScanModel {
        PortScanModel {
            host: self.host@,
            port: self.port,
            is_open: self.is_open,
            service: self.service.deep_view(),
        }
    }
}

impl DeepView for PortScanResult {
    type V = PortScanModel;

    open spec fn deep_view(&self) -> PortScanModel {
        self@
    }
}

/// The report for one host: alive if any port is open, the open ports in the
/// order tried, and one line per open port with its service.
#[derive(Debug, Clone)]
pub struct HostScanResult {
    pub host: String,
    pub is_alive: bool,
    pub open_ports: Vec<u16>,
    pub services: Vec<String>,
}

/// A host's report as contracts see it.
pub struct HostScanModel {
    pub host: Seq<char>,
    pub is_alive: bool,
    pub open_ports: Seq<u16>,
    pub services: Seq<Seq<char>>,
}

impl View for HostScanResult {
    type V = HostScanModel;

    open spec fn view(&self) -> HostScanModel {
        HostScanModel {
            host: self.host@,
            is_alive: self.is_alive,
            open_ports: self.open_ports@,
            services: self.services.deep_view(),
        }
    }
}

/// The service that usually listens on a port, `"Unknown"` for a port that
/// is not in the table.
pub open spec fn service_name(port: u16) -> Seq<char> {
    if port == 20 {
        "FTP-DATA"@
    } else if port == 21 {
        "FTP"@
    } else if port == 22 {
        "SSH"@
    } else if port == 23 {
        "Telnet"@
    } else if port == 25 {
        "SMTP"@
    } else if port == 53 {
        "DNS"@
    } else if port == 80 {
        "HTTP"@
    } else if port == 110 {
        "POP3"@
    } else if port == 143 {
        "IMAP"@
    } else if port == 443 {
        "HTTPS"@
    } else if port == 445 {
        "SMB"@
    } else if port == 3306 {
        "MySQL"@
    } else if port == 3389 {
        "RDP"@
    } else if port == 5432 {
        "PostgreSQL"@
    } else if port == 5900 {
        "VNC"@
    } else if port == 6379 {
        "Redis"@
    } else if port == 8080 {
        "HTTP-Proxy"@
    } else if port == 8443 {
        "HTTPS-Alt"@
    } else if port == 9200 {
        "Elasticsearch"@
    } else if port == 27017 {
        "MongoDB"@
    } else {
        "Unknown"@
    }
}

/// The outcome recorded for one port.
pub open spec fn port_outcome(host: Seq<char>, port: u16, is_open: bool) -> PortScanModel {
    PortScanModel {
        host,
        port,
        is_open,
        service: if is_open {
            Some(service_name(port))
        } else {
            None
        },
    }
}

/// Whether attempt `i` was accepted. An attempt that was not reported counts
/// as refused.
pub open spec fn accepted(open: Seq<bool>, i: int) -> bool {
    0 <= i < open.len() && open[i]
}

/// One outcome per port, in the order of `ports`.
pub open spec fn scan_outcomes(host: Seq<char>, ports: Seq<u16>, open: Seq<bool>) -> Seq<
    PortScanModel,
> {
    Seq::new(ports.len(), |i: int| port_outcome(host, ports[i], accepted(open, i)))
}

/// The port of an open outcome.
pub open spec fn open_port() -> spec_fn(PortScanModel) -> Option<u16> {
    |r: PortScanModel|
        if r.is_open {
            Some(r.port)
        } else {
            None
        }
}

/// The line for an open outcome that names a service: port, colon, service.
pub open spec fn service_line() -> spec_fn(PortScanModel) -> Option<Seq<char>> {
    |r: PortScanModel|
        if r.is_open && r.service is Some {
            Some(decimal_digits(r.port as nat) + ": "@ + r.service->Some_0)
        } else {
            None
        }
}

/// The report drawn from a host's outcomes.
pub open spec fn host_report(host: Seq<char>, results: Seq<PortScanModel>) -> HostScanModel {
    HostScanModel {
        host,
        is_alive: results.filter_map(open_port()).len() > 0,
        open_ports: results.filter_map(open_port()),
        services: results.filter_map(service_line()),
    }
}

/// How many of the outcomes are open.
pub open spec fn open_count(results: Seq<PortScanModel>) -> nat {
    results.filter_map(open_port()).len()
}

/// The ports from `start` to `end`, both included; none if `start > end`.
pub open spec fn port_range(start: u16, end: u16) -> Seq<u16> {
    if start > end {
        Seq::empty()
    } else {
        Seq::new((end - start + 1) as nat, |k: int| (start + k) as u16)
    }
}

/// The sixteen ports of a quick scan.
pub open spec fn common_port_list() -> Seq<u16> {
    seq![21, 22, 23, 25, 53, 80, 110, 143, 443, 445, 3306, 3389, 5432, 5900, 8080, 8443]
}

/// What came of an attempt to read a service's banner: the address did not
/// resolve, with the reason; it resolved to nothing; the connection failed,
/// with the reason; or the connection stood and the text that arrived, if
/// any did, before the timeout.
pub enum BannerAttempt {
    InvalidAddress(String),
    NoAddress,
    ConnectionFailed(String),
    Connected(Option<String>),
}

/// An attempt as contracts see it.
pub enum AttemptModel {
    InvalidAddress(Seq<char>),
    NoAddress,
    ConnectionFailed(Seq<char>),
    Connected(Option<Seq<char>>),
}

impl View for BannerAttempt {
    type V = AttemptModel;

    open spec fn view(&self) -> AttemptModel {
        match self {
            BannerAttempt::InvalidAddress(reason) => AttemptModel::InvalidAddress(reason@),
            BannerAttempt::NoAddress => AttemptModel::NoAddress,
            BannerAttempt::ConnectionFailed(reason) => AttemptModel::ConnectionFailed(reason@),
            BannerAttempt::Connected(text) => AttemptModel::Connected(text.deep_view()),
        }
    }
}

/// The banner that an attempt yields, or the network error that it comes to.
/// A connection on which nothing arrived yields a note that says so.
pub open spec fn banner_of(attempt: AttemptModel) -> Result<Seq<char>, Fault> {
    match attempt {
        AttemptModel::InvalidAddress(reason) => Err(
            Fault { kind: ErrorKind::Network, detail: "Invalid address: "@ + reason },
        ),
        AttemptModel::NoAddress => Err(
            Fault { kind: ErrorKind::Network, detail: "No address found"@ },
        ),
        AttemptModel::ConnectionFailed(reason) => Err(
            Fault { kind: ErrorKind::Network, detail: "Connection failed: "@ + reason },
        ),
        AttemptModel::Connected(Some(text)) => if text.len() > 0 {
            Ok(text)
        } else {
            Ok("No banner received"@)
        },
        AttemptModel::Connected(None) => Ok("No banner received"@),
    }
}

/// The scanner: how long one connection attempt may take.
pub struct RustNetX {
    pub timeout_ms: u64,
}

impl RustNetX {
    /// A scanner that allows each attempt half a second.
    pub fn new() -> (r: RustNetX)
        ensures
            r.timeout_ms == 500,
    {
        RustNetX { timeout_ms: 500 }
    }

    /// A scanner that allows each attempt `timeout_ms` milliseconds.
    pub fn with_timeout(timeout_ms: u64) -> (r: RustNetX)
        ensures
            r.timeout_ms == timeout_ms,
    {
        RustNetX { timeout_ms }
    }

    /// The address to connect to: host, colon, port.
    pub fn address(host: &str, port: u16) -> (r: String)
        ensures
            r@ == host@ + ":"@ + decimal_digits(port as nat),
    {
        let mut out = String::from_str(host);
        out.append(":");
        out.append(render_decimal(port as u128).as_str());
        out
    }

    /// The address tried when the host's name does not resolve: the same
    /// port on the local machine.
    pub fn fallback_address(port: u16) -> (r: String)
        ensures
            r@ == "127.0.0.1:"@ + decimal_digits(port as nat),
    {
        let mut out = String::from_str("127.0.0.1:");
        out.append(render_decimal(port as u128).as_str());
        out
    }

    /// The service that usually listens on `port`.
    pub fn identify_service(&self, port: u16) -> (r: String)
        ensures
            r@ == service_name(port),
    {
        match port {
            20 => String::from_str("FTP-DATA"),
            21 => String::from_str("FTP"),
            22 => String::from_str("SSH"),
            23 => String::from_str("Telnet"),
            25 => String::from_str("SMTP"),
            53 => String::from_str("DNS"),
            80 => String::from_str("HTTP"),
            110 => String::from_str("POP3"),
            143 => String::from_str("IMAP"),
            443 => String::from_str("HTTPS"),
            445 => String::from_str("SMB"),
            3306 => String::from_str("MySQL"),
            3389 => String::from_str("RDP"),
            5432 => String::from_str("PostgreSQL"),
            5900 => String::from_str("VNC"),
            6379 => String::from_str("Redis"),
            8080 => String::from_str("HTTP-Proxy"),
            8443 => String::from_str("HTTPS-Alt"),
            9200 => String::from_str("Elasticsearch"),
            27017 => String::from_str("MongoDB"),
            _ => String::from_str("Unknown"),
        }
    }

    /// Records the outcome of the connection attempt on one port.
    pub fn scan_port(&self, host: &str, port: u16, is_open: bool) -> (r: PortScanResult)
        ensures
            r@ == port_outcome(host@, port, is_open),
    {
        let service = if is_open {
            Some(self.identify_service(port))
        } else {
            None
        };
        PortScanResult { host: String::from_str(host), port, is_open, service }
    }

    /// Records the outcomes of the attempts on `ports`: `open[i]` tells
    /// whether the attempt on `ports[i]` was accepted.
    pub fn scan_ports(&self, host: &str, ports: Vec<u16>, open: &Vec<bool>) -> (r: Vec<
        PortScanResult,
    >)
        ensures
            r.deep_view() == scan_outcomes(host@, ports@, open@),
    {
        let mut out: Vec<PortScanResult> = Vec::new();
        let mut i: usize = 0;
        while i < ports.len()
            invariant
                i <= ports.len(),
                out.len() == i,
                forall|k: int|
                    0 <= k < i ==> (#[trigger] out[k])@ == port_outcome(
                        host@,
                        ports[k],
                        accepted(open@, k),
                    ),
            decreases ports.len() - i,
        {
            let is_open = i < open.len() && open[i];
            out.push(self.scan_port(host, ports[i], is_open));
            i = i + 1;
        }
        assert(out.deep_view() =~= scan_outcomes(host@, ports@, open@));
        out
    }

    /// The ports from `start` to `end`, both included.
    pub fn range_ports(start: u16, end: u16) -> (r: Vec<u16>)
        ensures
            r@ == port_range(start, end),
    {
        let mut out: Vec<u16> = Vec::new();
        if start > end {
            assert(out@ =~= port_range(start, end));
            return out;
        }
        let mut p: u16 = start;
        while p < end
            invariant
                start <= p <= end,
                out.len() == p - start,
                forall|k: int| 0 <= k < out.len() ==> out[k] == (start + k) as u16,
            decreases end - p,
        {
            out.push(p);
            p = p + 1;
        }
        out.push(end);
        assert(out@ =~= port_range(start, end));
        out
    }

    /// Records the outcomes of the attempts on the ports from `start` to
    /// `end`, both included.
    pub fn scan_port_range(&self, host: &str, start: u16, end: u16, open: &Vec<bool>) -> (r: Vec<
        PortScanResult,
    >)
        ensures
            r.deep_view() == scan_outcomes(host@, port_range(start, end), open@),
    {
        let ports = RustNetX::range_ports(start, end);
        self.scan_ports(host, ports, open)
    }

    /// The ports that a quick scan tries.
    pub fn common_ports() -> (r: Vec<u16>)
        ensures
            r@ == common_port_list(),
    {
        let mut out: Vec<u16> = Vec::new();
        out.push(21);
        out.push(22);
        out.push(23);
        out.push(25);
        out.push(53);
        out.push(80);
        out.push(110);
        out.push(143);
        out.push(443);
        out.push(445);
        out.push(3306);
        out.push(3389);
        out.push(5432);
        out.push(5900);
        out.push(8080);
        out.push(8443);
        assert(out@ =~= common_port_list());
        out
    }

    /// Draws the report for a host from the outcomes of its ports.
    pub fn summarize(host: &str, results: &Vec<PortScanResult>) -> (r: HostScanResult)
        ensures
            r@ == host_report(host@, results.deep_view()),
    {
        let ghost all = results.deep_view();
        let mut open_ports: Vec<u16> = Vec::new();
        let mut services: Vec<String> = Vec::new();
        let mut i: usize = 0;
        while i < results.len()
            invariant
                i <= results.len(),
                all == results.deep_view(),
                all.len() == results.len(),
                open_ports@ == all.take(i as int).filter_map(open_port()),
                services.deep_view() == all.take(i as int).filter_map(service_line()),
            decreases results.len() - i,
        {
            let r = &results[i];
            proof {
                all.lemma_filter_map_take_succ(open_port(), i as int);
                all.lemma_filter_map_take_succ(service_line(), i as int);
                assert(all[i as int] == r@);
            }
            let ghost before = services.deep_view();
            if r.is_open {
                open_ports.push(r.port);
                match &r.service {
                    Some(s) => {
                        let mut line = render_decimal(r.port as u128);
                        line.append(": ");
                        line.append(s.as_str());
                        services.push(line);
                        assert(services.deep_view() =~= before.push(line@));
                    },
                    None => {},
                }
            }
            assert(services.deep_view() =~= all.take(i + 1).filter_map(service_line()));
            i = i + 1;
        }
        assert(all.take(i as int) =~= all);
        let is_alive = open_ports.len() > 0;
        HostScanResult { host: String::from_str(host), is_alive, open_ports, services }
    }

    /// The report of a quick scan: `open[i]` tells whether the attempt on
    /// the `i`-th common port was accepted.
    pub fn quick_scan(&self, host: &str, open: &Vec<bool>) -> (r: HostScanResult)
        ensures
            r@ == host_report(host@, scan_outcomes(host@, common_port_list(), open@)),
    {
        let results = self.scan_ports(host, RustNetX::common_ports(), open);
        RustNetX::summarize(host, &results)
    }

    /// The report of a full scan, over the ports 1 to 1024.
    pub fn full_scan(&self, host: &str, open: &Vec<bool>) -> (r: HostScanResult)
        ensures
            r@ == host_report(host@, scan_outcomes(host@, port_range(1, 1024), open@)),
    {
        let results = self.scan_port_range(host, 1, 1024, open);
        RustNetX::summarize(host, &results)
    }

    /// The banner that an attempt to read one yields, or its network error.
    pub fn banner_grab(&self, attempt: BannerAttempt) -> (r: TransRResult<String>)
        ensures
            (match r {
                Ok(text) => Ok::<Seq<char>, Fault>(text@),
                Err(error) => Err::<Seq<char>, Fault>(error@),
            }) == banner_of(attempt@),
    {
        match attempt {
            BannerAttempt::InvalidAddress(reason) => Err(
                TransRError::NetworkError(join("Invalid address: ", reason.as_str())),
            ),
            BannerAttempt::NoAddress => Err(
                TransRError::NetworkError(String::from_str("No address found")),
            ),
            BannerAttempt::ConnectionFailed(reason) => Err(
                TransRError::NetworkError(join("Connection failed: ", reason.as_str())),
            ),
            BannerAttempt::Connected(Some(text)) => {
                if text.as_str().unicode_len() > 0 {
                    Ok(text)
                } else {
                    Ok(String::from_str("No banner received"))
                }
            },
            BannerAttempt::Connected(None) => Ok(String::from_str("No banner received")),
        }
    }

    /// How many of the outcomes are open.
    pub fn count_open(results: &Vec<PortScanResult>) -> (n: usize)
        ensures
            n == open_count(results.deep_view()),
    {
        let ghost all = results.deep_view();
        let mut n: usize = 0;
        let mut i: usize = 0;
        while i < results.len()
            invariant
                i <= results.len(),
                all == results.deep_view(),
                all.len() == results.len(),
                n == all.take(i as int).filter_map(open_port()).len(),
                n <= i,
            decreases results.len() - i,
        {
            proof {
                all.lemma_filter_map_take_succ(open_port(), i as int);
                assert(all[i as int] == results[i as int]@);
            }
            if results[i].is_open {
                n = n + 1;
            }
            i = i + 1;
        }
        assert(all.take(i as int) =~= all);
        n
    }
}

} // verus!
