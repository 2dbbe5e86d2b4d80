//! Where the API server listens.
use vstd::prelude::*;

use crate::filerequest_drive_handler::path_separator;
use crate::text::{find_char, strip_prefix, u64_to_string};

verus! {

/// A place to listen at: a TCP address, or a Unix domain socket.
pub enum Endpoint {
    Tcp { host: String, port: Option<u16> },
    Uds { path: String },
}

pub ghost enum EndpointView {
    Tcp { host: Seq<char>, port: Option<u16> },
    Uds { path: Seq<char> },
}

impl View for Endpoint {
    type V = EndpointView;

    open spec fn view(&self) -> EndpointView {
        match *self {
            Endpoint::Tcp { host, port } => EndpointView::Tcp { host: host@, port },
            Endpoint::Uds { path } => EndpointView::Uds { path: path@ },
        }
    }
}

impl Clone for Endpoint {
    fn clone(&self) -> (r: Self)
        ensures
            r == *self,
    {
        match self {
            Endpoint::Tcp { host, port } => Endpoint::Tcp { host: host.clone(), port: *port },
            Endpoint::Uds { path } => Endpoint::Uds { path: path.clone() },
        }
    }
}

/// The port that `text` denotes: decimal digits behind at most a plus sign, up to 65535.
pub open spec fn port_of_text(text: Seq<char>) -> Option<u16> {
    let digits = if text.len() > 0 && text[0] == '+' {
        text.skip(1)
    } else {
        text
    };
    if crate::text::all_digits(digits) && crate::text::digits_value(digits) <= u16::MAX {
        Some(crate::text::digits_value(digits) as u16)
    } else {
        None
    }
}

/// What `str::parse::<u16>` says about a text that is not a port.
pub uninterp spec fn port_error(text: Seq<char>) -> Seq<char>;

/// `str::parse::<u16>`: reads a number of at most 65535. The message of its error is a function
/// of the text.
#[verifier::external_body]
fn parse_port(text: &str) -> (r: Result<u16, String>)
    ensures
        match r {
            Ok(port) => port_of_text(text@) == Some(port),
            Err(message) => port_of_text(text@) is None && message@ == port_error(text@),
        },
{
    text.parse::<u16>().map_err(|e| e.to_string())
}

impl EndpointView {
    /// The endpoint that `raw` denotes on a Unix or on another system, or why it denotes none.
    pub open spec fn parsed(raw: Seq<char>, unix: bool) -> Result<EndpointView, Seq<char>> {
        if "uds:"@.is_prefix_of(raw) {
            let path = raw.skip(4);
            if !unix {
                Err("UDS endpoints not supported on this platform"@)
            } else if path.len() == 0 {
                Err("uds path empty"@)
            } else {
                Ok(EndpointView::Uds { path })
            }
        } else if "tcp:"@.is_prefix_of(raw) {
            let rest = raw.skip(4);
            match crate::text::first_index(rest, ':') {
                None => Ok(EndpointView::Tcp { host: rest, port: None }),
                Some(i) => match port_of_text(rest.skip(i + 1)) {
                    Some(port) => Ok(EndpointView::Tcp { host: rest.take(i), port: Some(port) }),
                    None => Err("invalid port: "@ + port_error(rest.skip(i + 1))),
                },
            }
        } else {
            Err("endpoint must start with 'tcp:' or 'uds:'"@)
        }
    }

    pub open spec fn text(self) -> Seq<char> {
        match self {
            EndpointView::Tcp { host, port } => "tcp:"@ + host + ":"@ + (match port {
                Some(port) => crate::text::decimal(port as nat),
                None => "-auto-"@,
            }),
            EndpointView::Uds { path } => "uds:"@ + path,
        }
    }
}

impl Endpoint {
    /// Whether this is what came of reading an endpoint.
    pub open spec fn is_read(
        got: Result<Self, String>,
        meant: Result<EndpointView, Seq<char>>,
    ) -> bool {
        match got {
            Ok(endpoint) => meant == Ok::<EndpointView, Seq<char>>(endpoint@),
            Err(message) => meant == Err::<EndpointView, Seq<char>>(message@),
        }
    }

    /// Reads `uds:PATH`, `tcp:HOST` or `tcp:HOST:PORT` on this machine, which knows sockets if it
    /// is a Unix.
    pub fn parse(raw: &str) -> (r: Result<Self, String>)
        ensures
            exists|separator: char| #[trigger]
                crate::filerequest_drive_handler::can_be_main_separator(separator)
                    && Self::is_read(r, EndpointView::parsed(raw@, separator == '/')),
            !"uds:"@.is_prefix_of(raw@) ==> Self::is_read(r, EndpointView::parsed(raw@, true)),
    {
        let separator = path_separator();
        Self::parse_for(raw, separator == '/')
    }

    /// Reads `uds:PATH`, `tcp:HOST` or `tcp:HOST:PORT`, the first of them only on a Unix.
    pub fn parse_for(raw: &str, unix: bool) -> (r: Result<Self, String>)
        ensures
            Self::is_read(r, EndpointView::parsed(raw@, unix)),
    {
        proof {
            reveal_strlit("uds:");
            reveal_strlit("tcp:");
        }
        if let Some(path) = strip_prefix(raw, "uds:") {
            if !unix {
                return Err("UDS endpoints not supported on this platform".to_owned());
            }
            if path.is_empty() {
                return Err("uds path empty".to_owned());
            }
            return Ok(Endpoint::Uds { path: path.to_owned() });
        }
        if let Some(rest) = strip_prefix(raw, "tcp:") {
            match find_char(rest, ':') {
                None => Ok(Endpoint::Tcp { host: rest.to_owned(), port: None }),
                Some(i) => {
                    let length: usize = rest.unicode_len();
                    let host = rest.substring_char(0, i);
                    let port_text = rest.substring_char(i + 1, length);
                    assert(rest@.subrange(0, i as int) =~= rest@.take(i as int));
                    assert(rest@.subrange(i + 1, rest@.len() as int) =~= rest@.skip(i + 1));
                    match parse_port(port_text) {
                        Ok(port) => Ok(Endpoint::Tcp { host: host.to_owned(), port: Some(port) }),
                        Err(message) => Err(
                            "invalid port: ".to_owned().concat(message.as_str()),
                        ),
                    }
                },
            }
        } else {
            Err("endpoint must start with 'tcp:' or 'uds:'".to_owned())
        }
    }

    pub fn display(&self) -> (r: String)
        ensures
            r@ == self@.text(),
    {
        match self {
            Endpoint::Tcp { host, port } => {
                let shown_port = match port {
                    Some(port) => u64_to_string(*port as u64),
                    None => "-auto-".to_owned(),
                };
                "tcp:".to_owned().concat(host.as_str()).concat(":").concat(shown_port.as_str())
            },
            Endpoint::Uds { path } => "uds:".to_owned().concat(path.as_str()),
        }
    }
}

/// Reading what is displayed of an endpoint gives the endpoint on a Unix, for a socket with a path and for
/// an address with a port and a host that holds no colon.
pub proof fn law_displayed_endpoint_reads_back(endpoint: EndpointView)
    requires
        match endpoint {
            EndpointView::Uds { path } => path.len() > 0,
            EndpointView::Tcp { host, port } => port is Some && !host.contains(':'),
        },
    ensures
        EndpointView::parsed(endpoint.text(), true) == Ok::<EndpointView, Seq<char>>(endpoint),
{
    reveal_strlit("uds:");
    reveal_strlit("tcp:");
    reveal_strlit(":");
    let raw = endpoint.text();
    match endpoint {
        EndpointView::Uds { path } => {
            assert(raw.take(4) =~= "uds:"@);
            assert(raw.skip(4) =~= path);
        },
        EndpointView::Tcp { host, port } => {
            let digits = crate::text::decimal(port->0 as nat);
            assert(raw.take(4) =~= "tcp:"@);
            assert(raw[0] == 't');
            assert("uds:"@[0] == 'u');
            let rest = raw.skip(4);
            assert(rest =~= host + ":"@ + digits);
            assert forall|j: int| 0 <= j < host.len() implies rest[j] != ':' by {
                assert(rest[j] == host[j]);
            }
            crate::text::lemma_first_index(rest, ':', host.len() as int);
            assert(rest.take(host.len() as int) =~= host);
            assert(rest.skip(host.len() as int + 1) =~= digits);
            crate::text::lemma_decimal_round_trip(port->0 as nat);
            assert(crate::text::is_digit(digits[0]));
        },
    }
}

} // verus!
