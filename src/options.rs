//! The connection parameters a client asks for.
use vstd::prelude::*;

verus! {

/// Credentials, virtual host, frame-size cap and heartbeat interval requested.
#[derive(Debug, PartialEq)]
pub struct ConnectionOptions {
    pub username: String,
    pub password: String,
    pub vhost: String,
    /// Largest frame requested; 0 asks for no cap.
    pub frame_max: u32,
    /// Heartbeat interval in seconds; 0 disables heartbeats.
    pub heartbeat: u16,
}

/// The fields of an AMQP URI that connection options are made from.
#[derive(Debug, PartialEq)]
pub struct UriParams {
    pub username: String,
    pub password: String,
    pub vhost: String,
    pub frame_max: Option<u32>,
    pub heartbeat: Option<u16>,
}

/// Username, password, vhost, frame_max and heartbeat, as plain values.
pub type UriFields = (Seq<char>, Seq<char>, Seq<char>, Option<u32>, Option<u16>);

impl UriParams {
    pub open spec fn fields(&self) -> UriFields {
        (self.username@, self.password@, self.vhost@, self.frame_max, self.heartbeat)
    }
}

/// The fields that amq-protocol's URI parser reads from a string, or `None`
/// where it refuses the string.
pub uninterp spec fn amqp_uri_fields(s: Seq<char>) -> Option<UriFields>;

/// Relies on amq_protocol::uri::AMQPUri::from_str: parses an AMQP URI,
/// filling in the defaults for what it leaves out, or gives an error message.
#[verifier::external_body]
fn parse_amqp_uri(s: &str) -> (r: Result<UriParams, String>)
    ensures
        match r {
            Ok(p) => amqp_uri_fields(s@) == Some(p.fields()),
            Err(_) => amqp_uri_fields(s@) is None,
        },
{
    let uri = <amq_protocol::uri::AMQPUri as std::str::FromStr>::from_str(s)?;
    Ok(UriParams {
        username: uri.authority.userinfo.username,
        password: uri.authority.userinfo.password,
        vhost: uri.vhost,
        frame_max: uri.query.frame_max,
        heartbeat: uri.query.heartbeat,
    })
}

/// An absent value, read as 0.
pub open spec fn or_zero_u32(v: Option<u32>) -> u32 {
    match v {
        Some(x) => x,
        None => 0,
    }
}

/// An absent value, read as 0.
pub open spec fn or_zero_u16(v: Option<u16>) -> u16 {
    match v {
        Some(x) => x,
        None => 0,
    }
}

impl ConnectionOptions {
    /// Username, password, vhost, frame_max and heartbeat, as plain values.
    pub open spec fn fields(&self) -> (Seq<char>, Seq<char>, Seq<char>, u32, u16) {
        (self.username@, self.password@, self.vhost@, self.frame_max, self.heartbeat)
    }

    /// The options that URI fields ask for; a missing cap or interval is 0.
    pub open spec fn fields_from_uri(f: UriFields) -> (Seq<char>, Seq<char>, Seq<char>, u32, u16) {
        (f.0, f.1, f.2, or_zero_u32(f.3), or_zero_u16(f.4))
    }

    pub fn from_uri(uri: UriParams) -> (r: ConnectionOptions)
        ensures
            r.fields() == Self::fields_from_uri(uri.fields()),
    {
        ConnectionOptions {
            username: uri.username,
            password: uri.password,
            vhost: uri.vhost,
            frame_max: match uri.frame_max {
                Some(v) => v,
                None => 0,
            },
            heartbeat: match uri.heartbeat {
                Some(v) => v,
                None => 0,
            },
        }
    }

    /// Parses an AMQP URI into options; fails with the parser's message.
    pub fn parse(s: &str) -> (r: Result<ConnectionOptions, String>)
        ensures
            match amqp_uri_fields(s@) {
                Some(f) => r is Ok && r->Ok_0.fields() == Self::fields_from_uri(f),
                None => r is Err,
            },
    {
        match parse_amqp_uri(s) {
            Ok(p) => Ok(ConnectionOptions::from_uri(p)),
            Err(e) => Err(e),
        }
    }
}

impl Default for ConnectionOptions {
    /// `guest`/`guest` on vhost `/`, no frame cap, heartbeats off.
    fn default() -> (r: ConnectionOptions)
        ensures
            r.username@ == "guest"@,
            r.password@ == "guest"@,
            r.vhost@ == "/"@,
            r.frame_max == 0,
            r.heartbeat == 0,
    {
        ConnectionOptions {
            username: String::from_str("guest"),
            password: String::from_str("guest"),
            vhost: String::from_str("/"),
            frame_max: 0,
            heartbeat: 0,
        }
    }
}

impl std::str::FromStr for ConnectionOptions {
    type Err = String;

    fn from_str(s: &str) -> Result<Self, Self::Err> {
        ConnectionOptions::parse(s)
    }
}

impl Clone for ConnectionOptions {
    fn clone(&self) -> (r: Self)
        ensures
            r == *self,
    {
        ConnectionOptions {
            username: self.username.clone(),
            password: self.password.clone(),
            vhost: self.vhost.clone(),
            frame_max: self.frame_max,
            heartbeat: self.heartbeat,
        }
    }
}

} // verus!
