//! The connection descriptor, its validation, the connection string, and the
//! session that owns the single live connection handle.

use crate::text::dec_digits;
use vstd::prelude::*;
use vstd::utf8::encode_utf8;

verus! {

/// The descriptor of a database target: identity, display name, endpoint,
/// credentials and target database name.
#[derive(Debug, Clone)]
pub struct ConnectionConfig {
    pub id: String,
    pub name: String,
    pub host: String,
    pub port: u16,
    pub user: String,
    pub password: String,
    pub database: String,
}

impl ConnectionConfig {
    /// A descriptor is usable iff host, user and database are non-empty
    /// and the port is non-zero.
    pub open spec fn is_valid(&self) -> bool {
        &&& self.host@.len() > 0
        &&& self.port != 0
        &&& self.user@.len() > 0
        &&& self.database@.len() > 0
    }

    /// The message reported for the first failing check of an invalid
    /// descriptor.
    pub open spec fn validation_error(&self) -> Seq<char> {
        if self.host@.len() == 0 {
            "Host cannot be empty"@
        } else if self.port == 0 {
            "Invalid port number"@
        } else if self.user@.len() == 0 {
            "User cannot be empty"@
        } else {
            "Database name cannot be empty"@
        }
    }

    /// Checks the descriptor, reporting the first violated rule.
    pub fn validate(&self) -> (r: Result<(), String>)
        ensures
            r is Ok <==> self.is_valid(),
            !self.is_valid() ==> (r matches Err(m) && m@ == self.validation_error()),
    {
        if self.host.as_str().is_empty() {
            return Err("Host cannot be empty".to_owned());
        }
        if self.port == 0 {
            return Err("Invalid port number".to_owned());
        }
        if self.user.as_str().is_empty() {
            return Err("User cannot be empty".to_owned());
        }
        if self.database.as_str().is_empty() {
            return Err("Database name cannot be empty".to_owned());
        }
        Ok(())
    }

    /// The public-safe summary of this descriptor: every identifying field,
    /// the connected flag, and no credential.
    pub fn summary(&self) -> (r: ConnectionInfo)
        ensures
            matches_config(r, *self),
            r.is_connected,
    {
        ConnectionInfo {
            id: self.id.clone(),
            name: self.name.clone(),
            host: self.host.clone(),
            port: self.port,
            database: self.database.clone(),
            is_connected: true,
        }
    }
}

/// A byte the percent-encoding leaves as it is: an ASCII alphanumeric or
/// one of '-', '.', '_', '~'.
pub open spec fn unreserved_byte(b: u8) -> bool {
    ||| (48 <= b && b <= 57)
    ||| (65 <= b && b <= 90)
    ||| (97 <= b && b <= 122)
    ||| b == 45
    ||| b == 46
    ||| b == 95
    ||| b == 126
}

/// One uppercase hexadecimal digit.
pub open spec fn hex_digit_char(d: int) -> char {
    if d == 0 {
        '0'
    } else if d == 1 {
        '1'
    } else if d == 2 {
        '2'
    } else if d == 3 {
        '3'
    } else if d == 4 {
        '4'
    } else if d == 5 {
        '5'
    } else if d == 6 {
        '6'
    } else if d == 7 {
        '7'
    } else if d == 8 {
        '8'
    } else if d == 9 {
        '9'
    } else if d == 10 {
        'A'
    } else if d == 11 {
        'B'
    } else if d == 12 {
        'C'
    } else if d == 13 {
        'D'
    } else if d == 14 {
        'E'
    } else {
        'F'
    }
}

/// How one byte is percent-encoded: an unreserved byte stands as itself,
/// every other byte becomes '%' and two uppercase hexadecimal digits.
pub open spec fn enc_byte(b: u8) -> Seq<char> {
    if unreserved_byte(b) {
        seq![b as char]
    } else {
        seq!['%', hex_digit_char((b >> 4) as int), hex_digit_char((b & 15) as int)]
    }
}

/// The percent-encoding of a byte sequence, byte for byte.
pub open spec fn enc_bytes(bs: Seq<u8>) -> Seq<char>
    decreases bs.len(),
{
    if bs.len() == 0 {
        Seq::empty()
    } else {
        enc_byte(bs[0]) + enc_bytes(bs.drop_first())
    }
}

/// The percent-encoding of a string: its UTF-8 bytes, each unreserved byte
/// kept, every other byte escaped as '%' and two uppercase hexadecimal
/// digits.
pub open spec fn enc_of(s: Seq<char>) -> Seq<char> {
    enc_bytes(encode_utf8(s))
}

/// Relies on urlencoding::encode: percent-encodes every byte of the UTF-8
/// form except ASCII alphanumerics and '-', '.', '_', '~', the rest as '%'
/// and two uppercase hexadecimal digits; an empty input yields an empty
/// result.
#[verifier::external_body]
fn percent_encode(s: &str) -> (r: String)
    ensures
        r@ == enc_of(s@),
        s@.len() == 0 ==> r@.len() == 0,
{
    urlencoding::encode(s).into_owned()
}

/// The exact shape of the connection string built for a descriptor: a
/// postgres URL whose user, password and database name are percent-encoded.
pub open spec fn connection_string_of(c: ConnectionConfig) -> Seq<char> {
    "postgres://"@ + enc_of(c.user@) + ":"@ + enc_of(c.password@) + "@"@ + c.host@ + ":"@
        + dec_digits(c.port as int) + "/"@ + enc_of(c.database@)
}

/// Builds the connection string for a descriptor, percent-encoding the
/// credential components so reserved URI characters travel correctly. An
/// empty password leaves a literal empty password segment between the ':'
/// and the '@'.
pub fn build_connection_string(config: &ConnectionConfig) -> (r: String)
    ensures
        r@ == connection_string_of(*config),
        config.password@.len() == 0 ==> r@ == "postgres://"@ + enc_of(config.user@) + ":@"@
            + config.host@ + ":"@ + dec_digits(config.port as int) + "/"@ + enc_of(
            config.database@,
        ),
{
    let mut s = "postgres://".to_owned();
    s.append(percent_encode(config.user.as_str()).as_str());
    s.append(":");
    s.append(percent_encode(config.password.as_str()).as_str());
    s.append("@");
    s.append(config.host.as_str());
    s.append(":");
    s.append(crate::text::u64_to_dec_string(config.port as u64).as_str());
    s.append("/");
    s.append(percent_encode(config.database.as_str()).as_str());
    proof {
        if config.password@.len() == 0 {
            reveal_strlit(":");
            reveal_strlit("@");
            reveal_strlit(":@");
            assert(enc_of(config.password@) =~= Seq::<char>::empty());
            assert(s@ =~= "postgres://"@ + enc_of(config.user@) + ":@"@ + config.host@ + ":"@
                + dec_digits(config.port as int) + "/"@ + enc_of(config.database@));
        }
    }
    s
}

/// The public-safe view of a connection: identifying fields and a connected
/// flag, never the credential.
#[derive(Debug)]
pub struct ConnectionInfo {
    pub id: String,
    pub name: String,
    pub host: String,
    pub port: u16,
    pub database: String,
    pub is_connected: bool,
}

/// The summary reports exactly the identifying fields of the descriptor.
pub open spec fn matches_config(info: ConnectionInfo, c: ConnectionConfig) -> bool {
    &&& info.id@ == c.id@
    &&& info.name@ == c.name@
    &&& info.host@ == c.host@
    &&& info.port == c.port
    &&& info.database@ == c.database@
}

/// The session: at most one live connection handle and at most one
/// descriptor, always consistent as a pair. The handle type is whatever the
/// caller's driver hands out; the session only owns it.
pub struct Session<H> {
    handle: Option<H>,
    config: Option<ConnectionConfig>,
}

impl<H> Session<H> {
    /// A live handle is present exactly when a descriptor is.
    pub closed spec fn wf(&self) -> bool {
        self.handle is Some <==> self.config is Some
    }

    /// Both halves of the pair are present.
    pub closed spec fn is_connected(&self) -> bool {
        self.handle is Some && self.config is Some
    }

    /// Neither half of the pair is present.
    pub closed spec fn disconnected(&self) -> bool {
        self.handle is None && self.config is None
    }

    /// The active descriptor, if any.
    pub closed spec fn descriptor(&self) -> Option<ConnectionConfig> {
        self.config
    }

    /// The session is connected and its descriptor is exactly `c`.
    pub open spec fn connected_with(&self, c: ConnectionConfig) -> bool {
        self.is_connected() && self.descriptor() == Some(c)
    }

    /// What `status` reports: the public-safe summary when both halves are
    /// present, nothing otherwise.
    pub open spec fn status_spec(&self) -> Option<ConnectionInfo> {
        if self.is_connected() {
            Some(
                ConnectionInfo {
                    id: self.descriptor()->0.id,
                    name: self.descriptor()->0.name,
                    host: self.descriptor()->0.host,
                    port: self.descriptor()->0.port,
                    database: self.descriptor()->0.database,
                    is_connected: true,
                },
            )
        } else {
            None
        }
    }

    /// A fresh session with no connection.
    pub fn new() -> (s: Self)
        ensures
            s.wf(),
            s.disconnected(),
    {
        Session { handle: None, config: None }
    }

    /// Installs a freshly opened handle together with its descriptor,
    /// replacing both halves of the pair atomically, and returns the
    /// public-safe summary of the new connection.
    pub fn establish(&mut self, handle: H, config: ConnectionConfig) -> (r: ConnectionInfo)
        ensures
            final(self).wf(),
            final(self).connected_with(config),
            matches_config(r, config),
            r.is_connected,
    {
        let r = config.summary();
        self.handle = Some(handle);
        self.config = Some(config);
        r
    }

    /// Drops the descriptor and hands the live handle, if any, back to the
    /// caller so it can be closed gracefully. Always succeeds; on a session
    /// with no connection it is a no-op.
    pub fn clear(&mut self) -> (h: Option<H>)
        ensures
            final(self).wf(),
            final(self).disconnected(),
            h == old(self).handle_opt(),
            h is Some <==> old(self).handle_present(),
    {
        let h = self.handle.take();
        self.config = None;
        h
    }

    /// Whether a live handle is held.
    pub closed spec fn handle_present(&self) -> bool {
        self.handle is Some
    }

    /// The held handle, if any.
    pub closed spec fn handle_opt(&self) -> Option<H> {
        self.handle
    }

    /// The public-safe summary if and only if both handle and descriptor are
    /// present; never the credential.
    pub fn info(&self) -> (r: Option<ConnectionInfo>)
        ensures
            r is Some <==> self.is_connected(),
            r matches Some(i) ==> i.is_connected,
            (r is Some && self.descriptor() is Some) ==> matches_config(
                r->0,
                self.descriptor()->0,
            ),
    {
        if self.handle.is_some() {
            match &self.config {
                Some(config) => Some(config.summary()),
                None => None,
            }
        } else {
            None
        }
    }

    /// The live handle, or the not-connected error. Every query or
    /// introspection request passes here before any work is attempted: with
    /// no live connection it fails at this point, before anything reaches
    /// the network.
    pub fn require_handle(&self) -> (r: Result<&H, String>)
        requires
            self.wf(),
        ensures
            r is Ok <==> self.is_connected(),
            r matches Ok(h) ==> self.handle_opt() == Some(*h),
            !self.is_connected() ==> (r matches Err(m) && m@ == "Not connected to a database"@),
    {
        match &self.handle {
            Some(h) => Ok(h),
            None => Err("Not connected to a database".to_owned()),
        }
    }

    /// A connected session's status matches its descriptor field for field
    /// and reports it as connected; the summary type has no credential field
    /// at all, so no status ever carries the password.
    pub proof fn lemma_connect_then_status(self, c: ConnectionConfig)
        requires
            self.connected_with(c),
        ensures
            self.status_spec() matches Some(i) && matches_config(i, c) && i.is_connected,
    {
    }

    /// Disconnecting is idempotent: `clear` always succeeds and always leaves
    /// the session disconnected, so a second call in a row succeeds as well,
    /// finds no handle to close, and the status after either call reports no
    /// connection.
    pub proof fn lemma_disconnect_idempotent(self)
        requires
            self.disconnected(),
        ensures
            !self.is_connected(),
            !self.handle_present(),
            self.status_spec() is None,
    {
    }
}

} // verus!
