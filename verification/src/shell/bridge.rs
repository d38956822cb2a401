//! The shell's view of its backend: whether it is up, the address to call,
//! and the shared secret and port the browser extension pairs with.
use vstd::prelude::*;
use crate::desktop::types::opt_view;

verus! {

/// The backend's lifecycle as the front end sees it.
pub enum SidecarStatus {
    Ready(String),
    Failed(String),
    Starting,
}

/// What the shell knows of its backend.
pub struct BridgeState {
    pub base_url: Option<String>,
    pub last_err: Option<String>,
    pub token: Option<String>,
    pub port: Option<u16>,
}

/// What the extension is paired with: the port, the token, and the one
/// code that carries both (base64 of `"<port>:<token>"`).
pub struct Pairing {
    pub port: u16,
    pub token: String,
    pub code: String,
}

/// `"<port>:<token>"`.
pub open spec fn pairing_text(port: u16, token: Seq<char>) -> Seq<char> {
    crate::text::decimal(port as nat) + ":"@ + token
}

pub open spec fn not_ready_spec() -> Seq<char> {
    "Backend is not ready yet"@
}

impl BridgeState {
    /// Nothing known yet: the backend is starting.
    pub fn new() -> (r: Self)
        ensures
            r.base_url is None,
            r.last_err is None,
            r.token is None,
            r.port is None,
    {
        BridgeState { base_url: None, last_err: None, token: None, port: None }
    }

    /// Ready once the address is known, failed once an error is recorded,
    /// else starting.
    pub fn status(&self) -> (r: SidecarStatus)
        ensures
            match self.base_url {
                Some(u) => (r matches SidecarStatus::Ready(x) && x@ == u@),
                None => match self.last_err {
                    Some(e) => (r matches SidecarStatus::Failed(x) && x@ == e@),
                    None => r is Starting,
                },
            },
    {
        match &self.base_url {
            Some(u) => SidecarStatus::Ready(u.clone()),
            None => match &self.last_err {
                Some(e) => SidecarStatus::Failed(e.clone()),
                None => SidecarStatus::Starting,
            },
        }
    }

    /// The backend address, or "Backend is not ready yet".
    pub fn require_url(&self) -> (r: Result<String, String>)
        ensures
            match self.base_url {
                Some(u) => (r matches Ok(x) && x@ == u@),
                None => (r matches Err(e) && e@ == not_ready_spec()),
            },
    {
        match &self.base_url {
            Some(u) => Ok(u.clone()),
            None => Err(crate::text::owned("Backend is not ready yet")),
        }
    }

    /// The backend address and the bridge token, or "Backend is not ready
    /// yet" when either is unknown.
    pub fn url_and_token(&self) -> (r: Result<(String, String), String>)
        ensures
            match (self.base_url, self.token) {
                (Some(u), Some(t)) => (r matches Ok((x, y)) && x@ == u@ && y@ == t@),
                _ => (r matches Err(e) && e@ == not_ready_spec()),
            },
    {
        match (&self.base_url, &self.token) {
            (Some(u), Some(t)) => Ok((u.clone(), t.clone())),
            _ => Err(crate::text::owned("Backend is not ready yet")),
        }
    }

    /// The pairing for the extension once port and token are known.
    pub fn pairing(&self) -> (r: Option<Pairing>)
        ensures
            match (self.port, self.token) {
                (Some(p), Some(t)) => (r matches Some(x) && x.port == p && x.token@ == t@ && x.code@
                    == crate::sse::base64_of_text(pairing_text(p, t@))),
                _ => r is None,
            },
    {
        match (self.port, &self.token) {
            (Some(p), Some(t)) => {
                let mut text = crate::text::decimal_string(p as u64);
                crate::text::push_str(&mut text, ":");
                crate::text::push_str(&mut text, t.as_str());
                let code = crate::sse::base64_encode_text(text.as_str());
                Some(Pairing { port: p, token: t.clone(), code })
            },
            _ => None,
        }
    }

    /// Records a backend that answered at `url` on `port`, paired by `token`.
    pub fn on_started(&mut self, url: String, token: String, port: u16)
        ensures
            opt_view(final(self).base_url) == Some(url@),
            opt_view(final(self).token) == Some(token@),
            final(self).port == Some(port),
            final(self).last_err is None,
    {
        self.base_url = Some(url);
        self.token = Some(token);
        self.port = Some(port);
        self.last_err = None;
    }

    /// Records a backend that failed to start.
    pub fn on_failed(&mut self, err: String)
        ensures
            opt_view(final(self).last_err) == Some(err@),
            final(self).base_url == old(self).base_url,
            final(self).token == old(self).token,
            final(self).port == old(self).port,
    {
        self.last_err = Some(err);
    }

    /// Forgets the address when the program exits.
    pub fn on_exit(&mut self)
        ensures
            final(self).base_url is None,
            final(self).last_err == old(self).last_err,
            final(self).token == old(self).token,
            final(self).port == old(self).port,
    {
        self.base_url = None;
    }
}

// ─── Bridge token ───────────────────────────────────────────────────────────

/// Lowercase hexadecimal digit for `d < 16`.
pub open spec fn hex_char(d: nat) -> char {
    if d < 10 {
        (48 + d) as char
    } else {
        (87 + d) as char
    }
}

/// Two lowercase hexadecimal digits per byte.
pub open spec fn hex_of(bytes: Seq<u8>) -> Seq<char>
    decreases bytes.len(),
{
    if bytes.len() == 0 {
        seq![]
    } else {
        hex_of(bytes.drop_last()) + seq![
            hex_char((bytes.last() / 16) as nat),
            hex_char((bytes.last() % 16) as nat),
        ]
    }
}

pub proof fn lemma_hex_of(bytes: Seq<u8>)
    ensures
        hex_of(bytes).len() == 2 * bytes.len(),
        forall|i: int| 0 <= i < hex_of(bytes).len() ==> crate::text::is_hex_digit(#[trigger] hex_of(bytes)[i]),
    decreases bytes.len(),
{
    if bytes.len() > 0 {
        lemma_hex_of(bytes.drop_last());
        let h = hex_of(bytes.drop_last());
        let b = bytes.last();
        assert forall|i: int| 0 <= i < hex_of(bytes).len() implies crate::text::is_hex_digit(
            #[trigger] hex_of(bytes)[i],
        ) by {
            if i < h.len() {
                assert(hex_of(bytes)[i] == h[i]);
            }
        }
    }
}

fn hex_digit(d: u8) -> (c: char)
    requires
        d < 16,
    ensures
        c == hex_char(d as nat),
{
    if d < 10 {
        (48u8 + d) as char
    } else {
        (87u8 + d) as char
    }
}

/// The bytes as lowercase hexadecimal ([`hex_of`]).
pub fn hex_token(bytes: &[u8]) -> (r: String)
    ensures
        r@ == hex_of(bytes@),
{
    let mut s = String::new();
    let mut i: usize = 0;
    assert(bytes@.take(0) =~= Seq::<u8>::empty());
    while i < bytes.len()
        invariant
            0 <= i <= bytes.len(),
            s@ == hex_of(bytes@.take(i as int)),
        decreases bytes.len() - i,
    {
        let b = bytes[i];
        crate::text::push_char(&mut s, hex_digit(b / 16));
        crate::text::push_char(&mut s, hex_digit(b % 16));
        assert(bytes@.take(i + 1).drop_last() =~= bytes@.take(i as int));
        assert(s@ =~= hex_of(bytes@.take(i + 1)));
        i += 1;
    }
    assert(bytes@.take(i as int) =~= bytes@);
    s
}

/// Fills 32 bytes from the operating system's random source with
/// `getrandom::getrandom`; `None` when the source is unavailable. Nothing is
/// claimed of the bytes.
#[verifier::external_body]
fn random_bytes() -> (r: Option<[u8; 32]>) {
    let mut bytes = [0u8; 32];
    match getrandom::getrandom(&mut bytes) {
        Ok(()) => Some(bytes),
        Err(_) => None,
    }
}

/// A fresh 256-bit bridge token: 64 lowercase hexadecimal digits of OS
/// randomness (`None` when the OS cannot supply randomness).
pub fn gen_token() -> (r: Option<String>)
    ensures
        r matches Some(t) ==> exists|b: Seq<u8>| b.len() == 32 && t@ == hex_of(b),
        r matches Some(t) ==> crate::shell::sidecar::token_ok(t@),
{
    match random_bytes() {
        Some(b) => {
            let t = hex_token(&b);
            proof {
                lemma_hex_of(b@);
            }
            Some(t)
        },
        None => None,
    }
}

} // verus!
