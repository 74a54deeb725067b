//! The description of one PostgreSQL target, its redacted rendering, and the
//! rule that decides which secret is used.
use vstd::prelude::*;

use crate::text::{debug_quoted, decimal, push_decimal, quote_debug, trim, trimmed};

verus! {

/// One PostgreSQL target: where it is, who connects, how large the pool is,
/// which secret to use and which TLS files, if any. Paths are file names.
#[derive(Clone)]
pub struct Config {
    pub name: String,
    pub host: String,
    pub port: u16,
    pub user: String,
    pub pool_size: u16,
    pub password: Option<String>,
    pub password_file: Option<String>,
    pub ca_cert_file: Option<String>,
    pub client_cert_file: Option<String>,
    pub client_key_file: Option<String>,
}

/// The three files of a mutual TLS setup.
#[derive(Clone)]
pub struct TlsFiles {
    pub ca_cert_file: String,
    pub client_cert_file: String,
    pub client_key_file: String,
}

/// Whether `s` holds no NUL character, as a path handed to the TLS library
/// must not.
pub open spec fn free_of_nul(s: Seq<char>) -> bool {
    forall|i: int| 0 <= i < s.len() ==> s[i] != '\0'
}

/// Tests that `s` holds no NUL character.
pub fn is_free_of_nul(s: &str) -> (r: bool)
    ensures
        r == free_of_nul(s@),
{
    let n = s.unicode_len();
    let mut i: usize = 0;
    while i < n
        invariant
            n == s@.len(),
            i <= n,
            forall|k: int| 0 <= k < i ==> s@[k] != '\0',
        decreases n - i,
    {
        if s.get_char(i) == '\0' {
            return false;
        }
        i = i + 1;
    }
    true
}

/// Whether every TLS path that `c` names can be handed to the TLS library.
pub open spec fn tls_paths_usable(c: Config) -> bool {
    &&& (c.ca_cert_file is Some ==> free_of_nul(c.ca_cert_file->Some_0@))
    &&& (c.client_cert_file is Some ==> free_of_nul(c.client_cert_file->Some_0@))
    &&& (c.client_key_file is Some ==> free_of_nul(c.client_key_file->Some_0@))
}

/// The secret that is used, given the inline password and the text read from
/// the password file (`None` where no file is read): the file's text with
/// white space trimmed wins; else the inline password, untrimmed; else none.
pub open spec fn secret_of(password: Option<Seq<char>>, file_text: Option<Seq<char>>) -> Option<
    Seq<char>,
> {
    match file_text {
        Some(text) => Some(trimmed(text)),
        None => password,
    }
}

/// The secret that `c` resolves to, where `file_text` is what its password
/// file holds; the text counts only where `c` names a password file.
pub open spec fn config_secret(c: Config, file_text: Option<Seq<char>>) -> Option<Seq<char>> {
    secret_of(
        c.password.deep_view(),
        if c.password_file is Some {
            file_text
        } else {
            None
        },
    )
}

/// Applies the secret precedence to an inline password and the text read
/// from a password file.
pub fn resolve_secret(password: Option<String>, file_text: Option<String>) -> (r: Option<String>)
    ensures
        r.deep_view() == secret_of(password.deep_view(), file_text.deep_view()),
{
    match file_text {
        Some(text) => Some(trim(text.as_str())),
        None => password,
    }
}

/// Without an inline password or a password file there is no secret.
pub proof fn lemma_secret_absent(c: Config, file_text: Option<Seq<char>>)
    requires
        c.password is None,
        c.password_file is None,
    ensures
        config_secret(c, file_text) is None,
{
}

/// With both an inline password and a password file, the secret is the
/// file's trimmed text: the inline value is passed over.
pub proof fn lemma_secret_file_wins(c: Config, file_text: Seq<char>)
    requires
        c.password is Some,
        c.password_file is Some,
    ensures
        config_secret(c, Some(file_text)) == Some(trimmed(file_text)),
{
}

/// With only an inline password, the secret is that password exactly,
/// untrimmed.
pub proof fn lemma_secret_inline(c: Config, file_text: Option<Seq<char>>)
    requires
        c.password is Some,
        c.password_file is None,
    ensures
        config_secret(c, file_text) == Some(c.password->Some_0@),
{
}

/// The text that stands for the password: a fixed marker where one is set.
pub open spec fn password_text(p: Option<String>) -> Seq<char> {
    if p is Some {
        "Some(\"[REDACTED]\")"@
    } else {
        "None"@
    }
}

/// The text that stands for an optional path.
pub open spec fn optional_text(p: Option<String>) -> Seq<char> {
    match p {
        Some(s) => "Some("@ + debug_quoted(s@) + ")"@,
        None => "None"@,
    }
}

/// The debug rendering of a configuration, with the password redacted.
pub open spec fn rendered(c: Config) -> Seq<char> {
    "Config { name: "@ + debug_quoted(c.name@) + ", host: "@ + debug_quoted(c.host@) + ", port: "@
        + decimal(c.port as nat) + ", user: "@ + debug_quoted(c.user@) + ", pool_size: "@ + decimal(
        c.pool_size as nat,
    ) + ", password: "@ + password_text(c.password) + ", password_file: "@ + optional_text(
        c.password_file,
    ) + ", ca_cert_file: "@ + optional_text(c.ca_cert_file) + ", client_cert_file: "@
        + optional_text(c.client_cert_file) + ", client_key_file: "@ + optional_text(
        c.client_key_file,
    ) + " }"@
}

fn push_quoted(out: &mut String, s: &str)
    ensures
        final(out)@ == old(out)@ + debug_quoted(s@),
{
    let q = quote_debug(s);
    out.append(q.as_str());
}

fn push_optional(out: &mut String, p: &Option<String>)
    ensures
        final(out)@ == old(out)@ + optional_text(*p),
{
    let ghost start = out@;
    match p {
        Some(s) => {
            out.append("Some(");
            push_quoted(out, s.as_str());
            out.append(")");
            assert(out@ =~= start + optional_text(*p));
        },
        None => {
            out.append("None");
        },
    }
}

impl Config {
    /// The TLS files, where all three are named; otherwise none, and the
    /// connection is made without TLS.
    pub fn tls_files(&self) -> (r: Option<TlsFiles>)
        ensures
            r is Some <==> (self.ca_cert_file is Some && self.client_cert_file is Some
                && self.client_key_file is Some),
            r is Some ==> r->Some_0.ca_cert_file == self.ca_cert_file->Some_0
                && r->Some_0.client_cert_file == self.client_cert_file->Some_0
                && r->Some_0.client_key_file == self.client_key_file->Some_0,
    {
        match (&self.ca_cert_file, &self.client_cert_file, &self.client_key_file) {
            (Some(ca), Some(cert), Some(key)) => Some(
                TlsFiles {
                    ca_cert_file: ca.clone(),
                    client_cert_file: cert.clone(),
                    client_key_file: key.clone(),
                },
            ),
            _ => None,
        }
    }

    /// Tests whether every TLS path that this configuration names can be
    /// handed to the TLS library.
    pub fn has_usable_tls_paths(&self) -> (r: bool)
        ensures
            r == tls_paths_usable(*self),
    {
        let ca = match &self.ca_cert_file {
            Some(p) => is_free_of_nul(p.as_str()),
            None => true,
        };
        let cert = match &self.client_cert_file {
            Some(p) => is_free_of_nul(p.as_str()),
            None => true,
        };
        let key = match &self.client_key_file {
            Some(p) => is_free_of_nul(p.as_str()),
            None => true,
        };
        ca && cert && key
    }

    /// The debug rendering of this configuration. The password's value never
    /// appears in it: a fixed marker stands in its place.
    pub fn debug_string(&self) -> (r: String)
        ensures
            r@ == rendered(*self),
    {
        let mut out = String::from_str("Config { name: ");
        push_quoted(&mut out, self.name.as_str());
        out.append(", host: ");
        push_quoted(&mut out, self.host.as_str());
        out.append(", port: ");
        push_decimal(&mut out, self.port as u64);
        out.append(", user: ");
        push_quoted(&mut out, self.user.as_str());
        out.append(", pool_size: ");
        push_decimal(&mut out, self.pool_size as u64);
        out.append(", password: ");
        if self.password.is_some() {
            out.append("Some(\"[REDACTED]\")");
        } else {
            out.append("None");
        }
        out.append(", password_file: ");
        push_optional(&mut out, &self.password_file);
        out.append(", ca_cert_file: ");
        push_optional(&mut out, &self.ca_cert_file);
        out.append(", client_cert_file: ");
        push_optional(&mut out, &self.client_cert_file);
        out.append(", client_key_file: ");
        push_optional(&mut out, &self.client_key_file);
        out.append(" }");
        out
    }
}

/// Two configurations that differ only in the value of a set password render
/// alike: the rendering does not depend on what the password is.
pub proof fn lemma_rendering_hides_password(a: Config, b: Config)
    requires
        a.password is Some,
        b.password is Some,
        a.name == b.name,
        a.host == b.host,
        a.port == b.port,
        a.user == b.user,
        a.pool_size == b.pool_size,
        a.password_file == b.password_file,
        a.ca_cert_file == b.ca_cert_file,
        a.client_cert_file == b.client_cert_file,
        a.client_key_file == b.client_key_file,
    ensures
        rendered(a) == rendered(b),
{
}

/// Whether `t` occurs in `s` as a contiguous part.
pub open spec fn occurs_in(t: Seq<char>, s: Seq<char>) -> bool {
    exists|i: int| 0 <= i && i + t.len() <= s.len() && #[trigger] s.subrange(i, i + t.len()) == t
}

/// A set password shows in the rendering exactly where the same text shows
/// with any other password set in its place: whatever occurrence there is
/// comes from the other fields and the fixed labels, never from the password.
pub proof fn lemma_password_text_not_rendered(c: Config, other: String)
    requires
        c.password is Some,
    ensures
        occurs_in(c.password->Some_0@, rendered(c)) == occurs_in(
            c.password->Some_0@,
            rendered(Config { password: Some(other), ..c }),
        ),
{
    lemma_rendering_hides_password(c, Config { password: Some(other), ..c });
}

/// The rendering of a configuration with a set password holds the
/// redaction marker.
pub proof fn lemma_rendering_marks_password(c: Config)
    requires
        c.password is Some,
    ensures
        exists|i: int|
            0 <= i && i + 10 <= rendered(c).len() && #[trigger] rendered(c).subrange(i, i + 10)
                == "[REDACTED]"@,
{
    let pre = "Config { name: "@ + debug_quoted(c.name@) + ", host: "@ + debug_quoted(c.host@)
        + ", port: "@ + decimal(c.port as nat) + ", user: "@ + debug_quoted(c.user@)
        + ", pool_size: "@ + decimal(c.pool_size as nat) + ", password: "@;
    let mark = "Some(\"[REDACTED]\")"@;
    let post = ", password_file: "@ + optional_text(c.password_file) + ", ca_cert_file: "@
        + optional_text(c.ca_cert_file) + ", client_cert_file: "@ + optional_text(
        c.client_cert_file,
    ) + ", client_key_file: "@ + optional_text(c.client_key_file) + " }"@;
    reveal_strlit("Some(\"[REDACTED]\")");
    reveal_strlit("[REDACTED]");
    assert(rendered(c) =~= pre + mark + post);
    let i: int = pre.len() as int + 6;
    assert((pre + mark + post).subrange(i, i + 10) =~= "[REDACTED]"@);
}

} // verus!
