//! Configuration and master-key bootstrap.
//!
//! One configuration file backs a process-wide, write-once configuration:
//! on a first run (explicit init request, no file yet) the missing fields
//! are filled with defaults — host `127.0.0.1`, port `8080`, an empty TLS
//! list and, critically, a freshly generated master key — and the caller
//! persists the materialized result exactly once. On later runs the file
//! is loaded as it stands. Requesting init while a file exists is an
//! error, as is loading without init while none exists: the master key is
//! never regenerated over a valid one, since that would orphan every
//! secret sealed under it.

use vstd::prelude::*;

use crate::crypt::ChaCha20Poly1305;
use crate::encode::b64_of;
use crate::encode::Base64;
use crate::error::InternalError;
use crate::error::RuntimeError;
use crate::error::ServerConfigError;

verus! {

/// `t` is the canonical encoding of some 32-byte key.
pub open spec fn is_key_text(t: Seq<char>) -> bool {
    exists|k: Seq<u8>| k.len() == 32 && t == #[trigger] b64_of(k)
}

/// What joining `rel` onto the directory `dir` yields: an absolute `rel`
/// stands alone; otherwise the two are joined with exactly one separator.
pub open spec fn join_path_spec(dir: Seq<char>, rel: Seq<char>) -> Seq<char> {
    if rel.len() > 0 && rel[0] == '/' {
        rel
    } else if dir.len() == 0 {
        rel
    } else if dir[dir.len() - 1] == '/' {
        dir + rel
    } else {
        dir + seq!['/'] + rel
    }
}

/// Join a relative path onto a directory, as filesystem path joining does.
pub fn join_path(dir: &str, rel: &str) -> (r: String)
    ensures
        r@ == join_path_spec(dir@, rel@),
{
    let rel_len = rel.unicode_len();
    if rel_len > 0 && rel.get_char(0) == '/' {
        return rel.to_owned();
    }
    let dir_len = dir.unicode_len();
    if dir_len == 0 {
        return rel.to_owned();
    }
    if dir.get_char(dir_len - 1) == '/' {
        let mut s = dir.to_owned();
        s.append(rel);
        return s;
    }
    let mut s = dir.to_owned();
    s.append("/");
    s.append(rel);
    proof {
        reveal_strlit("/");
        assert(s@ =~= dir@ + seq!['/'] + rel@);
    }
    s
}

/// `n` occurs in `s` starting at offset `i`.
pub open spec fn matches_at(s: Seq<u8>, n: Seq<u8>, i: int) -> bool {
    0 <= i && i + n.len() <= s.len() && s.subrange(i, i + n.len()) == n
}

/// `n` occurs somewhere in `s` as a contiguous run.
pub open spec fn contains_seq(s: Seq<u8>, n: Seq<u8>) -> bool {
    exists|i: int| matches_at(s, n, i)
}

/// `[i, j)` delimits one line of `s`: it abuts a line feed or an end of the
/// text on both sides and holds no line feed itself.
pub open spec fn is_line_at(s: Seq<u8>, i: int, j: int) -> bool {
    &&& 0 <= i <= j <= s.len()
    &&& (i == 0 || s[i - 1] == 10u8)
    &&& (j == s.len() || s[j] == 10u8)
    &&& (forall|k: int| i <= k < j ==> s[k] != 10u8)
}

/// The line `[i, j)` of `s` with a trailing carriage return stripped.
pub open spec fn line_body(s: Seq<u8>, i: int, j: int) -> Seq<u8> {
    let l = s.subrange(i, j);
    if l.len() > 0 && l[l.len() - 1] == 13u8 {
        l.drop_last()
    } else {
        l
    }
}

/// The line `[i, j)` of `s` already covers `name`: it holds no comment mark
/// and mentions `name`.
pub open spec fn line_covers(s: Seq<u8>, i: int, j: int, name: Seq<u8>) -> bool {
    !contains_seq(line_body(s, i, j), seq![35u8]) && contains_seq(line_body(s, i, j), name)
}

/// No line of `s` covers `name` yet, so an entry must be appended.
pub open spec fn needs_entry(s: Seq<u8>, name: Seq<u8>) -> bool {
    forall|i: int, j: int| is_line_at(s, i, j) ==> !line_covers(s, i, j, name)
}

/// Whether `needle` occurs contiguously in `hay[lo..hi]`.
fn contains_range(hay: &[u8], lo: usize, hi: usize, needle: &[u8]) -> (r: bool)
    requires
        lo <= hi <= hay@.len(),
        hay@.len() < usize::MAX,
    ensures
        r <==> contains_seq(hay@.subrange(lo as int, hi as int), needle@),
{
    let ghost s = hay@.subrange(lo as int, hi as int);
    let n = needle.len();
    let width = hi - lo;
    if n > width {
        proof {
            assert forall|p: int| !matches_at(s, needle@, p) by {
                assert(s.len() == width);
            }
        }
        return false;
    }
    let mut q: usize = 0;
    while q <= width - n
        invariant
            lo <= hi <= hay@.len(),
            hay@.len() < usize::MAX,
            s == hay@.subrange(lo as int, hi as int),
            n == needle@.len(),
            width == hi - lo,
            n <= width,
            q <= width - n + 1,
            forall|p: int| 0 <= p < q ==> !matches_at(s, needle@, p),
        decreases width - n + 1 - q,
    {
        let mut j: usize = 0;
        let mut eq = true;
        while j < n && eq
            invariant
                lo <= hi <= hay@.len(),
                s == hay@.subrange(lo as int, hi as int),
                n == needle@.len(),
                width == hi - lo,
                q <= width - n,
                j <= n,
                eq ==> (forall|t: int| 0 <= t < j ==> s[q + t] == needle@[t]),
                !eq ==> !matches_at(s, needle@, q as int),
            decreases n - j,
        {
            proof {
                assert(s[q + j] == hay@[lo + q + j]);
            }
            if *vstd::slice::slice_index_get(hay, lo + q + j) != *vstd::slice::slice_index_get(
                needle,
                j,
            ) {
                proof {
                    if matches_at(s, needle@, q as int) {
                        assert(s.subrange(q as int, q + n)[j as int] == needle@[j as int]);
                        assert(false);
                    }
                }
                eq = false;
                j = n;
            } else {
                j = j + 1;
            }
        }
        if eq {
            proof {
                assert(s.subrange(q as int, q + n) =~= needle@);
                assert(matches_at(s, needle@, q as int));
            }
            return true;
        }
        q = q + 1;
    }
    proof {
        assert forall|p: int| !matches_at(s, needle@, p) by {
            if 0 <= p && p + needle@.len() <= s.len() {
                assert(p < q);
            }
        }
    }
    false
}

/// Whether an ignore list must still be extended with `file_name`: true
/// unless some line already names it outside a comment. Checking before
/// appending keeps the append idempotent.
pub fn gitignore_needs_entry(ignore: &[u8], file_name: &[u8]) -> (r: bool)
    requires
        ignore@.len() < usize::MAX,
    ensures
        r <==> needs_entry(ignore@, file_name@),
{
    let ghost s = ignore@;
    let n = ignore.len();
    let mut hash: Vec<u8> = Vec::new();
    hash.push(35u8);
    proof {
        assert(hash@ =~= seq![35u8]);
    }
    let mut needs = true;
    let mut start: usize = 0;
    let mut i: usize = 0;
    while i <= n
        invariant
            n == s.len(),
            n < usize::MAX,
            s == ignore@,
            hash@ == seq![35u8],
            start <= i <= n + 1,
            i <= n ==> (start == 0 || (start >= 1 && s[start - 1] == 10u8)),
            i == n + 1 ==> start == n + 1,
            forall|k: int| start <= k < i ==> s[k] != 10u8,
            needs <==> (forall|a: int, b: int|
                is_line_at(s, a, b) && b < start ==> !line_covers(s, a, b, file_name@)),
        decreases n + 1 - i,
    {
        if i == n || *vstd::slice::slice_index_get(ignore, i) == 10u8 {
            let bend = if i > start && *vstd::slice::slice_index_get(ignore, i - 1) == 13u8 {
                i - 1
            } else {
                i
            };
            proof {
                assert(is_line_at(s, start as int, i as int));
                assert(line_body(s, start as int, i as int) =~= s.subrange(
                    start as int,
                    bend as int,
                ));
            }
            let has_hash = contains_range(ignore, start, bend, hash.as_slice());
            let has_name = contains_range(ignore, start, bend, file_name);
            let covered = !has_hash && has_name;
            proof {
                assert(covered <==> line_covers(s, start as int, i as int, file_name@));
                assert forall|a: int, b: int|
                    is_line_at(s, a, b) && b < i + 1 && !(b < start) implies (a == start as int
                    && b == i as int) by {
                    if b < i {
                        assert(s[b] != 10u8);
                        assert(false);
                    }
                    if a < start {
                        assert(a <= start - 1 < i);
                        assert(s[start - 1] != 10u8);
                        assert(false);
                    }
                    if a > start {
                        assert(a >= 1 && s[a - 1] == 10u8);
                        assert(start <= a - 1 < i);
                        assert(false);
                    }
                }
            }
            let ghost old_needs = needs;
            if covered {
                needs = false;
            }
            proof {
                if needs {
                    assert forall|a: int, b: int| is_line_at(s, a, b) && b < i + 1 implies
                        !line_covers(s, a, b, file_name@) by {
                        if !(b < start) {
                            assert(a == start as int && b == i as int);
                        }
                    }
                } else if !old_needs {
                    let (a0, b0) = choose|a: int, b: int|
                        is_line_at(s, a, b) && b < start && line_covers(s, a, b, file_name@);
                    assert(is_line_at(s, a0, b0) && b0 < i + 1 && line_covers(
                        s,
                        a0,
                        b0,
                        file_name@,
                    ));
                } else {
                    assert(is_line_at(s, start as int, i as int) && (start as int) >= 0 && (
                    i as int) < i + 1 && line_covers(s, start as int, i as int, file_name@));
                }
            }
            start = i + 1;
        }
        i = i + 1;
    }
    proof {
        assert forall|a: int, b: int| is_line_at(s, a, b) implies b < start by {}
    }
    needs
}

/// The persisted configuration: every field optional on disk, filled in at
/// materialization.
#[derive(Debug, Clone)]
pub struct Config {
    /// The master symmetric key, as tagged base64 text.
    pub symmetric_key: Option<Base64<ChaCha20Poly1305>>,
    /// The bind address.
    pub host: Option<String>,
    /// The bind port.
    pub port: Option<u16>,
    /// Certificate/key path pairs; the format admits at most one.
    pub tls: Option<Vec<(String, String)>>,
}

impl Config {
    /// Decide what configuration text a run starts from. An init run over
    /// an existing file is refused (it would regenerate the master key over
    /// a valid one); a plain run without a file is refused (it would
    /// silently create an unmanaged configuration); an init run without a
    /// file starts from empty text; a plain run reads the file as it is.
    pub fn select_contents(init: bool, contents: Option<String>) -> (r: Result<
        String,
        RuntimeError,
    >)
        ensures
            (init && contents is Some) ==> r == Err::<String, RuntimeError>(
                RuntimeError::ServerError(
                    InternalError::ServerConfigError(
                        ServerConfigError::AlreadyInitializedOnInitRequest,
                    ),
                ),
            ),
            (init && contents is None) ==> (r matches Ok(s) && s@.len() == 0),
            !init ==> (contents matches Some(c) ==> (r matches Ok(s) && s == c)),
            (!init && contents is None) ==> r == Err::<String, RuntimeError>(
                RuntimeError::ServerError(
                    InternalError::ServerConfigError(ServerConfigError::MissingRequiredOnLoad),
                ),
            ),
    {
        match contents {
            Some(c) => {
                if init {
                    Err(
                        RuntimeError::ServerError(
                            InternalError::ServerConfigError(
                                ServerConfigError::AlreadyInitializedOnInitRequest,
                            ),
                        ),
                    )
                } else {
                    Ok(c)
                }
            },
            None => {
                if init {
                    Ok(String::new())
                } else {
                    Err(
                        RuntimeError::ServerError(
                            InternalError::ServerConfigError(
                                ServerConfigError::MissingRequiredOnLoad,
                            ),
                        ),
                    )
                }
            },
        }
    }

    /// Materialize the defaults: every absent field is filled in — host
    /// `127.0.0.1`, port `8080`, an empty TLS list, and a freshly generated
    /// 32-byte master key rendered as 43 characters of tagged text — and
    /// every present field is kept untouched. Returns whether anything was
    /// filled in, so the caller knows to persist the result exactly once.
    pub fn try_init(&mut self) -> (r: Result<bool, RuntimeError>)
        ensures
            r matches Ok(changed) && (changed <==> (old(self).host is None || old(self).port
                is None || old(self).tls is None || old(self).symmetric_key is None)),
            old(self).host is None ==> (final(self).host matches Some(h) && h@ == "127.0.0.1"@),
            old(self).host is Some ==> final(self).host == old(self).host,
            old(self).port is None ==> final(self).port == Some(8080u16),
            old(self).port is Some ==> final(self).port == old(self).port,
            old(self).tls is None ==> (final(self).tls matches Some(v) && v@.len() == 0),
            old(self).tls is Some ==> final(self).tls == old(self).tls,
            old(self).symmetric_key is None ==> (final(self).symmetric_key matches Some(t)
                && is_key_text(t@) && t@.len() == 43),
            old(self).symmetric_key is Some ==> final(self).symmetric_key == old(
                self,
            ).symmetric_key,
    {
        let mut change = false;
        if self.host.is_none() {
            self.host = Some(String::from_str("127.0.0.1"));
            change = true;
        }
        if self.port.is_none() {
            self.port = Some(8080u16);
            change = true;
        }
        if self.tls.is_none() {
            self.tls = Some(Vec::new());
            change = true;
        }
        if self.symmetric_key.is_none() {
            let key = ChaCha20Poly1305::generate();
            match key.serialize() {
                Ok(t) => {
                    proof {
                        assert(is_key_text(t@));
                    }
                    self.symmetric_key = Some(t);
                    change = true;
                },
                Err(e) => {
                    return Err(e);
                },
            }
        }
        Ok(change)
    }

    /// Resolve the TLS field against the configuration file's directory:
    /// no list is a configuration error, an empty list is "no TLS", a
    /// single pair is joined onto the directory, and two or more pairs are
    /// refused — the format admits at most one certificate/key pair.
    pub fn tls(&self, config_dir: &str) -> (r: Result<Option<(String, String)>, RuntimeError>)
        ensures
            self.tls is None ==> r == Err::<Option<(String, String)>, RuntimeError>(
                RuntimeError::ServerError(
                    InternalError::ServerConfigError(ServerConfigError::InvalidConfigFile),
                ),
            ),
            self.tls matches Some(v) ==> (v@.len() == 0 ==> r == Ok::<
                Option<(String, String)>,
                RuntimeError,
            >(None)),
            self.tls matches Some(v) ==> (v@.len() == 1 ==> (r matches Ok(o) && o matches Some(
                p,
            ) && p.0@ == join_path_spec(config_dir@, v@[0].0@) && p.1@ == join_path_spec(
                config_dir@,
                v@[0].1@,
            ))),
            self.tls matches Some(v) ==> (v@.len() >= 2 ==> r == Err::<
                Option<(String, String)>,
                RuntimeError,
            >(
                RuntimeError::ServerError(
                    InternalError::ServerConfigError(ServerConfigError::InvalidCert),
                ),
            )),
    {
        match &self.tls {
            None => Err(
                RuntimeError::ServerError(
                    InternalError::ServerConfigError(ServerConfigError::InvalidConfigFile),
                ),
            ),
            Some(v) => {
                if v.len() == 0 {
                    Ok(None)
                } else if v.len() == 1 {
                    let cert = join_path(config_dir, v[0].0.as_str());
                    let key = join_path(config_dir, v[0].1.as_str());
                    Ok(Some((cert, key)))
                } else {
                    Err(
                        RuntimeError::ServerError(
                            InternalError::ServerConfigError(ServerConfigError::InvalidCert),
                        ),
                    )
                }
            },
        }
    }

    /// Read the master key back out of its stored tagged text. Succeeds
    /// exactly when the text is the canonical encoding of 32 bytes, and
    /// then returns those bytes as the key.
    pub fn get_symmetric_key(&self) -> (r: Result<ChaCha20Poly1305, RuntimeError>)
        ensures
            self.symmetric_key is None ==> r == Err::<ChaCha20Poly1305, RuntimeError>(
                RuntimeError::ServerError(
                    InternalError::ServerConfigError(ServerConfigError::InvalidConfigFile),
                ),
            ),
            self.symmetric_key matches Some(t) ==> (r matches Ok(k) ==> (k.wf() && t@ == b64_of(
                k@,
            ) && (forall|b: Seq<u8>| t@ == #[trigger] b64_of(b) ==> b == k@))),
            self.symmetric_key matches Some(t) ==> (r is Err ==> (forall|b: Seq<u8>|
                t@ == #[trigger] b64_of(b) ==> b.len() != 32)),
            self.symmetric_key matches Some(t) ==> (r is Err ==> r == Err::<
                ChaCha20Poly1305,
                RuntimeError,
            >(RuntimeError::ServerError(InternalError::Base64DecodeError))),
    {
        match &self.symmetric_key {
            None => Err(
                RuntimeError::ServerError(
                    InternalError::ServerConfigError(ServerConfigError::InvalidConfigFile),
                ),
            ),
            Some(t) => ChaCha20Poly1305::deserialize(t),
        }
    }
}

} // verus!
