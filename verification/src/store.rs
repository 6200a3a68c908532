//! The persisted credential record and its durable textual form.
//!
//! A cached record holds the last-known access token, the instant the token
//! stops being usable, and the long-lived refresh credential. The record is
//! written as four-part text: the token's character length as a decimal
//! numeral, a newline, the token itself, a newline, the expiry instant as a
//! decimal numeral, a newline, and the refresh credential to the end. The
//! length prefix lets both secrets carry any characters, newlines included,
//! and decoding an encoded record is proved to give the record back exactly.

use vstd::prelude::*;
use crate::numeral::{
    dec_digits, dec_value, is_numeral, lemma_dec_digits, lemma_digit_not_newline, u64_to_dec,
    dec_to_u64,
};

verus! {

/// The credential record kept on disk between runs.
#[derive(Debug)]
pub struct CachedCredentials {
    /// Opaque bearer token for the downstream game service.
    pub access_token: String,
    /// Seconds since the Unix epoch, UTC; the token must not be used at or
    /// after this instant.
    pub access_token_expiry: u64,
    /// Long-lived secret that can mint a new access token without an
    /// interactive login.
    pub refresh_credential: String,
}

/// The mathematical value of a credential record.
pub ghost struct CredsView {
    pub token: Seq<char>,
    pub expiry: int,
    pub refresh: Seq<char>,
}

impl View for CachedCredentials {
    type V = CredsView;

    open spec fn view(&self) -> CredsView {
        CredsView {
            token: self.access_token@,
            expiry: self.access_token_expiry as int,
            refresh: self.refresh_credential@,
        }
    }
}

impl Default for CachedCredentials {
    /// The placeholder used before any login has happened: an empty token
    /// that expired at the epoch, so it can never pass the freshness test.
    fn default() -> (c: CachedCredentials)
        ensures
            c@.token.len() == 0,
            c@.expiry == 0,
            c@.refresh.len() == 0,
    {
        CachedCredentials {
            access_token: String::new(),
            access_token_expiry: 0,
            refresh_credential: String::new(),
        }
    }
}

/// A record value the store can hold: both numerals fit in a machine word.
pub open spec fn creds_encodable(c: CredsView) -> bool {
    0 <= c.expiry <= u64::MAX && c.token.len() <= u64::MAX
}

/// The record exists on disk but cannot be read back as a record.
#[derive(Debug, Clone, Copy, PartialEq, Eq, Structural)]
pub struct StoreCorrupt;

/// The textual form of a record.
pub open spec fn encode_spec(c: CredsView) -> Seq<char> {
    dec_digits(c.token.len()) + seq!['\n'] + c.token + seq!['\n'] + dec_digits(c.expiry as nat)
        + seq!['\n'] + c.refresh
}

/// Index of the first newline in `s`, or `s.len()` when there is none.
pub open spec fn find_nl(s: Seq<char>) -> int
    decreases s.len(),
{
    if s.len() == 0 {
        0
    } else if s[0] == '\n' {
        0
    } else {
        1 + find_nl(s.skip(1))
    }
}

/// What `find_nl` finds: the characters before it are not newlines, and it
/// stops either on a newline or at the end.
pub proof fn lemma_find_nl(s: Seq<char>)
    ensures
        0 <= find_nl(s) <= s.len(),
        forall|j: int| 0 <= j < find_nl(s) ==> s[j] != '\n',
        find_nl(s) < s.len() ==> s[find_nl(s)] == '\n',
    decreases s.len(),
{
    if s.len() == 0 {
    } else if s[0] == '\n' {
    } else {
        lemma_find_nl(s.skip(1));
        assert forall|j: int| 0 <= j < find_nl(s) implies s[j] != '\n' by {
            if j > 0 {
                assert(s.skip(1)[j - 1] == s[j]);
            }
        }
        if find_nl(s) < s.len() {
            assert(s.skip(1)[find_nl(s) - 1] == s[find_nl(s)]);
        }
    }
}

/// A position with no newline before it and a newline (or the end) at it is
/// exactly where `find_nl` stops.
pub proof fn lemma_find_nl_at(s: Seq<char>, m: int)
    requires
        0 <= m <= s.len(),
        forall|j: int| 0 <= j < m ==> s[j] != '\n',
        m < s.len() ==> s[m] == '\n',
    ensures
        find_nl(s) == m,
    decreases m,
{
    if s.len() == 0 {
    } else if m == 0 {
        lemma_find_nl(s);
    } else {
        assert(s[0] != '\n');
        assert forall|j: int| 0 <= j < m - 1 implies s.skip(1)[j] != '\n' by {
            assert(s.skip(1)[j] == s[j + 1]);
        }
        assert(m - 1 < s.skip(1).len() ==> s.skip(1)[m - 1] == '\n');
        lemma_find_nl_at(s.skip(1), m - 1);
    }
}

/// Index of the first newline at or after `from`, or the length when none.
fn find_newline(s: &str, from: usize, len: usize) -> (k: usize)
    requires
        from <= len,
        len == s@.len(),
    ensures
        from <= k <= len,
        k - from == find_nl(s@.skip(from as int)),
{
    let mut k = from;
    while k < len
        invariant
            from <= k <= len,
            len == s@.len(),
            forall|j: int| from <= j < k ==> s@[j] != '\n',
        decreases len - k,
    {
        let c = s.get_char(k);
        if c == '\n' {
            proof {
                let t = s@.skip(from as int);
                assert forall|j: int| 0 <= j < k - from implies t[j] != '\n' by {
                    assert(t[j] == s@[from + j]);
                }
                assert(t[k - from] == s@[k as int]);
                lemma_find_nl_at(t, k - from);
            }
            return k;
        }
        k = k + 1;
    }
    proof {
        let t = s@.skip(from as int);
        assert forall|j: int| 0 <= j < k - from implies t[j] != '\n' by {
            assert(t[j] == s@[from + j]);
        }
        lemma_find_nl_at(t, k - from);
    }
    k
}

/// Writes a record in its durable textual form.
pub fn encode_credentials(c: &CachedCredentials) -> (s: String)
    ensures
        s@ == encode_spec(c@),
{
    let token_len = c.access_token.as_str().unicode_len();
    let mut s = u64_to_dec(token_len as u64);
    s.append("\n");
    s.append(c.access_token.as_str());
    s.append("\n");
    let expiry = u64_to_dec(c.access_token_expiry);
    s.append(expiry.as_str());
    s.append("\n");
    s.append(c.refresh_credential.as_str());
    proof {
        reveal_strlit("\n");
        assert(("\n")@ =~= seq!['\n']);
        assert(s@ =~= encode_spec(c@));
    }
    s
}

/// The record a stored text denotes, if it denotes one: a decimal token
/// length up to the first newline, that many token characters, a newline,
/// a decimal expiry up to the next newline, and the refresh credential to
/// the end.
pub open spec fn decode_spec(s: Seq<char>) -> Option<CredsView> {
    let i = find_nl(s);
    if i == s.len() {
        None
    } else {
        let lenstr = s.take(i);
        if !(is_numeral(lenstr) && dec_value(lenstr) <= u64::MAX) {
            None
        } else {
            let n = dec_value(lenstr) as int;
            let rest = s.skip(i + 1);
            if rest.len() < n + 1 {
                None
            } else if rest[n] != '\n' {
                None
            } else {
                let rest2 = rest.skip(n + 1);
                let j = find_nl(rest2);
                if j == rest2.len() {
                    None
                } else {
                    let expstr = rest2.take(j);
                    if !(is_numeral(expstr) && dec_value(expstr) <= u64::MAX) {
                        None
                    } else {
                        Some(
                            CredsView {
                                token: rest.take(n),
                                expiry: dec_value(expstr) as int,
                                refresh: rest2.skip(j + 1),
                            },
                        )
                    }
                }
            }
        }
    }
}

/// Reads a record back from its stored text; anything the grammar does not
/// accept is a corrupt store, never a panic.
pub fn decode_credentials(s: &str) -> (r: Result<CachedCredentials, StoreCorrupt>)
    ensures
        decode_spec(s@) matches Some(c) ==> (r matches Ok(cc) && cc@ == c),
        decode_spec(s@) is None ==> r is Err,
{
    let len = s.unicode_len();
    let i = find_newline(s, 0, len);
    proof {
        assert(s@.skip(0) =~= s@);
    }
    if i == len {
        return Err(StoreCorrupt);
    }
    let lenstr = s.substring_char(0, i);
    proof {
        assert(lenstr@ =~= s@.take(i as int));
    }
    let n = match dec_to_u64(lenstr) {
        None => {
            return Err(StoreCorrupt);
        },
        Some(n) => n,
    };
    let rest_len = len - (i + 1);
    if n >= rest_len as u64 {
        return Err(StoreCorrupt);
    }
    let ntok = n as usize;
    proof {
        assert(s@.skip(i as int + 1).len() == rest_len);
        assert(s@.skip(i as int + 1)[n as int] == s@[i as int + 1 + n]);
    }
    let sep = s.get_char(i + 1 + ntok);
    if sep != '\n' {
        return Err(StoreCorrupt);
    }
    let token = s.substring_char(i + 1, i + 1 + ntok);
    proof {
        assert(token@ =~= s@.skip(i as int + 1).take(n as int));
    }
    let base = i + 1 + ntok + 1;
    let j = find_newline(s, base, len);
    proof {
        assert(s@.skip(i as int + 1).skip(n as int + 1) =~= s@.skip(base as int));
    }
    if j == len {
        return Err(StoreCorrupt);
    }
    let expstr = s.substring_char(base, j);
    proof {
        assert(expstr@ =~= s@.skip(base as int).take(j as int - base));
    }
    let expiry = match dec_to_u64(expstr) {
        None => {
            return Err(StoreCorrupt);
        },
        Some(e) => e,
    };
    let refresh = s.substring_char(j + 1, len);
    proof {
        assert(refresh@ =~= s@.skip(base as int).skip(j as int - base + 1));
    }
    Ok(
        CachedCredentials {
            access_token: String::from_str(token),
            access_token_expiry: expiry,
            refresh_credential: String::from_str(refresh),
        },
    )
}

/// Writing a record and reading it back gives the record itself: the stored
/// text of any encodable record decodes to exactly that record.
pub proof fn lemma_encode_decode(c: CredsView)
    requires
        creds_encodable(c),
    ensures
        decode_spec(encode_spec(c)) == Some(c),
{
    let a = dec_digits(c.token.len());
    let e = dec_digits(c.expiry as nat);
    lemma_dec_digits(c.token.len());
    lemma_dec_digits(c.expiry as nat);
    let s = encode_spec(c);
    let n = c.token.len() as int;
    assert forall|j: int| 0 <= j < a.len() implies s[j] != '\n' by {
        assert(s[j] == a[j]);
        lemma_digit_not_newline(a[j]);
    }
    assert(s[a.len() as int] == '\n');
    lemma_find_nl_at(s, a.len() as int);
    assert(s.take(a.len() as int) =~= a);
    let rest = s.skip(a.len() as int + 1);
    assert(rest =~= c.token + seq!['\n'] + e + seq!['\n'] + c.refresh);
    assert(rest[n] == '\n');
    assert(rest.take(n) =~= c.token);
    let rest2 = rest.skip(n + 1);
    assert(rest2 =~= e + seq!['\n'] + c.refresh);
    assert forall|j: int| 0 <= j < e.len() implies rest2[j] != '\n' by {
        assert(rest2[j] == e[j]);
        lemma_digit_not_newline(e[j]);
    }
    assert(rest2[e.len() as int] == '\n');
    lemma_find_nl_at(rest2, e.len() as int);
    assert(rest2.take(e.len() as int) =~= e);
    assert(rest2.skip(e.len() as int + 1) =~= c.refresh);
}

/// What a read returns is a function of the stored text alone, so two loads
/// with no write in between see the same record.
pub proof fn lemma_load_deterministic(s: Seq<char>, c1: CredsView, c2: CredsView)
    requires
        decode_spec(s) == Some(c1),
        decode_spec(s) == Some(c2),
    ensures
        c1 == c2,
{
}

} // verus!
