//! Passwords, session cookies and the guard in front of the admin pages.
use argon2::password_hash::rand_core::OsRng;
use argon2::password_hash::{PasswordHash, PasswordHasher, PasswordVerifier, SaltString};
use crate::error::AppError;
use crate::ids::is_uuid_char;
use crate::text::{has_prefix, is_white_space, starts_with, trim, trim_bounds, trim_start};
use vstd::prelude::*;
use vstd::utf8::encode_utf8;

verus! {

// ── Passwords ─────────────────────────────────────────────

/// Whether `PasswordHash::new` of the `password-hash` crate accepts `phc`
/// as a PHC string. It depends on the text alone.
pub uninterp spec fn phc_string_parses(phc: Seq<char>) -> bool;

/// Whether `Argon2::default().verify_password` accepts the UTF-8 bytes of
/// `password` against the parsed PHC string `phc`. It depends on the two
/// texts alone: the algorithm, parameters and salt are those written in
/// `phc`.
pub uninterp spec fn argon2_accepts(password: Seq<char>, phc: Seq<char>) -> bool;

/// Calls `SaltString::generate(&mut OsRng)` and then
/// `Argon2::default().hash_password`, and formats the hash as a PHC string.
/// The salt is random, so the string is not a function of the password; the
/// contract claims what the crate shows of every outcome: the string
/// parses with `PasswordHash::new` and verifies against the same password,
/// and the call fails exactly when the password's UTF-8 bytes are more than
/// Argon2's `MAX_PWD_LEN` (0xFFFF_FFFF); with the default parameters and a
/// generated salt no other check can fail. An `Err` carries the crate's
/// error text. `OsRng` panics when the operating system cannot supply
/// random bytes; that depends on the machine, not on an input, and is not
/// excluded here.
#[verifier::external_body]
fn argon2_hash(password: &str) -> (r: Result<String, String>)
    ensures
        r is Ok <==> encode_utf8(password@).len() <= 0xFFFF_FFFF,
        r matches Ok(h) ==> phc_string_parses(h@) && argon2_accepts(password@, h@),
{
    let salt = SaltString::generate(&mut OsRng);
    match argon2::Argon2::default().hash_password(password.as_bytes(), &salt) {
        Ok(h) => Ok(h.to_string()),
        Err(e) => Err(e.to_string()),
    }
}

/// Calls `PasswordHash::new(phc)` and, when it succeeds,
/// `Argon2::default().verify_password(password, &parsed).is_ok()`. The
/// contract claims that the outcome is `Err` exactly when the PHC string
/// does not parse, and otherwise whether Argon2 accepts the password. An
/// `Err` carries the crate's error text.
#[verifier::external_body]
fn argon2_check(password: &str, phc: &str) -> (r: Result<bool, String>)
    ensures
        r is Ok <==> phc_string_parses(phc@),
        r matches Ok(b) ==> b == argon2_accepts(password@, phc@),
{
    match PasswordHash::new(phc) {
        Ok(parsed) => Ok(argon2::Argon2::default().verify_password(password.as_bytes(), &parsed).is_ok()),
        Err(e) => Err(e.to_string()),
    }
}

/// `phc` is a hash that `hash_password` may have returned for `password`.
pub open spec fn is_hash_of(password: Seq<char>, phc: Seq<char>) -> bool {
    phc_string_parses(phc) && argon2_accepts(password, phc)
}

/// Hashes a password with Argon2 and a fresh random salt, as a PHC string.
/// It succeeds for every password of at most 0xFFFF_FFFF bytes of UTF-8;
/// a longer one is refused by the hasher, an internal error.
pub fn hash_password(password: &str) -> (r: Result<String, AppError>)
    ensures
        r is Ok <==> encode_utf8(password@).len() <= 0xFFFF_FFFF,
        r matches Ok(h) ==> is_hash_of(password@, h@),
        r matches Err(e) ==> e is Internal,
{
    match argon2_hash(password) {
        Ok(h) => Ok(h),
        Err(m) => Err(AppError::Internal(m)),
    }
}

/// Checks a password against a stored PHC string: `Ok(true)` when it
/// matches, `Ok(false)` when it does not, and an internal error when the
/// stored string is not a PHC string.
pub fn verify_password(password: &str, hash: &str) -> (r: Result<bool, AppError>)
    ensures
        r is Ok <==> phc_string_parses(hash@),
        r matches Ok(b) ==> b == argon2_accepts(password@, hash@),
        r matches Err(e) ==> e is Internal,
{
    match argon2_check(password, hash) {
        Ok(b) => Ok(b),
        Err(m) => Err(AppError::Internal(m)),
    }
}

/// A password checks out against every hash made of it: whatever
/// `hash_password` returned for a password, `verify_password` of the same
/// password and that hash returns `Ok(true)`.
pub proof fn law_hash_then_verify(password: Seq<char>, phc: Seq<char>)
    requires
        is_hash_of(password, phc),
    ensures
        phc_string_parses(phc),
        argon2_accepts(password, phc),
{
}

// ── Session cookies ───────────────────────────────────────

/// The name under which the session token travels, with its `=`.
pub open spec fn session_prefix() -> Seq<char> {
    seq!['s', 'e', 's', 's', 'i', 'o', 'n', '=']
}

/// The attributes set with the session cookie: the whole site, no script
/// access, same site only, seven days.
pub open spec fn session_attributes() -> Seq<char> {
    "; Path=/; HttpOnly; SameSite=Strict; Max-Age=604800"@
}

/// The length of the first `;`-separated piece of `s`.
pub open spec fn piece_len(s: Seq<char>) -> nat
    decreases s.len(),
{
    if s.len() == 0 {
        0
    } else if s[0] == ';' {
        0
    } else {
        1 + piece_len(s.drop_first())
    }
}

/// The session token in a `Cookie` header: the header is split at `;`, and
/// the first piece that, trimmed of whitespace, begins with `session=`
/// gives what follows.
pub open spec fn session_token_of(s: Seq<char>) -> Option<Seq<char>>
    decreases s.len(),
{
    let n = piece_len(s);
    let t = trim(s.take(n as int));
    if has_prefix(t, session_prefix()) {
        Some(t.skip(8))
    } else if n < s.len() {
        session_token_of(s.skip(n + 1int))
    } else {
        None
    }
}

proof fn lemma_piece_len_le(s: Seq<char>)
    ensures
        piece_len(s) <= s.len(),
        forall|k: int| 0 <= k < piece_len(s) ==> s[k] != ';',
        piece_len(s) < s.len() ==> s[piece_len(s) as int] == ';',
    decreases s.len(),
{
    if s.len() > 0 && s[0] != ';' {
        let t = s.drop_first();
        lemma_piece_len_le(t);
        assert forall|k: int| 0 <= k < piece_len(s) implies s[k] != ';' by {
            if k > 0 {
                assert(s[k] == t[k - 1]);
            }
        }
        if piece_len(s) < s.len() {
            assert(s[piece_len(s) as int] == t[piece_len(t) as int]);
        }
    }
}

proof fn lemma_piece_len_is(s: Seq<char>, m: int)
    requires
        0 <= m <= s.len(),
        forall|k: int| 0 <= k < m ==> #[trigger] s[k] != ';',
        m == s.len() || s[m] == ';',
    ensures
        piece_len(s) == m,
    decreases m,
{
    if m > 0 {
        let t = s.drop_first();
        assert forall|k: int| 0 <= k < m - 1 implies #[trigger] t[k] != ';' by {
            assert(t[k] == s[k + 1]);
        }
        if m < s.len() {
            assert(t[m - 1] == s[m]);
        }
        lemma_piece_len_is(t, m - 1);
    }
}

/// The session token carried by a `Cookie` header, if any.
pub fn extract_session_token(cookie_header: &str) -> (r: Option<String>)
    ensures
        match session_token_of(cookie_header@) {
            Some(t) => r matches Some(s) && s@ == t,
            None => r is None,
        },
{
    let n = cookie_header.unicode_len();
    let ghost h = cookie_header@;
    let mut start: usize = 0;
    assert(h.skip(0) =~= h);
    loop
        invariant
            n == h.len(),
            h == cookie_header@,
            start <= n,
            session_token_of(h) == session_token_of(h.skip(start as int)),
        decreases n - start,
    {
        let mut end: usize = start;
        while end < n && cookie_header.get_char(end) != ';'
            invariant
                n == h.len(),
                h == cookie_header@,
                start <= end <= n,
                forall|k: int| start <= k < end ==> h[k] != ';',
            decreases n - end,
        {
            end = end + 1;
        }
        let ghost rest = h.skip(start as int);
        proof {
            assert forall|k: int| 0 <= k < end - start implies #[trigger] rest[k] != ';' by {
                assert(rest[k] == h[k + start]);
            }
            if end < n {
                assert(rest[end - start] == h[end as int]);
            }
            lemma_piece_len_is(rest, end - start);
            assert(rest.take(end - start) =~= h.subrange(start as int, end as int));
        }
        let piece = cookie_header.substring_char(start, end);
        let (i, j) = trim_bounds(piece);
        let t = piece.substring_char(i, j);
        proof {
            reveal_strlit("session=");
            assert("session="@ =~= session_prefix());
        }
        if starts_with(t, "session=") {
            let m = t.unicode_len();
            let tok = t.substring_char(8, m);
            assert(tok@ =~= t@.skip(8));
            return Some(String::from_str(tok));
        }
        if end == n {
            return None;
        }
        proof {
            assert(rest.skip(end - start + 1) =~= h.skip(end + 1));
        }
        start = end + 1;
    }
}

/// The `Set-Cookie` value that starts a session with `token`.
pub fn session_cookie(token: &str) -> (r: String)
    ensures
        r@ == session_prefix() + token@ + session_attributes(),
{
    proof {
        reveal_strlit("session=");
    }
    let s = String::from_str("session=").concat(token);
    let r = s.concat("; Path=/; HttpOnly; SameSite=Strict; Max-Age=604800");
    assert("session="@ =~= session_prefix());
    r
}

/// The `Set-Cookie` value that ends a session: an empty token that expires
/// at once.
pub fn cleared_session_cookie() -> (r: String)
    ensures
        r@ == "session=; Path=/; HttpOnly; SameSite=Strict; Max-Age=0"@,
{
    String::from_str("session=; Path=/; HttpOnly; SameSite=Strict; Max-Age=0")
}

/// A token that a `Cookie` header carries back unchanged: no `;` and no
/// whitespace inside.
pub open spec fn is_plain_token(token: Seq<char>) -> bool {
    forall|i: int| 0 <= i < token.len() ==> #[trigger] token[i] != ';' && !is_white_space(
        token[i],
    )
}

proof fn lemma_trim_plain(s: Seq<char>)
    requires
        is_plain_token(s),
    ensures
        trim(s) == s,
{
    if s.len() > 0 {
        assert(!is_white_space(s[0]));
        assert(!is_white_space(s.last()));
    }
}

/// A session token comes back: the `Cookie` header `session=<token>` that a
/// browser sends for the cookie this crate sets gives the token again, for
/// every token without `;` or whitespace in it.
pub proof fn law_session_token_round_trip(token: Seq<char>)
    requires
        is_plain_token(token),
    ensures
        session_token_of(session_prefix() + token) == Some(token),
{
    let s = session_prefix() + token;
    assert(is_plain_token(s)) by {
        assert forall|i: int| 0 <= i < s.len() implies #[trigger] s[i] != ';' && !is_white_space(
            s[i],
        ) by {
            if i >= 8 {
                assert(s[i] == token[i - 8]);
            }
        }
    }
    lemma_piece_len_is(s, s.len() as int);
    assert(s.take(s.len() as int) =~= s);
    lemma_trim_plain(s);
    assert(s.take(8) =~= session_prefix());
    assert(s.skip(8) =~= token);
}

/// A session token comes back after other cookies too: when the cookies
/// before it carry no session token, the header `<others>; session=<token>`
/// gives the token, for every token without `;` or whitespace in it.
pub proof fn law_session_token_after_other_cookies(others: Seq<char>, token: Seq<char>)
    requires
        is_plain_token(token),
        session_token_of(others) is None,
    ensures
        session_token_of(others + seq![';', ' '] + session_prefix() + token) == Some(token),
    decreases others.len(),
{
    let tail = session_prefix() + token;
    let s = others + seq![';', ' '] + session_prefix() + token;
    assert(s =~= others + seq![';', ' '] + tail);
    let n = piece_len(others);
    lemma_piece_len_le(others);
    assert forall|k: int| 0 <= k < n implies #[trigger] s[k] != ';' by {
        assert(s[k] == others[k]);
    }
    if n < others.len() {
        assert(s[n as int] == others[n as int]);
    } else {
        assert(s[n as int] == ';');
    }
    lemma_piece_len_is(s, n as int);
    assert(s.take(n as int) =~= others.take(n as int));
    assert(!has_prefix(trim(s.take(n as int)), session_prefix()));
    assert(n < s.len());
    assert(session_token_of(s) == session_token_of(s.skip(n + 1int)));
    if n < others.len() {
        let o2 = others.skip(n + 1int);
        law_session_token_after_other_cookies(o2, token);
        assert(s.skip(n + 1int) =~= o2 + seq![';', ' '] + session_prefix() + token);
    } else {
        let r = s.skip(n + 1int);
        assert(r =~= seq![' '] + tail);
        law_session_token_round_trip(token);
        let u = r.take(piece_len(r) as int);
        lemma_piece_len_le(r);
        assert(is_plain_token(tail)) by {
            assert forall|i: int| 0 <= i < tail.len() implies #[trigger] tail[i] != ';'
                && !is_white_space(tail[i]) by {
                if i >= 8 {
                    assert(tail[i] == token[i - 8]);
                }
            }
        }
        assert forall|k: int| 0 <= k < r.len() implies #[trigger] r[k] != ';' by {
            if k > 0 {
                assert(r[k] == tail[k - 1]);
            }
        }
        lemma_piece_len_is(r, r.len() as int);
        assert(u =~= r);
        assert(r.drop_first() =~= tail);
        assert(trim_start(r) == trim_start(tail));
        lemma_trim_plain(tail);
        assert(tail.len() > 0);
        assert(!is_white_space(tail[0]));
        assert(trim_start(tail) == tail);
        assert(trim(r) == tail);
        assert(tail.take(8) =~= session_prefix());
        assert(tail.skip(8) =~= token);
        assert(has_prefix(trim(r.take(piece_len(r) as int)), session_prefix()));
        assert(session_token_of(r) == Some(token));
    }
}

/// A fresh identifier is a plain token.
pub proof fn lemma_uuid_is_plain(token: Seq<char>)
    requires
        forall|i: int| 0 <= i < token.len() ==> is_uuid_char(#[trigger] token[i]),
    ensures
        is_plain_token(token),
{
    assert forall|i: int| 0 <= i < token.len() implies #[trigger] token[i] != ';'
        && !is_white_space(token[i]) by {
        assert(is_uuid_char(token[i]));
    }
}

// ── The guard in front of the admin pages ─────────────────

/// What the guard in front of the admin pages does with a request, before the
/// session is looked up.
#[derive(Debug)]
pub enum AuthStep {
    /// Onboarding is not complete: send the visitor to the setup page.
    RedirectToSetup,
    /// There is no session cookie: refuse.
    Refuse(AppError),
    /// Look up the session with this token.
    CheckSession(String),
}

/// The first decision of the guard: the setup page while onboarding is not
/// complete, a refusal without a session cookie, and otherwise the token to
/// look up.
pub fn auth_step(onboarding_complete: bool, cookie_header: Option<&str>) -> (r: AuthStep)
    ensures
        !onboarding_complete ==> r is RedirectToSetup,
        onboarding_complete ==> match cookie_header {
            Some(h) => match session_token_of(h@) {
                Some(t) => r matches AuthStep::CheckSession(s) && s@ == t,
                None => r matches AuthStep::Refuse(e) && e is Unauthorized,
            },
            None => r matches AuthStep::Refuse(e) && e is Unauthorized,
        },
{
    if !onboarding_complete {
        return AuthStep::RedirectToSetup;
    }
    match cookie_header {
        Some(h) => match extract_session_token(h) {
            Some(t) => AuthStep::CheckSession(t),
            None => AuthStep::Refuse(AppError::Unauthorized),
        },
        None => AuthStep::Refuse(AppError::Unauthorized),
    }
}

/// The second decision of the guard: a session that is not valid is refused,
/// a valid one lets the request through.
pub fn session_verdict(valid: bool) -> (r: Result<(), AppError>)
    ensures
        valid <==> r is Ok,
        r matches Err(e) ==> e is Unauthorized,
{
    if valid {
        Ok(())
    } else {
        Err(AppError::Unauthorized)
    }
}

} // verus!
