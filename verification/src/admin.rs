//! The admin session manager: a single shared secret and an in-memory map
//! from opaque bearer tokens to expiry instants. Wrong passwords are
//! unauthorized-kind errors; missing or expired tokens merely report `false`.
//! Every operation opportunistically sweeps already-expired entries.

use vstd::prelude::*;
use vstd::seq_lib::group_seq_lib_default;
use crate::error::ApiError;
use crate::text;

verus! {

broadcast use group_seq_lib_default;

/// Sessions live one hour from the instant they are minted.
pub const SESSION_TTL_MS: i64 = 3600000;

/// One live session: a bearer token and the instant it expires.
pub struct Session {
    pub token: String,
    pub expires_at_ms: i64,
}

#[verifier::ext_equal]
pub ghost struct SessionModel {
    pub token: Seq<char>,
    pub expires_at_ms: int,
}

impl View for Session {
    type V = SessionModel;

    open spec fn view(&self) -> SessionModel {
        SessionModel { token: self.token@, expires_at_ms: self.expires_at_ms as int }
    }
}

/// The entries still alive at instant `now`.
pub open spec fn swept(e: Seq<SessionModel>, now: int) -> Seq<SessionModel> {
    e.filter(|p: SessionModel| p.expires_at_ms > now)
}

/// The session table after a login at instant `now` minted `token`: expired
/// entries and any older session under the same token are gone, and the
/// fresh token expires at `now + SESSION_TTL_MS`.
pub open spec fn granted(e: Seq<SessionModel>, token: Seq<char>, now: int) -> Seq<SessionModel> {
    e.filter(|p: SessionModel| p.expires_at_ms > now && p.token != token).push(
        SessionModel { token, expires_at_ms: now + SESSION_TTL_MS },
    )
}

/// The session table after `token` is logged out.
pub open spec fn revoked(e: Seq<SessionModel>, token: Seq<char>) -> Seq<SessionModel> {
    e.filter(|p: SessionModel| p.token != token)
}

/// `token` is present and not yet expired at instant `now`.
pub open spec fn has_live_token(e: Seq<SessionModel>, token: Seq<char>, now: int) -> bool {
    exists|i: int| 0 <= i < e.len() && e[i].token == token && e[i].expires_at_ms > now
}

/// Every element of a filtered sequence is an element of the original.
proof fn lemma_filter_elems<A>(s: Seq<A>, pred: spec_fn(A) -> bool)
    ensures
        forall|i: int| 0 <= i < s.filter(pred).len() ==> s.contains(#[trigger] s.filter(pred)[i]),
    decreases s.len(),
{
    reveal(Seq::filter);
    if s.len() > 0 {
        lemma_filter_elems(s.drop_last(), pred);
        assert forall|i: int| 0 <= i < s.filter(pred).len() implies s.contains(
            #[trigger] s.filter(pred)[i],
        ) by {
            let f = s.filter(pred);
            let fd = s.drop_last().filter(pred);
            if i < fd.len() {
                assert(fd[i] == f[i]);
                let j = choose|j: int| 0 <= j < s.drop_last().len() && s.drop_last()[j] == fd[i];
                assert(s[j] == fd[i]);
            } else {
                assert(f[i] == s.last());
            }
        }
    }
}

/// The admin session manager: the shared secret, loaded once at
/// construction, and the set of live sessions.
pub struct AdminService {
    password: String,
    sessions: Vec<Session>,
}

#[verifier::ext_equal]
pub ghost struct AdminServiceModel {
    pub password: Seq<char>,
    pub entries: Seq<SessionModel>,
}

impl View for AdminService {
    type V = AdminServiceModel;

    closed spec fn view(&self) -> AdminServiceModel {
        AdminServiceModel {
            password: self.password@,
            entries: self.sessions@.map_values(|s: Session| s@),
        }
    }
}

/// Relies on chrono's `Utc::now` and `timestamp_millis`: the current instant
/// as Unix milliseconds. Nothing is assumed of the value.
#[verifier::external_body]
fn now_millis() -> (r: i64) {
    chrono::Utc::now().timestamp_millis()
}

impl AdminService {
    /// Builds the manager from the secret's raw text (as read from the
    /// configured password file), trimming surrounding whitespace. The
    /// session table starts empty.
    pub fn new(secret_text: &str) -> (s: AdminService)
        ensures
            s@.password == text::spec_trim_spaces(secret_text@),
            s@.entries == Seq::<SessionModel>::empty(),
    {
        let s = AdminService { password: text::trim_spaces(secret_text), sessions: Vec::new() };
        proof {
            assert(s@.entries =~= Seq::<SessionModel>::empty());
        }
        s
    }

    /// Drops every session expired at `now` and any session under `token`,
    /// then registers `token` as expiring at `expires_at_ms`.
    fn store_session(&mut self, token: String, now: i64, expires_at_ms: i64)
        ensures
            final(self)@.password == old(self)@.password,
            final(self)@.entries == old(self)@.entries.filter(
                |p: SessionModel| p.expires_at_ms > now && p.token != token@,
            ).push(SessionModel { token: token@, expires_at_ms: expires_at_ms as int }),
    {
        let ghost m = self@.entries;
        let ghost pred = |p: SessionModel| p.expires_at_ms > now && p.token != token@;
        let mut kept: Vec<Session> = Vec::new();
        let n = self.sessions.len();
        let mut i: usize = 0;
        proof {
            reveal(Seq::filter);
            assert(m.take(0) =~= Seq::<SessionModel>::empty());
        }
        while i < n
            invariant
                i <= n,
                n == self.sessions@.len(),
                m == self@.entries,
                self@.entries == self.sessions@.map_values(|s: Session| s@),
                kept@.map_values(|s: Session| s@) == m.take(i as int).filter(pred),
                pred == (|p: SessionModel| p.expires_at_ms > now && p.token != token@),
            decreases n - i,
        {
            let e = &self.sessions[i];
            let keep = e.expires_at_ms > now && !text::string_eq_str(&e.token, token.as_str());
            proof {
                reveal(Seq::filter);
                assert(m.take(i + 1).drop_last() =~= m.take(i as int));
                assert(m.take(i + 1).last() == m[i as int]);
            }
            if keep {
                kept.push(Session { token: e.token.clone(), expires_at_ms: e.expires_at_ms });
            }
            proof {
                assert(kept@.map_values(|s: Session| s@) =~= m.take(i + 1).filter(pred));
            }
            i += 1;
        }
        proof {
            assert(m.take(n as int) =~= m);
        }
        kept.push(Session { token, expires_at_ms });
        self.sessions = kept;
        proof {
            assert(final(self)@.entries =~= old(self)@.entries.filter(pred).push(
                SessionModel { token: token@, expires_at_ms: expires_at_ms as int },
            ));
        }
    }

    /// Verifies the shared secret with a comparison that scans every
    /// character position whatever the outcome. On a match, mints a fresh
    /// token (a 36-character UUID) mapped to one hour from now, sweeping
    /// expired sessions; a wrong password is the unauthorized-kind error
    /// "Invalid password" and changes nothing. On success the returned
    /// expiry pins the sampled instant: the new table is exactly
    /// `granted(old, token, expiry - SESSION_TTL_MS)`.
    pub fn verify_password(&mut self, password: &str) -> (r: Result<(String, i64), ApiError>)
        ensures
            r is Ok <==> password@ == old(self)@.password,
            final(self)@.password == old(self)@.password,
            r matches Ok((token, exp)) ==> final(self)@.entries == granted(
                old(self)@.entries,
                token@,
                exp - SESSION_TTL_MS,
            ) && crate::ident::uuid_text(token@),
            r matches Err(e) ==> (e matches ApiError::Unauthorized(m) && m@
                == "Invalid password"@ && final(self)@ == old(self)@),
    {
        if !text::constant_scan_str_eq(self.password.as_str(), password) {
            return Err(ApiError::Unauthorized(String::from_str("Invalid password")));
        }
        let token = crate::ident::fresh_uuid();
        let now = now_millis();
        let expires_at_ms = if now > i64::MAX - SESSION_TTL_MS {
            i64::MAX
        } else {
            now + SESSION_TTL_MS
        };
        // An expiry clamped at the far end of the representable range would
        // distort the sweep instant below; no real clock reaches it.
        let now = expires_at_ms - SESSION_TTL_MS;
        let token_out = token.clone();
        self.store_session(token, now, expires_at_ms);
        Ok((token_out, expires_at_ms))
    }

    /// Sweeps expired sessions at `now`, then reports whether `token` is
    /// present and live: exactly `has_live_token(old, token, now)`.
    pub fn verify_token_at(&mut self, token: &str, now: i64) -> (r: bool)
        ensures
            final(self)@.password == old(self)@.password,
            final(self)@.entries == swept(old(self)@.entries, now as int),
            r == has_live_token(old(self)@.entries, token@, now as int),
    {
        let ghost m = self@.entries;
        let ghost pred = |p: SessionModel| p.expires_at_ms > now;
        let mut kept: Vec<Session> = Vec::new();
        let n = self.sessions.len();
        let mut i: usize = 0;
        let mut found = false;
        proof {
            reveal(Seq::filter);
            assert(m.take(0) =~= Seq::<SessionModel>::empty());
        }
        while i < n
            invariant
                i <= n,
                n == self.sessions@.len(),
                m == self@.entries,
                self@.entries == self.sessions@.map_values(|s: Session| s@),
                kept@.map_values(|s: Session| s@) == m.take(i as int).filter(pred),
                pred == (|p: SessionModel| p.expires_at_ms > now),
                found == exists|j: int|
                    0 <= j < i && m[j].token == token@ && m[j].expires_at_ms > now,
            decreases n - i,
        {
            let e = &self.sessions[i];
            let live = e.expires_at_ms > now;
            if live && text::string_eq_str(&e.token, token) {
                found = true;
            }
            proof {
                reveal(Seq::filter);
                assert(m.take(i + 1).drop_last() =~= m.take(i as int));
                assert(m.take(i + 1).last() == m[i as int]);
            }
            if live {
                kept.push(Session { token: e.token.clone(), expires_at_ms: e.expires_at_ms });
            }
            proof {
                assert(kept@.map_values(|s: Session| s@) =~= m.take(i + 1).filter(pred));
            }
            i += 1;
        }
        proof {
            assert(m.take(n as int) =~= m);
        }
        self.sessions = kept;
        found
    }

    /// Sweeps expired sessions at the current instant, then reports whether
    /// `token` is live. The sampled instant is whatever the clock returned:
    /// some single `n` governs both the sweep and the answer.
    pub fn verify_token(&mut self, token: &str) -> (r: bool)
        ensures
            final(self)@.password == old(self)@.password,
            exists|n: int|
                final(self)@.entries == swept(old(self)@.entries, n) && r == has_live_token(
                    old(self)@.entries,
                    token@,
                    n,
                ),
    {
        let now = now_millis();
        let r = self.verify_token_at(token, now);
        proof {
            assert(final(self)@.entries == swept(old(self)@.entries, now as int) && r
                == has_live_token(old(self)@.entries, token@, now as int));
        }
        r
    }

    /// Unconditionally removes `token` from the session table.
    pub fn logout(&mut self, token: &str)
        ensures
            final(self)@.password == old(self)@.password,
            final(self)@.entries == revoked(old(self)@.entries, token@),
    {
        let ghost m = self@.entries;
        let ghost pred = |p: SessionModel| p.token != token@;
        let mut kept: Vec<Session> = Vec::new();
        let n = self.sessions.len();
        let mut i: usize = 0;
        proof {
            reveal(Seq::filter);
            assert(m.take(0) =~= Seq::<SessionModel>::empty());
        }
        while i < n
            invariant
                i <= n,
                n == self.sessions@.len(),
                m == self@.entries,
                self@.entries == self.sessions@.map_values(|s: Session| s@),
                kept@.map_values(|s: Session| s@) == m.take(i as int).filter(pred),
                pred == (|p: SessionModel| p.token != token@),
            decreases n - i,
        {
            let e = &self.sessions[i];
            let keep = !text::string_eq_str(&e.token, token);
            proof {
                reveal(Seq::filter);
                assert(m.take(i + 1).drop_last() =~= m.take(i as int));
                assert(m.take(i + 1).last() == m[i as int]);
            }
            if keep {
                kept.push(Session { token: e.token.clone(), expires_at_ms: e.expires_at_ms });
            }
            proof {
                assert(kept@.map_values(|s: Session| s@) =~= m.take(i + 1).filter(pred));
            }
            i += 1;
        }
        proof {
            assert(m.take(n as int) =~= m);
        }
        self.sessions = kept;
    }
}

// --- session lifecycle laws ---

/// A token minted by a login is valid exactly until its hour is up: after
/// `granted(e, token, now)`, verifying at instant `later` succeeds if and
/// only if `later` lies before `now + SESSION_TTL_MS`.
pub proof fn law_login_then_verify(
    e: Seq<SessionModel>,
    token: Seq<char>,
    now: int,
    later: int,
)
    ensures
        has_live_token(granted(e, token, now), token, later) == (later < now + SESSION_TTL_MS),
{
    let g = granted(e, token, now);
    let pred = |p: SessionModel| p.expires_at_ms > now && p.token != token;
    let f = e.filter(pred);
    if later < now + SESSION_TTL_MS {
        assert(g[g.len() - 1].token == token && g[g.len() - 1].expires_at_ms > later);
    } else {
        assert forall|i: int|
            0 <= i < g.len() && g[i].token == token implies !(g[i].expires_at_ms > later) by {
            if i < f.len() {
                e.lemma_filter_pred(pred, i);
                assert(g[i] == f[i]);
                assert(false);
            } else {
                assert(g[i].expires_at_ms == now + SESSION_TTL_MS);
            }
        }
    }
}

/// A logged-out token never verifies: after `revoked(e, token)`, the token
/// is live at no instant.
pub proof fn law_logout_then_verify(e: Seq<SessionModel>, token: Seq<char>, later: int)
    ensures
        !has_live_token(revoked(e, token), token, later),
{
    let pred = |p: SessionModel| p.token != token;
    let f = e.filter(pred);
    assert forall|i: int| 0 <= i < f.len() implies f[i].token != token by {
        e.lemma_filter_pred(pred, i);
    }
}

/// The hour-long TTL is tight: a token minted at `now` is still valid one
/// millisecond before expiry and already invalid at the expiry instant.
pub proof fn law_token_ttl(e: Seq<SessionModel>, token: Seq<char>, now: int)
    ensures
        has_live_token(granted(e, token, now), token, now + SESSION_TTL_MS - 1),
        !has_live_token(granted(e, token, now), token, now + SESSION_TTL_MS),
{
    law_login_then_verify(e, token, now, now + SESSION_TTL_MS - 1);
    law_login_then_verify(e, token, now, now + SESSION_TTL_MS);
}

/// Sweeping never revives anything: a token absent or expired before the
/// sweep stays so after it, and a sweep at `now` keeps exactly the entries
/// alive at `now`.
pub proof fn law_sweep_preserves_liveness(e: Seq<SessionModel>, token: Seq<char>, now: int)
    ensures
        has_live_token(swept(e, now), token, now) == has_live_token(e, token, now),
{
    let pred = |p: SessionModel| p.expires_at_ms > now;
    let f = e.filter(pred);
    lemma_filter_elems(e, pred);
    if has_live_token(f, token, now) {
        let i = choose|i: int| 0 <= i < f.len() && f[i].token == token && f[i].expires_at_ms
            > now;
        assert(e.contains(f[i]));
    }
    if has_live_token(e, token, now) {
        let i = choose|i: int| 0 <= i < e.len() && e[i].token == token && e[i].expires_at_ms
            > now;
        e.lemma_filter_contains(pred, i);
        let j = choose|j: int| 0 <= j < f.len() && f[j] == e[i];
        assert(f[j].token == token && f[j].expires_at_ms > now);
    }
}

} // verus!
