//! The loopback session authority's decisions: process-local admission identities and
//! the single outstanding reconnect credential.
//!
//! The claims a credential stands for are carried as `C`; deriving identities and the key
//! bytes of a credential is left to the caller, which hands the results in. Each credential
//! is the key bytes followed by the number of the issue, so no two issues of one authority
//! ever hand out the same bytes.
use vstd::prelude::*;

verus! {

/// Why a reconnect credential is refused.
#[derive(Debug, Clone, Copy, PartialEq, Eq, Structural)]
pub enum ResumeRejection {
    /// No credential is outstanding, or it expired before this attempt.
    Expired,
    /// The bytes are not the outstanding credential.
    Invalid,
    /// The outstanding credential was already used.
    Replayed,
}

/// Admission identities are exhausted.
#[derive(Debug, Clone, Copy, PartialEq, Eq, Structural)]
pub struct AdmissionExhausted;

/// Abstract state of the authority.
pub struct AuthorityView<C> {
    /// The identity the next admission receives.
    pub next_admission: u64,
    /// The claims of the outstanding credential.
    pub claims: Option<C>,
    /// The outstanding credential's bytes.
    pub token: Seq<u8>,
    /// When the outstanding credential expires.
    pub expires_at: Option<u64>,
    /// Whether the outstanding credential may still be used.
    pub available: bool,
    /// How many credentials have been issued.
    pub issued: u64,
}

/// The eight bytes of an issue number, least significant first.
pub open spec fn issue_bytes(n: u64) -> Seq<u8> {
    seq![
        (n & 0xff) as u8,
        ((n >> 8u64) & 0xff) as u8,
        ((n >> 16u64) & 0xff) as u8,
        ((n >> 24u64) & 0xff) as u8,
        ((n >> 32u64) & 0xff) as u8,
        ((n >> 40u64) & 0xff) as u8,
        ((n >> 48u64) & 0xff) as u8,
        ((n >> 56u64) & 0xff) as u8,
    ]
}

/// The credential bytes of the issue numbered `n` made from `key`.
pub open spec fn credential(key: Seq<u8>, n: u64) -> Seq<u8> {
    key + issue_bytes(n)
}

/// A reconnect credential handed out: its bytes and when it expires.
#[derive(Debug, Clone, PartialEq, Eq)]
pub struct IssuedResume {
    pub token: Vec<u8>,
    pub expires_at: u64,
}

/// The result of a reconnect attempt with `token` at `now`, and the state after it: the
/// credential must not have expired, must be exactly the outstanding bytes, and may be
/// used once.
pub open spec fn resume_outcome<C>(v: AuthorityView<C>, token: Seq<u8>, now: u64) -> (
    AuthorityView<C>,
    Result<C, ResumeRejection>,
) {
    if v.expires_at is None || now > v.expires_at->Some_0 {
        (v, Err(ResumeRejection::Expired))
    } else if token != v.token {
        (v, Err(ResumeRejection::Invalid))
    } else if !v.available {
        (v, Err(ResumeRejection::Replayed))
    } else {
        (
            AuthorityView { available: false, ..v },
            match v.claims {
                Some(claims) => Ok(claims),
                None => Err(ResumeRejection::Invalid),
            },
        )
    }
}

/// Credential-free process-local identity authority that keeps only the most recently
/// issued reconnect credential.
#[derive(Debug)]
pub struct LoopbackSessionAuthority<C> {
    next_admission: u64,
    resume_claims: Option<C>,
    resume_token: Vec<u8>,
    resume_expires_at: Option<u64>,
    resume_available: bool,
    resume_issued: u64,
}

impl<C: Copy> View for LoopbackSessionAuthority<C> {
    type V = AuthorityView<C>;

    closed spec fn view(&self) -> AuthorityView<C> {
        AuthorityView {
            next_admission: self.next_admission,
            claims: self.resume_claims,
            token: self.resume_token@,
            expires_at: self.resume_expires_at,
            available: self.resume_available,
            issued: self.resume_issued,
        }
    }
}

/// Whether `token` is what the authority holds after `issued` issues: nothing before the
/// first, and afterwards the credential of the latest issue, made from some key.
pub open spec fn holds_latest_credential(token: Seq<u8>, issued: u64) -> bool {
    if issued == 0 {
        token.len() == 0
    } else {
        exists|key: Seq<u8>| token == #[trigger] credential(key, (issued - 1) as u64)
    }
}

impl<C> LoopbackSessionAuthority<C> {
    /// The outstanding bytes are those of the latest issue.
    #[verifier::type_invariant]
    spec fn well_formed(self) -> bool {
        holds_latest_credential(self.resume_token@, self.resume_issued)
    }
}

impl<C: Copy> LoopbackSessionAuthority<C> {
    /// An authority that has admitted no one and issued no credential.
    pub fn new() -> (authority: Self)
        ensures
            authority@ == (AuthorityView::<C> {
                next_admission: 1,
                claims: None,
                token: Seq::empty(),
                expires_at: None,
                available: false,
                issued: 0,
            }),
    {
        LoopbackSessionAuthority {
            next_admission: 1,
            resume_claims: None,
            resume_token: Vec::new(),
            resume_expires_at: None,
            resume_available: false,
            resume_issued: 0,
        }
    }

    /// Assign the next process-local identity, from which the caller derives the session,
    /// player, and match identities; identities are never reused.
    pub fn next_identity(&mut self) -> (identity: Result<u64, AdmissionExhausted>)
        ensures
            old(self)@.next_admission == u64::MAX ==> identity == Err::<u64, AdmissionExhausted>(
                AdmissionExhausted,
            ) && final(self)@ == old(self)@,
            old(self)@.next_admission < u64::MAX ==> identity == Ok::<u64, AdmissionExhausted>(
                old(self)@.next_admission,
            ) && final(self)@ == (AuthorityView {
                next_admission: (old(self)@.next_admission + 1) as u64,
                ..old(self)@
            }),
    {
        proof {
            use_type_invariant(&*self);
        }
        let identity = self.next_admission;
        if identity == u64::MAX {
            return Err(AdmissionExhausted);
        }
        self.next_admission = identity + 1;
        Ok(identity)
    }

    /// Issue a reconnect credential for `claims` at `now` made from `key`, replacing any
    /// earlier one: its bytes are `key` followed by the issue number, and it expires
    /// `window` after `now` (saturating). Refused, with nothing changed, once the issue
    /// numbers are exhausted.
    pub fn issue_resume(&mut self, claims: C, key: &[u8], now: u64, window: u64) -> (result: Result<IssuedResume, AdmissionExhausted>)
        requires
            key@.len() + 8 <= usize::MAX,
        ensures
            old(self)@.issued == u64::MAX ==> result == Err::<IssuedResume, AdmissionExhausted>(
                AdmissionExhausted,
            ) && final(self)@ == old(self)@,
            old(self)@.issued < u64::MAX ==> (result matches Ok(issued) && issued.token@
                == credential(key@, old(self)@.issued) && issued.token@ != old(self)@.token
                && issued.expires_at == (if now + window
                > u64::MAX {
                u64::MAX as int
            } else {
                now + window
            }) && final(self)@ == (AuthorityView {
                next_admission: old(self)@.next_admission,
                claims: Some(claims),
                token: issued.token@,
                expires_at: Some(issued.expires_at),
                available: true,
                issued: (old(self)@.issued + 1) as u64,
            })),
    {
        proof {
            use_type_invariant(&*self);
        }
        let n = self.resume_issued;
        if n == u64::MAX {
            return Err(AdmissionExhausted);
        }
        let mut token: Vec<u8> = Vec::new();
        let mut i: usize = 0;
        while i < key.len()
            invariant
                i <= key@.len(),
                token@ == key@.subrange(0, i as int),
            decreases key@.len() - i,
        {
            token.push(key[i]);
            i = i + 1;
        }
        token.push((n & 0xff) as u8);
        token.push(((n >> 8u64) & 0xff) as u8);
        token.push(((n >> 16u64) & 0xff) as u8);
        token.push(((n >> 24u64) & 0xff) as u8);
        token.push(((n >> 32u64) & 0xff) as u8);
        token.push(((n >> 40u64) & 0xff) as u8);
        token.push(((n >> 48u64) & 0xff) as u8);
        token.push(((n >> 56u64) & 0xff) as u8);
        proof {
            assert(key@.subrange(0, key@.len() as int) =~= key@);
            assert(token@ =~= credential(key@, n));
            if n > 0 {
                let earlier = choose|k: Seq<u8>| self.resume_token@ == #[trigger] credential(k, (n - 1) as u64);
                lemma_issues_never_repeat(earlier, (n - 1) as u64, key@, n);
            } else {
                assert(token@.len() > 0);
            }
        }
        let expires_at = now.saturating_add(window);
        let stored = token.clone();
        proof {
            assert(stored@ == credential(key@, ((n + 1) - 1) as u64));
        }
        *self = LoopbackSessionAuthority {
            next_admission: self.next_admission,
            resume_claims: Some(claims),
            resume_token: stored,
            resume_expires_at: Some(expires_at),
            resume_available: true,
            resume_issued: n + 1,
        };
        Ok(IssuedResume { token, expires_at })
    }

    /// Consume the credential `token` at `now`, after its format has been checked:
    /// refused when expired, when the bytes differ from the outstanding credential, or
    /// when it was already used; otherwise the claims it stands for.
    pub fn consume_resume(&mut self, token: &[u8], now: u64) -> (result: Result<C, ResumeRejection>)
        ensures
            (final(self)@, result) == resume_outcome(old(self)@, token@, now),
    {
        proof {
            use_type_invariant(&*self);
        }
        let expired = match self.resume_expires_at {
            None => true,
            Some(expiry) => now > expiry,
        };
        if expired {
            return Err(ResumeRejection::Expired);
        }
        let same = token.len() == self.resume_token.len() && {
            let mut i: usize = 0;
            let mut equal = true;
            while i < token.len()
                invariant
                    token@.len() == self.resume_token@.len(),
                    i <= token@.len(),
                    equal == (forall|j: int| 0 <= j < i ==> token@[j] == self.resume_token@[j]),
                decreases token@.len() - i,
            {
                if token[i] != self.resume_token[i] {
                    equal = false;
                }
                i = i + 1;
            }
            equal
        };
        proof {
            if same {
                assert(token@ =~= self.resume_token@);
            }
        }
        if !same {
            return Err(ResumeRejection::Invalid);
        }
        if !self.resume_available {
            return Err(ResumeRejection::Replayed);
        }
        self.resume_available = false;
        match self.resume_claims {
            Some(claims) => Ok(claims),
            None => Err(ResumeRejection::Invalid),
        }
    }
}

/// A credential is good for one reconnect: once it has been consumed, presenting it
/// again is refused as replayed until a new one is issued.
pub proof fn lemma_resume_is_single_use<C>(v: AuthorityView<C>, token: Seq<u8>, now: u64, later: u64)
    requires
        resume_outcome(v, token, now).1 is Ok,
        later <= v.expires_at->Some_0,
    ensures
        resume_outcome(resume_outcome(v, token, now).0, token, later).1 == Err::<C, ResumeRejection>(
            ResumeRejection::Replayed,
        ),
{
}

/// Different issues never hand out the same bytes: whatever keys they are made from,
/// credentials with different issue numbers differ.
pub proof fn lemma_issues_never_repeat(key: Seq<u8>, n: u64, other_key: Seq<u8>, m: u64)
    requires
        n != m,
    ensures
        credential(key, n) != credential(other_key, m),
{
    if key.len() == other_key.len() {
        let a = credential(key, n);
        let b = credential(other_key, m);
        if a == b {
            let k = key.len() as int;
            assert(a[k] == b[k] && a[k + 1] == b[k + 1] && a[k + 2] == b[k + 2] && a[k + 3] == b[k + 3]);
            assert(a[k + 4] == b[k + 4] && a[k + 5] == b[k + 5] && a[k + 6] == b[k + 6] && a[k + 7] == b[k + 7]);
            assert(issue_bytes(n) =~= issue_bytes(m));
            lemma_issue_bytes_identify(n, m);
        }
    } else {
        assert(credential(key, n).len() != credential(other_key, m).len());
    }
}

proof fn lemma_issue_bytes_identify(n: u64, m: u64)
    requires
        issue_bytes(n) == issue_bytes(m),
    ensures
        n == m,
{
    assert(issue_bytes(n)[0] == issue_bytes(m)[0]);
    assert(issue_bytes(n)[1] == issue_bytes(m)[1]);
    assert(issue_bytes(n)[2] == issue_bytes(m)[2]);
    assert(issue_bytes(n)[3] == issue_bytes(m)[3]);
    assert(issue_bytes(n)[4] == issue_bytes(m)[4]);
    assert(issue_bytes(n)[5] == issue_bytes(m)[5]);
    assert(issue_bytes(n)[6] == issue_bytes(m)[6]);
    assert(issue_bytes(n)[7] == issue_bytes(m)[7]);
    assert(n == m) by (bit_vector)
        requires
            (n & 0xff) as u8 == (m & 0xff) as u8,
            ((n >> 8u64) & 0xff) as u8 == ((m >> 8u64) & 0xff) as u8,
            ((n >> 16u64) & 0xff) as u8 == ((m >> 16u64) & 0xff) as u8,
            ((n >> 24u64) & 0xff) as u8 == ((m >> 24u64) & 0xff) as u8,
            ((n >> 32u64) & 0xff) as u8 == ((m >> 32u64) & 0xff) as u8,
            ((n >> 40u64) & 0xff) as u8 == ((m >> 40u64) & 0xff) as u8,
            ((n >> 48u64) & 0xff) as u8 == ((m >> 48u64) & 0xff) as u8,
            ((n >> 56u64) & 0xff) as u8 == ((m >> 56u64) & 0xff) as u8,
    ;
}

/// Reissuing retires the bytes of every earlier credential: after an issue, the bytes of
/// any credential issued before it are refused as invalid while the new one is unexpired,
/// whether or not they were consumed.
pub proof fn lemma_reissue_retires_consumed_bytes<C>(
    v: AuthorityView<C>,
    claims: C,
    key: Seq<u8>,
    expires_at: u64,
    earlier_key: Seq<u8>,
    earlier: u64,
    now: u64,
)
    requires
        earlier < v.issued,
        now <= expires_at,
    ensures
        resume_outcome(
            AuthorityView {
                next_admission: v.next_admission,
                claims: Some(claims),
                token: credential(key, v.issued),
                expires_at: Some(expires_at),
                available: true,
                issued: (v.issued + 1) as u64,
            },
            credential(earlier_key, earlier),
            now,
        ).1 == Err::<C, ResumeRejection>(ResumeRejection::Invalid),
{
    lemma_issues_never_repeat(earlier_key, earlier, key, v.issued);
}

} // verus!
