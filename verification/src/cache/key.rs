//! Cache keys: a category and an identity, joined into one string.

use vstd::prelude::*;

verus! {

/// The categories of cached values. Each has a tag that starts with the
/// domain, `auth`.
#[derive(Debug, Clone, Copy, PartialEq, Eq, Structural)]
pub enum CacheId {
    LoginAttempts,
    Session,
    OTPToken,
    RegToken,
    PWToken,
    OTPThrottle,
    OTPAttempts,
    EmailThrottle,
}

impl CacheId {
    /// The tag of the category.
    pub open spec fn tag(self) -> Seq<char> {
        match self {
            CacheId::LoginAttempts => "auth:login_attempts"@,
            CacheId::Session => "auth:session"@,
            CacheId::OTPToken => "auth:otp"@,
            CacheId::RegToken => "auth:registration_token"@,
            CacheId::PWToken => "auth:set_pw"@,
            CacheId::OTPThrottle => "auth:otp_throttle"@,
            CacheId::OTPAttempts => "auth:otp_attempts"@,
            CacheId::EmailThrottle => "auth:email_throttle"@,
        }
    }

    /// The tag of the category, as it stands at the start of every key.
    pub fn as_str(&self) -> (tag: &'static str)
        ensures
            tag@ == self.tag(),
    {
        match self {
            CacheId::LoginAttempts => "auth:login_attempts",
            CacheId::Session => "auth:session",
            CacheId::OTPToken => "auth:otp",
            CacheId::RegToken => "auth:registration_token",
            CacheId::PWToken => "auth:set_pw",
            CacheId::OTPThrottle => "auth:otp_throttle",
            CacheId::OTPAttempts => "auth:otp_attempts",
            CacheId::EmailThrottle => "auth:email_throttle",
        }
    }
}

/// The key under which the value of `identity` in the category is stored:
/// the tag, a colon, the identity.
pub open spec fn cache_key(cache_id: CacheId, identity: Seq<char>) -> Seq<char> {
    cache_id.tag() + seq![':'] + identity
}

/// A tag is `auth:` and a name without a colon.
pub open spec fn plain_tag(tag: Seq<char>) -> bool {
    &&& tag.len() >= 5
    &&& forall|i: int| 5 <= i < tag.len() ==> tag[i] != ':'
}

/// Every category's tag is `auth:` and a name without a colon.
pub proof fn lemma_tags_are_plain(cache_id: CacheId)
    ensures
        plain_tag(cache_id.tag()),
{
    reveal_strlit("auth:login_attempts");
    reveal_strlit("auth:session");
    reveal_strlit("auth:otp");
    reveal_strlit("auth:registration_token");
    reveal_strlit("auth:set_pw");
    reveal_strlit("auth:otp_throttle");
    reveal_strlit("auth:otp_attempts");
    reveal_strlit("auth:email_throttle");
}

/// The length of each tag, and the letters that tell tags of one length
/// apart.
proof fn lemma_tag_shape(cache_id: CacheId)
    ensures
        cache_id.tag().len() == match cache_id {
            CacheId::LoginAttempts => 19nat,
            CacheId::Session => 12nat,
            CacheId::OTPToken => 8nat,
            CacheId::RegToken => 23nat,
            CacheId::PWToken => 11nat,
            CacheId::OTPThrottle => 17nat,
            CacheId::OTPAttempts => 17nat,
            CacheId::EmailThrottle => 19nat,
        },
        cache_id is LoginAttempts ==> cache_id.tag()[5] == 'l',
        cache_id is EmailThrottle ==> cache_id.tag()[5] == 'e',
        cache_id is OTPThrottle ==> cache_id.tag()[9] == 't',
        cache_id is OTPAttempts ==> cache_id.tag()[9] == 'a',
{
    reveal_strlit("auth:login_attempts");
    reveal_strlit("auth:session");
    reveal_strlit("auth:otp");
    reveal_strlit("auth:registration_token");
    reveal_strlit("auth:set_pw");
    reveal_strlit("auth:otp_throttle");
    reveal_strlit("auth:otp_attempts");
    reveal_strlit("auth:email_throttle");
}

/// Two categories with the same tag are the same category.
pub proof fn lemma_tags_differ(a: CacheId, b: CacheId)
    requires
        a.tag() == b.tag(),
    ensures
        a == b,
{
    lemma_tag_shape(a);
    lemma_tag_shape(b);
}

/// The mapping from category and identity to key is injective: two keys are
/// equal only if both the categories and the identities are.
pub proof fn law_cache_key_injective(a: CacheId, x: Seq<char>, b: CacheId, y: Seq<char>)
    requires
        cache_key(a, x) == cache_key(b, y),
    ensures
        a == b,
        x == y,
{
    let s = a.tag();
    let t = b.tag();
    let left = cache_key(a, x);
    let right = cache_key(b, y);
    lemma_tags_are_plain(a);
    lemma_tags_are_plain(b);
    assert(left[s.len() as int] == ':');
    assert(right[t.len() as int] == ':');
    if s.len() < t.len() {
        assert(right[s.len() as int] == t[s.len() as int]);
        assert(false);
    }
    if t.len() < s.len() {
        assert(left[t.len() as int] == s[t.len() as int]);
        assert(false);
    }
    assert(s =~= t) by {
        assert forall|i: int| 0 <= i < s.len() implies s[i] == t[i] by {
            assert(left[i] == s[i]);
            assert(right[i] == t[i]);
        }
    }
    lemma_tags_differ(a, b);
    assert(x =~= y) by {
        assert(x.len() == y.len()) by {
            assert(left.len() == s.len() + 1 + x.len());
            assert(right.len() == t.len() + 1 + y.len());
        }
        assert forall|i: int| 0 <= i < x.len() implies x[i] == y[i] by {
            assert(left[s.len() + 1 + i] == x[i]);
            assert(right[t.len() + 1 + i] == y[i]);
        }
    }
}

} // verus!
