//! Access control over service names: denied glob patterns, then allowed ones.
use vstd::prelude::*;

verus! {

/// What `glob_match::glob_match(pattern, name)` returns.
pub uninterp spec fn glob_matches(pattern: Seq<char>, name: Seq<char>) -> bool;

/// Relies on `glob_match::glob_match`: whether `name` matches the glob
/// `pattern`; the answer depends on the two strings alone.
#[verifier::external_body]
fn glob(pattern: &str, name: &str) -> (r: bool)
    ensures
        r == glob_matches(pattern@, name@),
{
    glob_match::glob_match(pattern, name)
}

/// Whether some pattern of `patterns` matches `name`.
pub open spec fn any_matches(patterns: Seq<String>, name: Seq<char>) -> bool {
    exists|i: int| 0 <= i < patterns.len() && glob_matches(#[trigger] patterns[i]@, name)
}

/// The access decision, from the three facts it rests on: whether a denied
/// pattern matches, whether the allowed list is empty, and whether an
/// allowed pattern matches. Denial wins; an empty allowed list allows all.
pub open spec fn acl_decision(denied_hit: bool, allowed_empty: bool, allowed_hit: bool) -> bool {
    !denied_hit && (allowed_empty || allowed_hit)
}

/// Whether the lists admit `name`.
pub open spec fn admits(denied: Seq<String>, allowed: Seq<String>, name: Seq<char>) -> bool {
    acl_decision(any_matches(denied, name), allowed.len() == 0, any_matches(allowed, name))
}

/// Access control lists of glob patterns.
#[derive(Debug, Clone)]
pub struct AclConfig {
    /// Allowed services (empty allows all).
    pub allowed: Vec<String>,
    /// Denied services.
    pub denied: Vec<String>,
}

impl Default for AclConfig {
    fn default() -> (r: AclConfig)
        ensures
            r.allowed@.len() == 0,
            r.denied@.len() == 0,
    {
        AclConfig { allowed: Vec::new(), denied: Vec::new() }
    }
}

/// Decides access from the three facts of [`acl_decision`].
pub fn decide(denied_hit: bool, allowed_empty: bool, allowed_hit: bool) -> (r: bool)
    ensures
        r == acl_decision(denied_hit, allowed_empty, allowed_hit),
{
    if denied_hit {
        false
    } else if allowed_empty {
        true
    } else {
        allowed_hit
    }
}

fn first_match(patterns: &Vec<String>, name: &str) -> (r: bool)
    ensures
        r == any_matches(patterns@, name@),
{
    let mut i: usize = 0;
    while i < patterns.len()
        invariant
            i <= patterns@.len(),
            forall|j: int| 0 <= j < i ==> !glob_matches(#[trigger] patterns@[j]@, name@),
        decreases patterns@.len() - i,
    {
        if glob(patterns[i].as_str(), name) {
            return true;
        }
        i = i + 1;
    }
    false
}

impl AclConfig {
    /// A copy of the lists.
    pub fn copy(&self) -> (r: AclConfig)
        ensures
            r.allowed@ == self.allowed@,
            r.denied@ == self.denied@,
    {
        AclConfig {
            allowed: crate::services::copy_strings(&self.allowed),
            denied: crate::services::copy_strings(&self.denied),
        }
    }

    /// Whether `service` is allowed: no denied pattern matches it, and the
    /// allowed list is empty or one of its patterns matches it.
    pub fn is_allowed(&self, service: &str) -> (r: bool)
        ensures
            r == admits(self.denied@, self.allowed@, service@),
    {
        let denied_hit = first_match(&self.denied, service);
        if denied_hit {
            return decide(true, self.allowed.len() == 0, false);
        }
        let allowed_empty = self.allowed.len() == 0;
        let allowed_hit = if allowed_empty {
            false
        } else {
            first_match(&self.allowed, service)
        };
        decide(false, allowed_empty, allowed_hit)
    }
}

/// Access precedence: a name that a denied pattern matches is refused,
/// whatever the allowed patterns say; a name that no allowed pattern
/// matches is refused when the allowed list is not empty; and when the
/// allowed list is empty, every name that no denied pattern matches is
/// admitted.
pub proof fn lemma_acl_precedence(denied: Seq<String>, allowed: Seq<String>, name: Seq<char>)
    ensures
        any_matches(denied, name) ==> !admits(denied, allowed, name),
        allowed.len() > 0 && !any_matches(allowed, name) ==> !admits(denied, allowed, name),
        allowed.len() == 0 && !any_matches(denied, name) ==> admits(denied, allowed, name),
{
}

} // verus!
