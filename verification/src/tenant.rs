//! Tenant identifiers that scope every business record.
use vstd::prelude::*;

verus! {

/// Whitespace as `char::is_whitespace` defines it: the characters with the
/// Unicode `White_Space` property.
pub open spec fn is_whitespace(c: char) -> bool {
    ('\u{9}' <= c <= '\u{d}') || c == ' ' || c == '\u{85}' || c == '\u{a0}' || c == '\u{1680}'
        || ('\u{2000}' <= c <= '\u{200a}') || c == '\u{2028}' || c == '\u{2029}' || c
        == '\u{202f}' || c == '\u{205f}' || c == '\u{3000}'
}

/// A tenant identifier holds at least one character that is not whitespace:
/// trimmed, it is not empty.
pub open spec fn valid_tenant_id(s: Seq<char>) -> bool {
    exists|i: int| 0 <= i < s.len() && !is_whitespace(#[trigger] s[i])
}

fn whitespace(c: char) -> (r: bool)
    ensures
        r == is_whitespace(c),
{
    ('\u{9}' <= c && c <= '\u{d}') || c == ' ' || c == '\u{85}' || c == '\u{a0}' || c == '\u{1680}'
        || ('\u{2000}' <= c && c <= '\u{200a}') || c == '\u{2028}' || c == '\u{2029}' || c
        == '\u{202f}' || c == '\u{205f}' || c == '\u{3000}'
}

/// A validated tenant identifier.
#[derive(Debug, PartialEq, Eq)]
pub struct TenantId {
    value: String,
}

/// Why a tenant identifier was refused.
#[derive(Debug, Clone, Copy, PartialEq, Eq, Structural)]
pub enum TenantIdError {
    Blank,
}

impl View for TenantId {
    type V = Seq<char>;

    closed spec fn view(&self) -> Seq<char> {
        self.value@
    }
}

impl TenantId {
    #[verifier::type_invariant]
    spec fn well_formed(self) -> bool {
        valid_tenant_id(self.value@)
    }

    /// Accepts an identifier that is not blank.
    pub fn new(value: String) -> (r: Result<TenantId, TenantIdError>)
        ensures
            r is Ok <==> valid_tenant_id(value@),
            r matches Ok(t) ==> t@ == value@,
            r matches Err(e) ==> e == TenantIdError::Blank,
    {
        let n = value.as_str().unicode_len();
        let mut i: usize = 0;
        while i < n
            invariant
                n == value@.len(),
                i <= n,
                forall|j: int| 0 <= j < i ==> is_whitespace(#[trigger] value@[j]),
            decreases n - i,
        {
            let c = value.as_str().get_char(i);
            if !whitespace(c) {
                return Ok(TenantId { value });
            }
            i = i + 1;
        }
        Err(TenantIdError::Blank)
    }

    pub fn as_str(&self) -> (s: &str)
        ensures
            s@ == self@,
            valid_tenant_id(s@),
    {
        proof {
            use_type_invariant(self);
        }
        self.value.as_str()
    }
}

impl Clone for TenantId {
    fn clone(&self) -> (r: TenantId)
        ensures
            r@ == self@,
    {
        proof {
            use_type_invariant(self);
        }
        TenantId { value: self.value.clone() }
    }
}

} // verus!
