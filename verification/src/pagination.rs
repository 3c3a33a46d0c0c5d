//! Validated offset-pagination input used by business read ports.
use vstd::prelude::*;

verus! {

/// Validated offset-pagination input.
///
/// Transport defaults and maximums remain transport policy. This type keeps
/// the signed 64-bit values as given while guaranteeing a positive limit and
/// a non-negative offset.
#[derive(Debug, Clone, Copy, PartialEq, Eq, Structural)]
pub struct PageRequest {
    limit: i64,
    offset: i64,
}

/// Why a pagination request was refused.
#[derive(Debug, Clone, Copy, PartialEq, Eq, Structural)]
pub enum PageRequestError {
    NonPositiveLimit,
    NegativeOffset,
}

impl PageRequest {
    /// Every constructed request has a positive limit and a non-negative offset.
    #[verifier::type_invariant]
    spec fn well_formed(self) -> bool {
        self.limit > 0 && self.offset >= 0
    }

    pub closed spec fn spec_limit(self) -> i64 {
        self.limit
    }

    pub closed spec fn spec_offset(self) -> i64 {
        self.offset
    }

    /// Validates a limit and an offset. The limit is checked first.
    pub fn new(limit: i64, offset: i64) -> (res: Result<PageRequest, PageRequestError>)
        ensures
            limit <= 0 ==> res == Err::<PageRequest, PageRequestError>(
                PageRequestError::NonPositiveLimit,
            ),
            limit > 0 && offset < 0 ==> res == Err::<PageRequest, PageRequestError>(
                PageRequestError::NegativeOffset,
            ),
            res is Ok <==> (limit > 0 && offset >= 0),
            res matches Ok(r) ==> r.spec_limit() == limit && r.spec_offset() == offset,
    {
        if limit <= 0 {
            return Err(PageRequestError::NonPositiveLimit);
        }
        if offset < 0 {
            return Err(PageRequestError::NegativeOffset);
        }
        Ok(PageRequest { limit, offset })
    }

    pub fn limit(self) -> (r: i64)
        ensures
            r == self.spec_limit(),
            r > 0,
    {
        proof {
            use_type_invariant(&self);
        }
        self.limit
    }

    pub fn offset(self) -> (r: i64)
        ensures
            r == self.spec_offset(),
            r >= 0,
    {
        proof {
            use_type_invariant(&self);
        }
        self.offset
    }

    /// Human-readable rendering, `limit=<limit>, offset=<offset>`.
    pub fn describe(self) -> (s: String)
        ensures
            s@ == seq!['l', 'i', 'm', 'i', 't', '='] + crate::text::decimal_i64(self.spec_limit() as int)
                + seq![',', ' ', 'o', 'f', 'f', 's', 'e', 't', '=']
                + crate::text::decimal_i64(self.spec_offset() as int),
    {
        proof {
            reveal_strlit("limit=");
            reveal_strlit(", offset=");
        }
        let mut s = String::new();
        s.append("limit=");
        crate::text::append_i64(&mut s, self.limit);
        s.append(", offset=");
        crate::text::append_i64(&mut s, self.offset);
        s
    }
}

/// A page of records together with the total number of matching records.
#[derive(Debug, Clone, PartialEq, Eq)]
pub struct Page<T> {
    pub records: Vec<T>,
    pub total: i64,
}

impl<T> Page<T> {
    pub fn new(records: Vec<T>, total: i64) -> (p: Page<T>)
        ensures
            p.records@ == records@,
            p.total == total,
    {
        Page { records, total }
    }
}

} // verus!
