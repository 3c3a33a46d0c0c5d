//! Device queries and filters, and the text pattern a device search matches.
use vstd::prelude::*;

verus! {

#[derive(Debug, Clone, PartialEq, Eq)]
pub struct DeviceListQuery {
    pub status: Option<String>,
    pub search: Option<String>,
    pub fleet_id: Option<i32>,
    pub limit: i64,
    pub offset: i64,
}

#[derive(Debug, Clone, PartialEq, Eq)]
pub struct DeviceFilter {
    pub status: Option<String>,
    pub search: Option<String>,
    pub fleet_id: Option<i32>,
}

/// The `LIKE` pattern of a device search: the search text anywhere in the
/// name. The text is used as given; `%` and `_` in it keep their pattern meaning.
pub fn search_pattern(search: Option<&str>) -> (r: Option<String>)
    ensures
        match search {
            None => r is None,
            Some(s) => r matches Some(p) && p@ == seq!['%'] + s@ + seq!['%'],
        },
{
    match search {
        None => None,
        Some(s) => {
            let mut p = String::new();
            p.append("%");
            p.append(s);
            p.append("%");
            proof {
                reveal_strlit("%");
            }
            Some(p)
        },
    }
}

} // verus!
