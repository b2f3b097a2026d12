//! Response envelopes and paging parameters of the HTTP API.
use vstd::prelude::*;

verus! {

/// Standard envelope for every API response.
#[derive(Debug, Clone)]
pub struct ApiResponse<T> {
    pub data: T,
    pub message: Option<String>,
}

impl<T> ApiResponse<T> {
    /// An envelope carrying `data` and no message.
    pub fn ok(data: T) -> (r: Self)
        ensures
            r.data == data,
            r.message is None,
    {
        ApiResponse { data, message: None }
    }

    /// An envelope carrying `data` and the message `msg`.
    pub fn with_message(data: T, msg: String) -> (r: Self)
        ensures
            r.data == data,
            r.message == Some(msg),
    {
        ApiResponse { data, message: Some(msg) }
    }
}

/// One page of a list.
#[derive(Debug, Clone)]
pub struct PagedResponse<T> {
    pub items: Vec<T>,
    pub total: u64,
    pub page: u32,
    pub page_size: u32,
}

/// Paging parameters of list endpoints; pages count from 1.
#[derive(Debug, Clone, Copy, PartialEq, Eq, Structural)]
pub struct Pagination {
    pub page: u32,
    pub page_size: u32,
}

/// The page used when the query names none.
pub fn default_page() -> (r: u32)
    ensures
        r == 1,
{
    1
}

/// The page size used when the query names none.
pub fn default_page_size() -> (r: u32)
    ensures
        r == 25,
{
    25
}

impl Pagination {
    /// The window of rows a page covers: at most `page_size` rows after
    /// skipping the rows of all earlier pages (page 0 counts as page 1).
    pub open spec fn spec_window(self) -> (int, int) {
        let earlier = if self.page == 0 { 0int } else { self.page - 1 };
        (self.page_size as int, earlier * self.page_size)
    }

    /// `(limit, offset)` of the page, as the list endpoint computes them.
    /// The offset must fit in `u32`.
    pub fn window(&self) -> (r: (u32, u32))
        requires
            self.spec_window().1 <= u32::MAX,
        ensures
            r.0 == self.spec_window().0,
            r.1 == self.spec_window().1,
    {
        let limit = self.page_size;
        let earlier = self.page.saturating_sub(1);
        proof {
            assert(earlier * limit == self.spec_window().1);
        }
        let offset = earlier * limit;
        (limit, offset)
    }
}

} // verus!
