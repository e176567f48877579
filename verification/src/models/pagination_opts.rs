use vstd::prelude::*;

verus! {

/// Which page of a search to ask for, and how many jokes it may hold.
#[derive(Debug, Clone, Copy)]
pub struct PaginationOpts {
    /// The page number; the service counts pages as it pleases from here.
    pub page: u32,
    /// The largest number of jokes that the page may hold.
    pub limit: u8,
}

impl PaginationOpts {
    /// The page that the service serves when nothing else is asked for.
    pub open spec fn first_page() -> PaginationOpts {
        PaginationOpts { page: 0, limit: 20 }
    }
}

impl Default for PaginationOpts {
    fn default() -> (opts: Self)
        ensures
            opts == PaginationOpts::first_page(),
    {
        PaginationOpts { page: 0, limit: 20 }
    }
}

} // verus!
