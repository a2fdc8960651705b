//! Building blocks shared by the three contracts.

pub mod api;
pub mod paging;
pub mod text;
pub mod response;
