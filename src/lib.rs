//! Page-granular virtual memory management for Haiku areas: the protection
//! model, page arithmetic, the per-page allocation registry, the query scope,
//! and the decisions taken around each native area call.

pub mod area;
pub mod error;
pub mod page;
pub mod protect;
pub mod protection;
pub mod query;
pub mod region;
pub mod registry;
pub mod reserve;

pub use area::{
    area_created, area_found, posix_result, protection_changed, AreaInfo, STATUS_BAD_ADDRESS,
    STATUS_BAD_VALUE, STATUS_NO_MEMORY, STATUS_OK,
};
pub use error::Error;
pub use page::{ceil, floor, page_size, round_to_page_boundaries, PAGE_SIZE};
pub use protect::{plan_protect, ProtectRequest};
pub use protection::{Protection, AREA_EXECUTE, AREA_READ, AREA_WRITE};
pub use query::{QueryScope, Visit};
pub use region::Region;
pub use registry::Registry;
pub use reserve::{plan_alloc, plan_alloc_at, AreaRequest};
