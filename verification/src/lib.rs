pub mod greeting;
pub mod laws;
pub mod listing;

pub use greeting::greet;
pub use listing::FileItem;
pub use listing::RawEntry;
pub use listing::build_listing;
pub use listing::describe_entry;
pub use listing::list_directory_from_read;
