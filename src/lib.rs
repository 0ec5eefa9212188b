pub mod barrier;
pub mod capability;
pub mod device;
pub mod dmabuf;
pub mod dmatex;
pub mod export;
pub mod format_mapping;
pub mod import;
pub mod ledger;
pub mod registry;
pub mod session;
pub mod vk_format;
