//! Where snippets are kept: the records of a storage and their operations,
//! the JSON file storage, and the choice of storage from its setting.

pub mod json;
pub mod record_laws;
pub mod records;
pub mod setting;
