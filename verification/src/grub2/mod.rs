//! The bootloader's configuration file and its boot menu.

pub mod bootentry;
pub mod document;
pub mod file;
pub mod keyvalue;
pub mod menu;
pub mod selection;

pub use bootentry::{BootEntryModel, GrubBootEntry};
pub use file::GrubFile;
pub use keyvalue::{EntryModel, GrubLine, KeyValue, LineModel};
pub use menu::{MenuLine, MenuParser};
pub use selection::{CatalogModel, GrubBootEntries};
