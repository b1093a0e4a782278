//! An in-memory document model for richly annotated linguistic markup: typed
//! nodes kept in a key-indexed arena, their attributes, and the operations that
//! place nodes in a tree while keeping parent and child links in agreement.

pub mod attrib;
pub mod element;
pub mod elementstore;
pub mod error;
pub mod store;
pub mod text;
mod xml;

pub use attrib::{AttribType, Attribute};
pub use element::{AnnotationType, BodyType, DataType, ElementType, FoliaElement, Properties, ValidationStrategy};
pub use elementstore::ElementStore;
pub use error::FoliaError;
pub use store::{Arena, FromStore, IntId, IntoStore, Storable, Store, StoreKey};
