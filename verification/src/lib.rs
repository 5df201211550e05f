//! Ingestion and synchronisation of ranked network nodes: normalising the
//! fields of fetched nodes, the insert-if-absent table they are kept in, the
//! decisions of the periodic sync loop, and the JSON export of the table.

pub mod amount;
pub mod timestamp;
pub mod node;
pub mod store;
pub mod sync;
pub mod cycle;
pub mod export;
