pub mod edge_order;
pub mod graph;
pub mod in_memory_graph;
pub mod traits;

pub use traits::PartitionBin;
pub use traits::Partition;
