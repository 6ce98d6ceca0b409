pub mod indradb_util;
