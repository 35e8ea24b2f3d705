pub mod inode_table;
pub mod path;
pub mod types;
pub mod translator;
