//! Per-file content hashes for a directory tree kept by a backup service:
//! validated path and digest values (`entities`), a streaming SHA-256
//! utility (`hashing`), a storage port (`stockage`) with its SQLite adapter
//! (`stockage_sqlite`), and the three domain commands — create, delete and
//! read-all-by-prefix. Each operation's contract pins its effect on the
//! store, modelled as a map from path to digest; `laws` states what follows
//! for sequences of operations.

pub mod create_file_hash;
pub mod delete_file_hash;
pub mod entities;
pub mod hashing;
pub mod laws;
pub mod path_prefix;
pub mod read_all_file_hash;
pub mod stockage;
pub mod stockage_sqlite;
