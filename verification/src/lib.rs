pub mod air_laws;
pub mod constraints;
pub mod cpu_air;
pub mod cpu_table_builder;
pub mod elf;
pub mod encoding;
pub mod errors;
pub mod execution;
pub mod field;
pub mod instructions;
pub mod logs;
pub mod machine;
pub mod semantics;
