pub mod bit;
pub mod machine;
pub mod cpu;
pub mod laws;
