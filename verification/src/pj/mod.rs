pub mod os;
pub mod pj_types;
pub mod sock;
pub mod ioqueue;
pub mod pool;
