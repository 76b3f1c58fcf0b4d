pub mod async_dyn_magic;
pub mod bytes_read;
pub mod dyn_magic;
pub mod magic;
pub mod magic_custom;
pub mod signatures;
pub mod webp;
