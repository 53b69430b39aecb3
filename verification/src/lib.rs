//! Bring-up loader logic for a RISC-V soft core: image layout, segment
//! placement, load-time relocation and the core's control sequencing.

pub mod cpu;
pub mod elf_file;
pub mod hal;
pub mod image;
pub mod layout;
pub mod loader;
pub mod names;
pub mod reloc;
pub mod supervise;
