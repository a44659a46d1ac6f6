//! Builds bootable operating-system artifacts (raw disk images and hybrid
//! BIOS/UEFI live ISOs) from an OSTree content repository, driven by a
//! declarative manifest.
//!
//! The library holds the verified core: the argument grammars for every
//! external tool invocation, the classification of subprocess outcomes, the
//! boot-loader configuration renderer, the manifest model with its defaults,
//! and the staged live-image pipeline's decision functions. The surrounding
//! binary performs the actual process spawning and filesystem work and feeds
//! the observed outcomes back into these functions.

mod clock;
pub mod cmd;
pub mod creator;
pub mod diskimage;
pub mod ostree;
pub mod strutil;
pub mod templates;
