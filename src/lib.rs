//! Paradigm tables (declension charts) for inflected words.
//!
//! The library decides which grammatical dimension values apply to an
//! inflection pattern, walks their cross product in a fixed order, fetches the
//! inflected forms of every cell from a data host and packages the result as a
//! view model for rendering.
use vstd::prelude::*;

pub mod host;
pub mod inflections;
pub mod declension;
pub mod declension_pron_dual;
pub mod declension_pron_x;
pub mod sql;
