//! A TrueType font reader and horizontal layout engine.
//!
//! A byte buffer holding a single font or a TrueType collection is wrapped by
//! [`FontCollection`], which selects a [`Font`].  A font lays out a string as
//! a sequence of glyphs with advances, and each glyph can be drawn as a
//! sequence of path operations.  Table parsing is delegated to the
//! `stb_truetype` crate and text normalization to `unicode-normalization`;
//! all geometry and layout arithmetic is exact 16.16 fixed point.

pub mod bytes;
pub mod collection;
pub mod error;
pub mod fixed;
pub mod font;
pub mod glyph;
pub mod layout;
pub mod norm;
pub mod ttf;
pub mod validate;

pub use bytes::SharedBytes;
pub use collection::FontCollection;
pub use error::Error;
pub use fixed::{Fixed, Vec2, FIXED_ONE, ORIGIN_MAX, SCALE_MAX};
pub use font::Font;
pub use glyph::{outline_to_path, Glyph, Path, PathOp};
pub use layout::GlyphIterator;
pub use ttf::{OutlineVertex, VertexKind};
