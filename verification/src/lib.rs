//! Chunk-type tags of a tagged binary container format.
//!
//! A tag is four ASCII letters. The case of each letter is a flag: whether
//! the chunk is critical, whether its type is public, whether the reserved
//! position is in order, and whether the chunk may be copied by tools that do
//! not know it.
//!
//! [`chunk_type::ChunkType`] holds a tag. Its constructors accept ASCII
//! letters only, and its queries read the flags. [`letter`] is the model of a
//! single byte, [`text`] writes tags and errors as text, and [`laws`] states
//! what holds of the constructors, the queries and the text together.

pub mod chunk_type;
pub mod laws;
pub mod letter;
pub mod text;
