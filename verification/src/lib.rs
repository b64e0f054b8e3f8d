//! Decoder for a binary 3D-model container format built around self-relative
//! offsets, together with the path-hash and scene-identifier utilities that
//! accompany it.

pub mod hash;
pub mod mdl;
pub mod sceneid;
pub mod stream;

pub use hash::AfsHash;
pub use mdl::DecodeError;
pub use mdl::Element;
pub use mdl::IndirectMaterial;
pub use mdl::Model;
pub use mdl::RelPtr;
pub use sceneid::SceneID;
pub use sceneid::SceneIDError;
pub use stream::ByteStream;
