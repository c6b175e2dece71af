//! On-device photo analysis core: image decoding and orientation, thumbnail
//! sizing and encoding, model-runtime registry, request validation, face
//! identity strings, inference output layouts, the blur Laplacian and the
//! sizing rules of the vector index.

pub mod error;
pub mod types;
pub mod decode;
pub mod text;
pub mod encode;
pub mod thumbnail;
pub mod runtime;
pub mod providers;
pub mod api;
pub mod face_id;
pub mod vector_index;
pub mod layout;
pub mod blur;
pub mod analysis;
