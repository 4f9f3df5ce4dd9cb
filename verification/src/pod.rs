//! Types and tools for handling the raw representation of SPA PODs.
//!
//! Every POD starts with a [`SpaHeader`]; the body that follows is padded to
//! a multiple of eight bytes. Decoding is pull-based: each function reads one
//! value from the front of a buffer and hands back what follows it, and every
//! value can be read back as the bytes that stand for it (see
//! [`crate::mem::AsBytes`]).

pub mod codec;
pub mod kind;

mod bool;
mod double;
mod error;
mod fd;
mod float;
mod fraction;
mod fraction_pod;
mod header;
mod id;
mod int32;
mod long;
mod none;
mod pointer;
mod primitive;
mod rectangle;
mod sealed;
mod slice;
mod string;

pub use bool::{bool_order, lemma_bool_ops_logical, SpaBool};
pub use double::SpaDouble;
pub use error::{ParsePodError, PodError, MAX_SIZE};
pub use fd::{into_spa_fd, SpaFd};
pub use float::SpaFloat;
pub use fraction::{
    fraction_order, lemma_div_rem_euclidean, lemma_eq_u32_to_u32, lemma_floor_ceil,
    lemma_order_is_rational, lemma_order_laws, lemma_recip_involution, lemma_trunc_plus_fract,
    spec_ceil, spec_div_rem, spec_fract, spec_to_u32, spec_trunc, SpaFraction,
};
pub use header::{
    checked_align8, lemma_align8_of_primitive_sizes, lemma_header_roundtrip, spec_align8,
    spec_checked_align8, SpaHeader, SpaHeaderMut,
};
pub use id::SpaId;
pub use int32::SpaInt;
pub use long::SpaLong;
pub use none::SpaNone;
pub use pointer::SpaPointer;
pub use primitive::{
    spec_prim_size, AsPrimPod, AsPrimPodMut, BasicBody, BasicPad, BasicPod, PrimBody, PrimLayout,
    PrimPad, PrimPod,
};
pub use rectangle::SpaRectangle;
pub use slice::{
    lemma_array_roundtrip, lemma_decode_array_accepts, lemma_max_len_fits_max_size, lemma_prims_bytes, spec_array_pod_bytes,
    spec_decode_array, spec_element_at, spec_max_len, spec_prims_bytes, SpaSlice, SpaSliceMut,
};
pub use string::{
    lemma_c_string_utf8, lemma_first_nul_unique, spec_has_nul, spec_is_c_string, spec_is_first_nul,
    NulSearch, SpaStr,
};
