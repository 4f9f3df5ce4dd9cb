//! The kinds (type tags) of SPA POD values.

use vstd::prelude::*;

verus! {

/// A `u32` tag denoting what type of data a SPA POD holds (`SPA_TYPE_*`).
#[derive(Debug, Clone, Copy, PartialEq, Eq, Structural, PartialOrd, Ord, Hash, Default)]
#[non_exhaustive]
pub enum SpaKind {
    /// No value or a NULL pointer (`SPA_TYPE_None`).
    #[default]
    Nil,
    /// A boolean stored as an `i32`; every nonzero value is `true`.
    Bool,
    /// An enumerated value stored as a `u32` id.
    Id,
    /// A 32-bit signed integer.
    Int,
    /// A 64-bit signed integer.
    Long,
    /// A 32-bit floating point value.
    Float,
    /// A 64-bit floating point value.
    Double,
    /// A NUL-terminated string of an unspecified encoding.
    String,
    /// A byte array.
    Bytes,
    /// A rectangle.
    Rectangle,
    /// A fraction.
    Fraction,
    /// An array of bits. This is a legacy kind that is no longer used.
    Bitmap,
    /// An array of POD values with a shared kind and size.
    Array,
    /// The concatenation of several PODs.
    Struct,
    /// A set of properties.
    Object,
    /// A series of timed events.
    Sequence,
    /// A typed pointer somewhere in memory.
    Pointer,
    /// A file descriptor stored as an `i64`; when serialized, the index of the descriptor in a message.
    Fd,
    /// A choice between an array of possible values.
    Choice,
    /// The value id of the POD itself.
    Pod,
}

impl SpaKind {
    /// The `u32` that stands for this kind on the wire.
    pub open spec fn value(self) -> u32 {
        match self {
            SpaKind::Nil => 0x1,
            SpaKind::Bool => 0x2,
            SpaKind::Id => 0x3,
            SpaKind::Int => 0x4,
            SpaKind::Long => 0x5,
            SpaKind::Float => 0x6,
            SpaKind::Double => 0x7,
            SpaKind::String => 0x8,
            SpaKind::Bytes => 0x9,
            SpaKind::Rectangle => 0xa,
            SpaKind::Fraction => 0xb,
            SpaKind::Bitmap => 0xc,
            SpaKind::Array => 0xd,
            SpaKind::Struct => 0xe,
            SpaKind::Object => 0xf,
            SpaKind::Sequence => 0x10,
            SpaKind::Pointer => 0x11,
            SpaKind::Fd => 0x12,
            SpaKind::Choice => 0x13,
            SpaKind::Pod => 0x14,
        }
    }

    /// The `u32` that stands for this kind on the wire.
    #[verifier::when_used_as_spec(value)]
    pub fn as_u32(self) -> (r: u32)
        ensures
            r == self.value(),
    {
        match self {
            SpaKind::Nil => 0x1,
            SpaKind::Bool => 0x2,
            SpaKind::Id => 0x3,
            SpaKind::Int => 0x4,
            SpaKind::Long => 0x5,
            SpaKind::Float => 0x6,
            SpaKind::Double => 0x7,
            SpaKind::String => 0x8,
            SpaKind::Bytes => 0x9,
            SpaKind::Rectangle => 0xa,
            SpaKind::Fraction => 0xb,
            SpaKind::Bitmap => 0xc,
            SpaKind::Array => 0xd,
            SpaKind::Struct => 0xe,
            SpaKind::Object => 0xf,
            SpaKind::Sequence => 0x10,
            SpaKind::Pointer => 0x11,
            SpaKind::Fd => 0x12,
            SpaKind::Choice => 0x13,
            SpaKind::Pod => 0x14,
        }
    }

    /// The variant that `kind` stands for, if any.
    pub open spec fn spec_from_u32(kind: u32) -> Option<SpaKind> {
        match kind {
            0x1 => Some(SpaKind::Nil),
            0x2 => Some(SpaKind::Bool),
            0x3 => Some(SpaKind::Id),
            0x4 => Some(SpaKind::Int),
            0x5 => Some(SpaKind::Long),
            0x6 => Some(SpaKind::Float),
            0x7 => Some(SpaKind::Double),
            0x8 => Some(SpaKind::String),
            0x9 => Some(SpaKind::Bytes),
            0xa => Some(SpaKind::Rectangle),
            0xb => Some(SpaKind::Fraction),
            0xc => Some(SpaKind::Bitmap),
            0xd => Some(SpaKind::Array),
            0xe => Some(SpaKind::Struct),
            0xf => Some(SpaKind::Object),
            0x10 => Some(SpaKind::Sequence),
            0x11 => Some(SpaKind::Pointer),
            0x12 => Some(SpaKind::Fd),
            0x13 => Some(SpaKind::Choice),
            0x14 => Some(SpaKind::Pod),
            _ => None,
        }
    }

    /// Attempt to create a [`SpaKind`] from a `u32`.
    ///
    /// Returns `None` if `kind` stands for no variant.
    pub fn from_u32(kind: u32) -> (r: Option<SpaKind>)
        ensures
            r == SpaKind::spec_from_u32(kind),
            r is Some <==> (0x1 <= kind <= 0x14),
            r matches Some(k) ==> k.value() == kind,
    {
        match kind {
            0x1 => Some(SpaKind::Nil),
            0x2 => Some(SpaKind::Bool),
            0x3 => Some(SpaKind::Id),
            0x4 => Some(SpaKind::Int),
            0x5 => Some(SpaKind::Long),
            0x6 => Some(SpaKind::Float),
            0x7 => Some(SpaKind::Double),
            0x8 => Some(SpaKind::String),
            0x9 => Some(SpaKind::Bytes),
            0xa => Some(SpaKind::Rectangle),
            0xb => Some(SpaKind::Fraction),
            0xc => Some(SpaKind::Bitmap),
            0xd => Some(SpaKind::Array),
            0xe => Some(SpaKind::Struct),
            0xf => Some(SpaKind::Object),
            0x10 => Some(SpaKind::Sequence),
            0x11 => Some(SpaKind::Pointer),
            0x12 => Some(SpaKind::Fd),
            0x13 => Some(SpaKind::Choice),
            0x14 => Some(SpaKind::Pod),
            _ => None,
        }
    }
}

/// Every [`SpaKind`] is read back from the `u32` that stands for it, and no
/// other `u32` stands for it.
pub proof fn lemma_spa_kind_roundtrip(k: SpaKind, x: u32)
    ensures
        SpaKind::spec_from_u32(k.value()) == Some(k),
        SpaKind::spec_from_u32(x) == Some(k) ==> x == k.value(),
{
}

/// What a SPA POD pointer points to (`SPA_TYPE_POINTER_*`).
#[derive(Debug, Clone, Copy, PartialEq, Eq, Structural, PartialOrd, Ord, Hash, Default)]
#[non_exhaustive]
pub enum SpaPointerKind {
    /// A SPA buffer.
    #[default]
    Buffer,
    /// The metadata of a SPA buffer.
    Meta,
    /// A SPA dictionary.
    Dict,
}

impl SpaPointerKind {
    /// The `u32` that stands for this kind on the wire.
    pub open spec fn value(self) -> u32 {
        match self {
            SpaPointerKind::Buffer => 0x10001,
            SpaPointerKind::Meta => 0x10002,
            SpaPointerKind::Dict => 0x10003,
        }
    }

    /// The `u32` that stands for this kind on the wire.
    #[verifier::when_used_as_spec(value)]
    pub fn as_u32(self) -> (r: u32)
        ensures
            r == self.value(),
    {
        match self {
            SpaPointerKind::Buffer => 0x10001,
            SpaPointerKind::Meta => 0x10002,
            SpaPointerKind::Dict => 0x10003,
        }
    }

    /// The variant that `kind` stands for, if any.
    pub open spec fn spec_from_u32(kind: u32) -> Option<SpaPointerKind> {
        match kind {
            0x10001 => Some(SpaPointerKind::Buffer),
            0x10002 => Some(SpaPointerKind::Meta),
            0x10003 => Some(SpaPointerKind::Dict),
            _ => None,
        }
    }

    /// Attempt to create a [`SpaPointerKind`] from a `u32`.
    ///
    /// Returns `None` if `kind` stands for no variant.
    pub fn from_u32(kind: u32) -> (r: Option<SpaPointerKind>)
        ensures
            r == SpaPointerKind::spec_from_u32(kind),
            r is Some <==> (0x10001 <= kind <= 0x10003),
            r matches Some(k) ==> k.value() == kind,
    {
        match kind {
            0x10001 => Some(SpaPointerKind::Buffer),
            0x10002 => Some(SpaPointerKind::Meta),
            0x10003 => Some(SpaPointerKind::Dict),
            _ => None,
        }
    }
}

/// Every [`SpaPointerKind`] is read back from the `u32` that stands for it, and no
/// other `u32` stands for it.
pub proof fn lemma_spa_pointer_kind_roundtrip(k: SpaPointerKind, x: u32)
    ensures
        SpaPointerKind::spec_from_u32(k.value()) == Some(k),
        SpaPointerKind::spec_from_u32(x) == Some(k) ==> x == k.value(),
{
}

/// The possible SPA POD events (`SPA_TYPE_EVENT_*`).
#[derive(Debug, Clone, Copy, PartialEq, Eq, Structural, PartialOrd, Ord, Hash, Default)]
#[non_exhaustive]
pub enum SpaEventKind {
    /// Device event.
    #[default]
    Device,
    /// Node event.
    Node,
}

impl SpaEventKind {
    /// The `u32` that stands for this kind on the wire.
    pub open spec fn value(self) -> u32 {
        match self {
            SpaEventKind::Device => 0x20001,
            SpaEventKind::Node => 0x20002,
        }
    }

    /// The `u32` that stands for this kind on the wire.
    #[verifier::when_used_as_spec(value)]
    pub fn as_u32(self) -> (r: u32)
        ensures
            r == self.value(),
    {
        match self {
            SpaEventKind::Device => 0x20001,
            SpaEventKind::Node => 0x20002,
        }
    }

    /// The variant that `kind` stands for, if any.
    pub open spec fn spec_from_u32(kind: u32) -> Option<SpaEventKind> {
        match kind {
            0x20001 => Some(SpaEventKind::Device),
            0x20002 => Some(SpaEventKind::Node),
            _ => None,
        }
    }

    /// Attempt to create a [`SpaEventKind`] from a `u32`.
    ///
    /// Returns `None` if `kind` stands for no variant.
    pub fn from_u32(kind: u32) -> (r: Option<SpaEventKind>)
        ensures
            r == SpaEventKind::spec_from_u32(kind),
            r is Some <==> (0x20001 <= kind <= 0x20002),
            r matches Some(k) ==> k.value() == kind,
    {
        match kind {
            0x20001 => Some(SpaEventKind::Device),
            0x20002 => Some(SpaEventKind::Node),
            _ => None,
        }
    }
}

/// Every [`SpaEventKind`] is read back from the `u32` that stands for it, and no
/// other `u32` stands for it.
pub proof fn lemma_spa_event_kind_roundtrip(k: SpaEventKind, x: u32)
    ensures
        SpaEventKind::spec_from_u32(k.value()) == Some(k),
        SpaEventKind::spec_from_u32(x) == Some(k) ==> x == k.value(),
{
}

/// The possible SPA POD commands (`SPA_TYPE_COMMAND_*`).
#[derive(Debug, Clone, Copy, PartialEq, Eq, Structural, PartialOrd, Ord, Hash, Default)]
#[non_exhaustive]
pub enum SpaCommandKind {
    /// Device command.
    #[default]
    Device,
    /// Node command.
    Node,
}

impl SpaCommandKind {
    /// The `u32` that stands for this kind on the wire.
    pub open spec fn value(self) -> u32 {
        match self {
            SpaCommandKind::Device => 0x30001,
            SpaCommandKind::Node => 0x30002,
        }
    }

    /// The `u32` that stands for this kind on the wire.
    #[verifier::when_used_as_spec(value)]
    pub fn as_u32(self) -> (r: u32)
        ensures
            r == self.value(),
    {
        match self {
            SpaCommandKind::Device => 0x30001,
            SpaCommandKind::Node => 0x30002,
        }
    }

    /// The variant that `kind` stands for, if any.
    pub open spec fn spec_from_u32(kind: u32) -> Option<SpaCommandKind> {
        match kind {
            0x30001 => Some(SpaCommandKind::Device),
            0x30002 => Some(SpaCommandKind::Node),
            _ => None,
        }
    }

    /// Attempt to create a [`SpaCommandKind`] from a `u32`.
    ///
    /// Returns `None` if `kind` stands for no variant.
    pub fn from_u32(kind: u32) -> (r: Option<SpaCommandKind>)
        ensures
            r == SpaCommandKind::spec_from_u32(kind),
            r is Some <==> (0x30001 <= kind <= 0x30002),
            r matches Some(k) ==> k.value() == kind,
    {
        match kind {
            0x30001 => Some(SpaCommandKind::Device),
            0x30002 => Some(SpaCommandKind::Node),
            _ => None,
        }
    }
}

/// Every [`SpaCommandKind`] is read back from the `u32` that stands for it, and no
/// other `u32` stands for it.
pub proof fn lemma_spa_command_kind_roundtrip(k: SpaCommandKind, x: u32)
    ensures
        SpaCommandKind::spec_from_u32(k.value()) == Some(k),
        SpaCommandKind::spec_from_u32(x) == Some(k) ==> x == k.value(),
{
}

/// The possible SPA POD objects (`SPA_TYPE_OBJECT_*`).
#[derive(Debug, Clone, Copy, PartialEq, Eq, Structural, PartialOrd, Ord, Hash, Default)]
#[non_exhaustive]
pub enum SpaObjectKind {
    /// PropInfo.
    #[default]
    PropInfo,
    /// Props.
    Props,
    /// Format.
    Format,
    /// ParamBuffers.
    ParamBuffers,
    /// ParamMeta.
    ParamMeta,
    /// ParamIo.
    ParamIo,
    /// ParamProfile.
    ParamProfile,
    /// ParamPortConfig.
    ParamPortConfig,
    /// ParamRoute.
    ParamRoute,
    /// Profiler.
    Profiler,
    /// ParamLatency.
    ParamLatency,
    /// ParamProcessLatency.
    ParamProcessLatency,
}

impl SpaObjectKind {
    /// The `u32` that stands for this kind on the wire.
    pub open spec fn value(self) -> u32 {
        match self {
            SpaObjectKind::PropInfo => 0x40001,
            SpaObjectKind::Props => 0x40002,
            SpaObjectKind::Format => 0x40003,
            SpaObjectKind::ParamBuffers => 0x40004,
            SpaObjectKind::ParamMeta => 0x40005,
            SpaObjectKind::ParamIo => 0x40006,
            SpaObjectKind::ParamProfile => 0x40007,
            SpaObjectKind::ParamPortConfig => 0x40008,
            SpaObjectKind::ParamRoute => 0x40009,
            SpaObjectKind::Profiler => 0x4000a,
            SpaObjectKind::ParamLatency => 0x4000b,
            SpaObjectKind::ParamProcessLatency => 0x4000c,
        }
    }

    /// The `u32` that stands for this kind on the wire.
    #[verifier::when_used_as_spec(value)]
    pub fn as_u32(self) -> (r: u32)
        ensures
            r == self.value(),
    {
        match self {
            SpaObjectKind::PropInfo => 0x40001,
            SpaObjectKind::Props => 0x40002,
            SpaObjectKind::Format => 0x40003,
            SpaObjectKind::ParamBuffers => 0x40004,
            SpaObjectKind::ParamMeta => 0x40005,
            SpaObjectKind::ParamIo => 0x40006,
            SpaObjectKind::ParamProfile => 0x40007,
            SpaObjectKind::ParamPortConfig => 0x40008,
            SpaObjectKind::ParamRoute => 0x40009,
            SpaObjectKind::Profiler => 0x4000a,
            SpaObjectKind::ParamLatency => 0x4000b,
            SpaObjectKind::ParamProcessLatency => 0x4000c,
        }
    }

    /// The variant that `kind` stands for, if any.
    pub open spec fn spec_from_u32(kind: u32) -> Option<SpaObjectKind> {
        match kind {
            0x40001 => Some(SpaObjectKind::PropInfo),
            0x40002 => Some(SpaObjectKind::Props),
            0x40003 => Some(SpaObjectKind::Format),
            0x40004 => Some(SpaObjectKind::ParamBuffers),
            0x40005 => Some(SpaObjectKind::ParamMeta),
            0x40006 => Some(SpaObjectKind::ParamIo),
            0x40007 => Some(SpaObjectKind::ParamProfile),
            0x40008 => Some(SpaObjectKind::ParamPortConfig),
            0x40009 => Some(SpaObjectKind::ParamRoute),
            0x4000a => Some(SpaObjectKind::Profiler),
            0x4000b => Some(SpaObjectKind::ParamLatency),
            0x4000c => Some(SpaObjectKind::ParamProcessLatency),
            _ => None,
        }
    }

    /// Attempt to create a [`SpaObjectKind`] from a `u32`.
    ///
    /// Returns `None` if `kind` stands for no variant.
    pub fn from_u32(kind: u32) -> (r: Option<SpaObjectKind>)
        ensures
            r == SpaObjectKind::spec_from_u32(kind),
            r is Some <==> (0x40001 <= kind <= 0x4000c),
            r matches Some(k) ==> k.value() == kind,
    {
        match kind {
            0x40001 => Some(SpaObjectKind::PropInfo),
            0x40002 => Some(SpaObjectKind::Props),
            0x40003 => Some(SpaObjectKind::Format),
            0x40004 => Some(SpaObjectKind::ParamBuffers),
            0x40005 => Some(SpaObjectKind::ParamMeta),
            0x40006 => Some(SpaObjectKind::ParamIo),
            0x40007 => Some(SpaObjectKind::ParamProfile),
            0x40008 => Some(SpaObjectKind::ParamPortConfig),
            0x40009 => Some(SpaObjectKind::ParamRoute),
            0x4000a => Some(SpaObjectKind::Profiler),
            0x4000b => Some(SpaObjectKind::ParamLatency),
            0x4000c => Some(SpaObjectKind::ParamProcessLatency),
            _ => None,
        }
    }
}

/// Every [`SpaObjectKind`] is read back from the `u32` that stands for it, and no
/// other `u32` stands for it.
pub proof fn lemma_spa_object_kind_roundtrip(k: SpaObjectKind, x: u32)
    ensures
        SpaObjectKind::spec_from_u32(k.value()) == Some(k),
        SpaObjectKind::spec_from_u32(x) == Some(k) ==> x == k.value(),
{
}

/// The possible SPA POD vendors (`SPA_TYPE_VENDOR_*`).
#[derive(Debug, Clone, Copy, PartialEq, Eq, Structural, PartialOrd, Ord, Hash, Default)]
#[non_exhaustive]
pub enum SpaVendorKind {
    /// PipeWire vendor.
    #[default]
    PipeWire,
    /// Other vendor.
    Other,
}

impl SpaVendorKind {
    /// The `u32` that stands for this kind on the wire.
    pub open spec fn value(self) -> u32 {
        match self {
            SpaVendorKind::PipeWire => 0x2000000,
            SpaVendorKind::Other => 0x7f000000,
        }
    }

    /// The `u32` that stands for this kind on the wire.
    #[verifier::when_used_as_spec(value)]
    pub fn as_u32(self) -> (r: u32)
        ensures
            r == self.value(),
    {
        match self {
            SpaVendorKind::PipeWire => 0x2000000,
            SpaVendorKind::Other => 0x7f000000,
        }
    }

    /// The variant that `kind` stands for, if any.
    pub open spec fn spec_from_u32(kind: u32) -> Option<SpaVendorKind> {
        match kind {
            0x2000000 => Some(SpaVendorKind::PipeWire),
            0x7f000000 => Some(SpaVendorKind::Other),
            _ => None,
        }
    }

    /// Attempt to create a [`SpaVendorKind`] from a `u32`.
    ///
    /// Returns `None` if `kind` stands for no variant.
    pub fn from_u32(kind: u32) -> (r: Option<SpaVendorKind>)
        ensures
            r == SpaVendorKind::spec_from_u32(kind),
            r is Some <==> (kind == 0x2000000 || kind == 0x7f000000),
            r matches Some(k) ==> k.value() == kind,
    {
        match kind {
            0x2000000 => Some(SpaVendorKind::PipeWire),
            0x7f000000 => Some(SpaVendorKind::Other),
            _ => None,
        }
    }
}

/// Every [`SpaVendorKind`] is read back from the `u32` that stands for it, and no
/// other `u32` stands for it.
pub proof fn lemma_spa_vendor_kind_roundtrip(k: SpaVendorKind, x: u32)
    ensures
        SpaVendorKind::spec_from_u32(k.value()) == Some(k),
        SpaVendorKind::spec_from_u32(x) == Some(k) ==> x == k.value(),
{
}

/// `u32` constants for each [`SpaKind`], to ease matching on `u32`s.
impl SpaKind {
    /// [`SpaKind::Nil`] as a `u32`.
    pub const NONE: u32 = 1;

    /// [`SpaKind::Bool`] as a `u32`.
    pub const BOOL: u32 = 2;

    /// [`SpaKind::Id`] as a `u32`.
    pub const ID: u32 = 3;

    /// [`SpaKind::Int`] as a `u32`.
    pub const INT: u32 = 4;

    /// [`SpaKind::Long`] as a `u32`.
    pub const LONG: u32 = 5;

    /// [`SpaKind::Float`] as a `u32`.
    pub const FLOAT: u32 = 6;

    /// [`SpaKind::Double`] as a `u32`.
    pub const DOUBLE: u32 = 7;

    /// [`SpaKind::String`] as a `u32`.
    pub const STRING: u32 = 8;

    /// [`SpaKind::Bytes`] as a `u32`.
    pub const BYTES: u32 = 9;

    /// [`SpaKind::Rectangle`] as a `u32`.
    pub const RECTANGLE: u32 = 10;

    /// [`SpaKind::Fraction`] as a `u32`.
    pub const FRACTION: u32 = 11;

    /// [`SpaKind::Bitmap`] as a `u32`.
    pub const BITMAP: u32 = 12;

    /// [`SpaKind::Array`] as a `u32`.
    pub const ARRAY: u32 = 13;

    /// [`SpaKind::Struct`] as a `u32`.
    pub const STRUCT: u32 = 14;

    /// [`SpaKind::Object`] as a `u32`.
    pub const OBJECT: u32 = 15;

    /// [`SpaKind::Sequence`] as a `u32`.
    pub const SEQUENCE: u32 = 16;

    /// [`SpaKind::Pointer`] as a `u32`.
    pub const POINTER: u32 = 17;

    /// [`SpaKind::Fd`] as a `u32`.
    pub const FD: u32 = 18;

    /// [`SpaKind::Choice`] as a `u32`.
    pub const CHOICE: u32 = 19;

    /// [`SpaKind::Pod`] as a `u32`.
    pub const POD: u32 = 20;
}

impl SpaObjectKind {
    /// Alias for [`SpaObjectKind::ParamIo`].
    #[allow(non_upper_case_globals)]
    pub const ParamIO: SpaObjectKind = SpaObjectKind::ParamIo;
}

/// Each [`SpaKind`] stands on the wire for its `SPA_TYPE_*` number, which is
/// also the constant of the same name: `None` is 1, and the others follow in
/// the order they are declared, up to `Pod`, 20.
pub proof fn lemma_spa_kind_numbers()
    ensures
        SpaKind::Nil.value() == SpaKind::NONE,
        SpaKind::Bool.value() == SpaKind::BOOL,
        SpaKind::Id.value() == SpaKind::ID,
        SpaKind::Int.value() == SpaKind::INT,
        SpaKind::Long.value() == SpaKind::LONG,
        SpaKind::Float.value() == SpaKind::FLOAT,
        SpaKind::Double.value() == SpaKind::DOUBLE,
        SpaKind::String.value() == SpaKind::STRING,
        SpaKind::Bytes.value() == SpaKind::BYTES,
        SpaKind::Rectangle.value() == SpaKind::RECTANGLE,
        SpaKind::Fraction.value() == SpaKind::FRACTION,
        SpaKind::Bitmap.value() == SpaKind::BITMAP,
        SpaKind::Array.value() == SpaKind::ARRAY,
        SpaKind::Struct.value() == SpaKind::STRUCT,
        SpaKind::Object.value() == SpaKind::OBJECT,
        SpaKind::Sequence.value() == SpaKind::SEQUENCE,
        SpaKind::Pointer.value() == SpaKind::POINTER,
        SpaKind::Fd.value() == SpaKind::FD,
        SpaKind::Choice.value() == SpaKind::CHOICE,
        SpaKind::Pod.value() == SpaKind::POD,
        forall|k: SpaKind| 1 <= #[trigger] k.value() <= 20,
{
}

/// The other kinds stand on the wire for their `SPA_TYPE_*` numbers:
/// pointers from 0x10001, events from 0x20001, commands from 0x30001 and
/// objects from 0x40001, each in the order they are declared, and the vendors
/// PipeWire at 0x2000000 and Other at 0x7f000000.
pub proof fn lemma_sub_kind_numbers()
    ensures
        SpaPointerKind::Buffer.value() == 0x10001,
        SpaPointerKind::Meta.value() == 0x10002,
        SpaPointerKind::Dict.value() == 0x10003,
        SpaEventKind::Device.value() == 0x20001,
        SpaEventKind::Node.value() == 0x20002,
        SpaCommandKind::Device.value() == 0x30001,
        SpaCommandKind::Node.value() == 0x30002,
        SpaObjectKind::PropInfo.value() == 0x40001,
        SpaObjectKind::Props.value() == 0x40002,
        SpaObjectKind::Format.value() == 0x40003,
        SpaObjectKind::ParamBuffers.value() == 0x40004,
        SpaObjectKind::ParamMeta.value() == 0x40005,
        SpaObjectKind::ParamIo.value() == 0x40006,
        SpaObjectKind::ParamProfile.value() == 0x40007,
        SpaObjectKind::ParamPortConfig.value() == 0x40008,
        SpaObjectKind::ParamRoute.value() == 0x40009,
        SpaObjectKind::Profiler.value() == 0x4000a,
        SpaObjectKind::ParamLatency.value() == 0x4000b,
        SpaObjectKind::ParamProcessLatency.value() == 0x4000c,
        SpaVendorKind::PipeWire.value() == 0x2000000,
        SpaVendorKind::Other.value() == 0x7f000000,
{
}

impl SpaKind {
    /// The size of a POD of this kind, if it is a known constant (a primitive kind).
    pub open spec fn size_of_kind(self) -> Option<u32> {
        match self {
            SpaKind::Nil => Some(0u32),
            SpaKind::Bool | SpaKind::Id | SpaKind::Int | SpaKind::Float => Some(4u32),
            SpaKind::Long | SpaKind::Double | SpaKind::Rectangle | SpaKind::Fraction
            | SpaKind::Fd => Some(8u32),
            SpaKind::Pointer => Some(16u32),
            _ => None,
        }
    }

    /// Get the size of this SPA kind, if it is a known constant (a primitive SPA).
    #[verifier::when_used_as_spec(size_of_kind)]
    pub fn expected_size(self) -> (r: Option<u32>)
        ensures
            r == self.size_of_kind(),
    {
        match self {
            SpaKind::Nil => Some(0),
            SpaKind::Bool | SpaKind::Id | SpaKind::Int | SpaKind::Float => Some(4),
            SpaKind::Long | SpaKind::Double | SpaKind::Rectangle | SpaKind::Fraction
            | SpaKind::Fd => Some(8),
            SpaKind::Pointer => Some(16),
            _ => None,
        }
    }

    /// Returns whether this is a primitive kind, one with a constant size.
    pub fn is_primitive(self) -> (r: bool)
        ensures
            r == self.size_of_kind() is Some,
    {
        self.expected_size().is_some()
    }
}


} // verus!
