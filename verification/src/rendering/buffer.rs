//! GPU buffers: storage flags, binding targets, and the rules that ranged
//! binding, mapping, filling and copying must obey.

use vstd::prelude::*;
use crate::rendering::gl_enums;

verus! {

/// Flags a buffer's storage is created with.
#[derive(Debug, Clone, Copy, PartialEq, Eq, Structural)]
pub struct BufferStorageFlags {
    pub bits: u32,
}

impl BufferStorageFlags {
    pub fn from_bits(bits: u32) -> (r: Self)
        ensures
            r.bits == bits,
    {
        BufferStorageFlags { bits }
    }

    pub fn bits(&self) -> (r: u32)
        ensures
            r == self.bits,
    {
        self.bits
    }

    /// Whether the two flag sets share a flag.
    pub fn intersects(&self, other: BufferStorageFlags) -> (r: bool)
        ensures
            r == ((self.bits & other.bits) != 0),
    {
        (self.bits & other.bits) != 0
    }

    /// Contents may be updated after creation.
    pub fn dynamic() -> (r: Self)
        ensures
            r.bits == gl_enums::DYNAMIC_STORAGE_BIT,
    {
        BufferStorageFlags { bits: gl_enums::DYNAMIC_STORAGE_BIT }
    }

    /// Mappable for reading.
    pub fn map_read() -> (r: Self)
        ensures
            r.bits == gl_enums::MAP_READ_BIT,
    {
        BufferStorageFlags { bits: gl_enums::MAP_READ_BIT }
    }

    /// Mappable for writing.
    pub fn map_write() -> (r: Self)
        ensures
            r.bits == gl_enums::MAP_WRITE_BIT,
    {
        BufferStorageFlags { bits: gl_enums::MAP_WRITE_BIT }
    }

    /// May stay mapped while used.
    pub fn map_persistent() -> (r: Self)
        ensures
            r.bits == gl_enums::MAP_PERSISTENT_BIT,
    {
        BufferStorageFlags { bits: gl_enums::MAP_PERSISTENT_BIT }
    }

    /// Mappable for reading or writing.
    pub fn map_read_write() -> (r: Self)
        ensures
            r.bits == gl_enums::MAP_READ_BIT | gl_enums::MAP_WRITE_BIT,
    {
        BufferStorageFlags { bits: gl_enums::MAP_READ_BIT | gl_enums::MAP_WRITE_BIT }
    }

    /// Mappable for writing, persistently and coherently.
    pub fn map_write_persistent_coherent() -> (r: Self)
        ensures
            r.bits == gl_enums::MAP_WRITE_BIT | gl_enums::MAP_PERSISTENT_BIT | gl_enums::MAP_COHERENT_BIT,
    {
        BufferStorageFlags {
            bits: gl_enums::MAP_WRITE_BIT | gl_enums::MAP_PERSISTENT_BIT | gl_enums::MAP_COHERENT_BIT,
        }
    }
}

/// The targets a buffer can be bound to.
#[derive(Debug, Clone, Copy, PartialEq, Eq, Structural)]
pub enum BufferTarget {
    Unbound,
    Array,
    AtomicCounter,
    CopyRead,
    CopyWrite,
    DispatchIndirect,
    DrawIndirect,
    ElementArray,
    PixelPack,
    PixelUnpack,
    QueryBuffer,
    ShaderStorage,
    Texture,
    TransformFeedback,
    Uniform,
}

impl BufferTarget {
    /// The OpenGL enumerant of the target (0 when unbound).
    pub open spec fn gl_value(self) -> u32 {
        match self {
            BufferTarget::Unbound => 0,
            BufferTarget::Array => gl_enums::ARRAY_BUFFER,
            BufferTarget::AtomicCounter => gl_enums::ATOMIC_COUNTER_BUFFER,
            BufferTarget::CopyRead => gl_enums::COPY_READ_BUFFER,
            BufferTarget::CopyWrite => gl_enums::COPY_WRITE_BUFFER,
            BufferTarget::DispatchIndirect => gl_enums::DISPATCH_INDIRECT_BUFFER,
            BufferTarget::DrawIndirect => gl_enums::DRAW_INDIRECT_BUFFER,
            BufferTarget::ElementArray => gl_enums::ELEMENT_ARRAY_BUFFER,
            BufferTarget::PixelPack => gl_enums::PIXEL_PACK_BUFFER,
            BufferTarget::PixelUnpack => gl_enums::PIXEL_UNPACK_BUFFER,
            BufferTarget::QueryBuffer => gl_enums::QUERY_BUFFER,
            BufferTarget::ShaderStorage => gl_enums::SHADER_STORAGE_BUFFER,
            BufferTarget::Texture => gl_enums::TEXTURE_BUFFER,
            BufferTarget::TransformFeedback => gl_enums::TRANSFORM_FEEDBACK_BUFFER,
            BufferTarget::Uniform => gl_enums::UNIFORM_BUFFER,
        }
    }

    /// The OpenGL enumerant of the target (0 when unbound).
    pub fn gl_enum(&self) -> (r: u32)
        ensures
            r == self.gl_value(),
    {
        match self {
            BufferTarget::Unbound => 0,
            BufferTarget::Array => gl_enums::ARRAY_BUFFER,
            BufferTarget::AtomicCounter => gl_enums::ATOMIC_COUNTER_BUFFER,
            BufferTarget::CopyRead => gl_enums::COPY_READ_BUFFER,
            BufferTarget::CopyWrite => gl_enums::COPY_WRITE_BUFFER,
            BufferTarget::DispatchIndirect => gl_enums::DISPATCH_INDIRECT_BUFFER,
            BufferTarget::DrawIndirect => gl_enums::DRAW_INDIRECT_BUFFER,
            BufferTarget::ElementArray => gl_enums::ELEMENT_ARRAY_BUFFER,
            BufferTarget::PixelPack => gl_enums::PIXEL_PACK_BUFFER,
            BufferTarget::PixelUnpack => gl_enums::PIXEL_UNPACK_BUFFER,
            BufferTarget::QueryBuffer => gl_enums::QUERY_BUFFER,
            BufferTarget::ShaderStorage => gl_enums::SHADER_STORAGE_BUFFER,
            BufferTarget::Texture => gl_enums::TEXTURE_BUFFER,
            BufferTarget::TransformFeedback => gl_enums::TRANSFORM_FEEDBACK_BUFFER,
            BufferTarget::Uniform => gl_enums::UNIFORM_BUFFER,
        }
    }

    /// Targets with indexed binding points, to which ranges can be bound.
    pub open spec fn spec_is_indexed(self) -> bool {
        self == BufferTarget::Uniform || self == BufferTarget::ShaderStorage || self
            == BufferTarget::AtomicCounter || self == BufferTarget::TransformFeedback
    }

    /// Whether ranges of a buffer can be bound to this target.
    pub fn is_indexed(&self) -> (r: bool)
        ensures
            r == self.spec_is_indexed(),
            r == has_indexed_binding_points(self.gl_value()),
    {
        match self {
            BufferTarget::Uniform
            | BufferTarget::ShaderStorage
            | BufferTarget::AtomicCounter
            | BufferTarget::TransformFeedback => true,
            _ => false,
        }
    }
}

/// The buffer targets OpenGL gives indexed binding points: uniform, shader
/// storage, atomic counter and transform feedback buffers.
pub open spec fn has_indexed_binding_points(target: u32) -> bool {
    target == gl_enums::UNIFORM_BUFFER || target == gl_enums::SHADER_STORAGE_BUFFER || target
        == gl_enums::ATOMIC_COUNTER_BUFFER || target == gl_enums::TRANSFORM_FEEDBACK_BUFFER
}

/// Ranges can be bound to exactly the targets with indexed binding points.
pub proof fn lemma_indexed_targets_have_indexed_binding_points(t: BufferTarget)
    ensures
        t.spec_is_indexed() == has_indexed_binding_points(t.gl_value()),
        (t is Uniform || t is ShaderStorage || t is AtomicCounter || t is TransformFeedback) ==> t.spec_is_indexed(),
{
}

/// Why a buffer operation is refused.
#[derive(Debug, Clone, Copy, PartialEq, Eq, Structural)]
pub enum BufferError {
    /// Ranges can only be bound to uniform, shader storage, atomic counter
    /// and transform feedback targets.
    TargetNotIndexed,
    /// The requested range ends past the buffer, or a write through the
    /// mapping does not start at offset 0.
    OutOfRange,
    /// The storage was not created mappable.
    NotMappable,
    /// The storage was not created dynamic.
    NotDynamic,
    /// The buffer is not mapped.
    NotMapped,
    /// The storage was not created mappable for writing.
    NotWritable,
    /// The data is not exactly the size of the buffer.
    SizeMismatch,
    /// A copy offset is not positive.
    NonPositiveOffset,
    /// The copy size is not positive.
    NonPositiveSize,
    /// Source and destination ranges overlap within one buffer.
    OverlappingRanges,
    /// A mapped buffer that is not mapped persistently takes part in a copy.
    MappedNotPersistent,
}

/// A range of a buffer bound to an indexed binding point.
#[derive(Debug, Clone, Copy, PartialEq, Eq, Structural)]
pub struct RangeBinding {
    pub target: u32,
    pub binding_index: u32,
    pub buffer: u32,
    pub offset: isize,
    pub size: isize,
}

/// The abstract state of a buffer.
pub struct BufferView {
    pub name: Seq<char>,
    pub id: u32,
    pub size: isize,
    pub mapped: bool,
    pub storage_flags: BufferStorageFlags,
    pub target: BufferTarget,
}

/// A buffer object, its size, storage flags and whether it is mapped.
pub struct Buffer {
    name: String,
    id: u32,
    size: isize,
    mapped: bool,
    storage_flags: BufferStorageFlags,
    current_bound_target: BufferTarget,
}

impl View for Buffer {
    type V = BufferView;

    closed spec fn view(&self) -> BufferView {
        BufferView {
            name: self.name@,
            id: self.id,
            size: self.size,
            mapped: self.mapped,
            storage_flags: self.storage_flags,
            target: self.current_bound_target,
        }
    }
}

/// Whether `offset + length` stays within `size`.
pub open spec fn range_fits(offset: isize, length: isize, size: isize) -> bool {
    offset + length <= size
}

fn fits(offset: isize, length: isize, size: isize) -> (r: bool)
    ensures
        r == range_fits(offset, length, size),
{
    (offset as i128) + (length as i128) <= size as i128
}

/// A copy between two buffers.
pub struct BufferCopyInfo<'a> {
    pub source: &'a Buffer,
    pub destination: &'a Buffer,
    pub source_offset: isize,
    pub destination_offset: isize,
    pub size: isize,
}

/// Whether the `size` bytes at `source_offset` and at `destination_offset`
/// share a byte.
pub open spec fn ranges_overlap(source_offset: isize, destination_offset: isize, size: isize) -> bool {
    !(source_offset + size <= destination_offset || destination_offset + size <= source_offset)
}

/// The verdict on a copy, checking in order: positive offsets, positive
/// size, both ranges within their buffers, no overlapping ranges within one
/// buffer, and mapped buffers mapped persistently.
pub open spec fn spec_check_copy(
    source: BufferView,
    destination: BufferView,
    source_offset: isize,
    destination_offset: isize,
    size: isize,
) -> Result<(), BufferError> {
    if source_offset <= 0 || destination_offset <= 0 {
        Err(BufferError::NonPositiveOffset)
    } else if size <= 0 {
        Err(BufferError::NonPositiveSize)
    } else if !range_fits(source_offset, size, source.size) || !range_fits(destination_offset, size, destination.size) {
        Err(BufferError::OutOfRange)
    } else if source.id == destination.id && ranges_overlap(source_offset, destination_offset, size) {
        Err(BufferError::OverlappingRanges)
    } else if (source.mapped && (source.storage_flags.bits & gl_enums::MAP_PERSISTENT_BIT) == 0) || (
    destination.mapped && (destination.storage_flags.bits & gl_enums::MAP_PERSISTENT_BIT) == 0) {
        Err(BufferError::MappedNotPersistent)
    } else {
        Ok(())
    }
}

impl Buffer {
    /// The state of a buffer object the host created with the given label,
    /// size, target and storage flags; it starts unmapped.
    pub fn new(name: &str, id: u32, size: isize, buffer_target: BufferTarget, buffer_storage_flags: BufferStorageFlags) -> (r: Buffer)
        ensures
            r@.name == name@,
            r@.id == id,
            r@.size == size,
            !r@.mapped,
            r@.storage_flags == buffer_storage_flags,
            r@.target == buffer_target,
    {
        Buffer {
            name: name.to_string(),
            id,
            size,
            mapped: false,
            storage_flags: buffer_storage_flags,
            current_bound_target: buffer_target,
        }
    }

    pub fn get_id(&self) -> (r: u32)
        ensures
            r == self@.id,
    {
        self.id
    }

    pub fn get_size(&self) -> (r: isize)
        ensures
            r == self@.size,
    {
        self.size
    }

    pub fn is_mapped(&self) -> (r: bool)
        ensures
            r == self@.mapped,
    {
        self.mapped
    }

    pub fn get_storage_flags(&self) -> (r: BufferStorageFlags)
        ensures
            r == self@.storage_flags,
    {
        self.storage_flags
    }

    /// Whether `[offset, offset + size)` may be bound to an indexed binding
    /// point: the buffer's target must be indexed and the range must end
    /// within the buffer.
    pub fn check_bind_range(&self, offset: isize, size: isize) -> (r: Result<(), BufferError>)
        ensures
            !self@.target.spec_is_indexed() ==> r == Err::<(), BufferError>(BufferError::TargetNotIndexed),
            self@.target.spec_is_indexed() && !range_fits(offset, size, self@.size) ==> r == Err::<
                (),
                BufferError,
            >(BufferError::OutOfRange),
            self@.target.spec_is_indexed() && range_fits(offset, size, self@.size) ==> r is Ok,
            (self@.target is Uniform || self@.target is ShaderStorage || self@.target is AtomicCounter
                || self@.target is TransformFeedback) && range_fits(offset, size, self@.size) ==> r is Ok,
            !has_indexed_binding_points(self@.target.gl_value()) ==> r == Err::<(), BufferError>(
                BufferError::TargetNotIndexed,
            ),
    {
        if !self.current_bound_target.is_indexed() {
            Err(BufferError::TargetNotIndexed)
        } else if !fits(offset, size, self.size) {
            Err(BufferError::OutOfRange)
        } else {
            Ok(())
        }
    }

    /// Binds `[offset, offset + size)` to binding point `binding_index` of
    /// the buffer's target.
    pub fn bind_range(&self, binding_index: u32, offset: isize, size: isize) -> (r: RangeBinding)
        requires
            self@.target.spec_is_indexed(),
            range_fits(offset, size, self@.size),
        ensures
            r == (RangeBinding {
                target: self@.target.gl_value(),
                binding_index,
                buffer: self@.id,
                offset,
                size,
            }),
    {
        RangeBinding { target: self.current_bound_target.gl_enum(), binding_index, buffer: self.id, offset, size }
    }

    /// Binds the whole buffer to binding point `binding_index`.
    pub fn bind(&self, binding_index: u32) -> (r: RangeBinding)
        requires
            self@.target.spec_is_indexed(),
        ensures
            r == (RangeBinding {
                target: self@.target.gl_value(),
                binding_index,
                buffer: self@.id,
                offset: 0,
                size: self@.size,
            }),
    {
        self.bind_range(binding_index, 0, self.size)
    }

    /// Whether `[offset, offset + length)` may be mapped: the storage must be
    /// mappable for reading or writing and the range must end within the
    /// buffer.
    pub fn check_map_range(&self, offset: isize, length: isize) -> (r: Result<(), BufferError>)
        ensures
            (self@.storage_flags.bits & (gl_enums::MAP_READ_BIT | gl_enums::MAP_WRITE_BIT)) == 0 ==> r == Err::<
                (),
                BufferError,
            >(BufferError::NotMappable),
            (self@.storage_flags.bits & (gl_enums::MAP_READ_BIT | gl_enums::MAP_WRITE_BIT)) != 0 && !range_fits(
                offset,
                length,
                self@.size,
            ) ==> r == Err::<(), BufferError>(BufferError::OutOfRange),
            (self@.storage_flags.bits & (gl_enums::MAP_READ_BIT | gl_enums::MAP_WRITE_BIT)) != 0 && range_fits(
                offset,
                length,
                self@.size,
            ) ==> r is Ok,
    {
        if !self.storage_flags.intersects(BufferStorageFlags::map_read_write()) {
            Err(BufferError::NotMappable)
        } else if !fits(offset, length, self.size) {
            Err(BufferError::OutOfRange)
        } else {
            Ok(())
        }
    }

    /// Whether a map request must reach the device: only when the buffer is
    /// not mapped yet (mapping a mapped buffer has no effect).
    pub fn needs_mapping(&self) -> (r: bool)
        ensures
            r == !self@.mapped,
    {
        !self.mapped
    }

    /// Records the outcome of a map request: the buffer is mapped when the
    /// device returned a mapping.
    pub fn record_mapping(&mut self, mapped: bool)
        ensures
            final(self)@ == (BufferView { mapped: old(self)@.mapped || mapped, ..old(self)@ }),
    {
        if mapped {
            self.mapped = true;
        }
    }

    /// Records that the buffer was unmapped.
    pub fn unmap(&mut self)
        ensures
            final(self)@ == (BufferView { mapped: false, ..old(self)@ }),
    {
        self.mapped = false;
    }

    /// Whether the buffer's contents may be updated directly: its storage
    /// must be dynamic.
    pub fn check_fill(&self) -> (r: Result<(), BufferError>)
        ensures
            (self@.storage_flags.bits & gl_enums::DYNAMIC_STORAGE_BIT) == 0 ==> r == Err::<(), BufferError>(
                BufferError::NotDynamic,
            ),
            (self@.storage_flags.bits & gl_enums::DYNAMIC_STORAGE_BIT) != 0 ==> r is Ok,
    {
        if !self.storage_flags.intersects(BufferStorageFlags::dynamic()) {
            Err(BufferError::NotDynamic)
        } else {
            Ok(())
        }
    }

    /// Whether `data_size` bytes may be written at `offset` through the
    /// mapping: the buffer must be mapped, mappable for writing, exactly
    /// `data_size` bytes long, and the write must start at offset 0.
    pub fn check_fill_mapped(&self, offset: isize, data_size: isize) -> (r: Result<(), BufferError>)
        ensures
            !self@.mapped ==> r == Err::<(), BufferError>(BufferError::NotMapped),
            self@.mapped && (self@.storage_flags.bits & gl_enums::MAP_WRITE_BIT) == 0 ==> r == Err::<
                (),
                BufferError,
            >(BufferError::NotWritable),
            self@.mapped && (self@.storage_flags.bits & gl_enums::MAP_WRITE_BIT) != 0 && self@.size != data_size
                ==> r == Err::<(), BufferError>(BufferError::SizeMismatch),
            self@.mapped && (self@.storage_flags.bits & gl_enums::MAP_WRITE_BIT) != 0 && self@.size == data_size
                && offset != 0 ==> r == Err::<(), BufferError>(BufferError::OutOfRange),
            self@.mapped && (self@.storage_flags.bits & gl_enums::MAP_WRITE_BIT) != 0 && self@.size == data_size
                && offset == 0 ==> r is Ok,
    {
        if !self.mapped {
            Err(BufferError::NotMapped)
        } else if !self.storage_flags.intersects(BufferStorageFlags::map_write()) {
            Err(BufferError::NotWritable)
        } else if self.size != data_size {
            Err(BufferError::SizeMismatch)
        } else if offset != 0 {
            Err(BufferError::OutOfRange)
        } else {
            Ok(())
        }
    }

    /// Checks a copy between two buffers.
    pub fn check_copy(buffer_copy_info: &BufferCopyInfo) -> (r: Result<(), BufferError>)
        ensures
            r == spec_check_copy(
                buffer_copy_info.source@,
                buffer_copy_info.destination@,
                buffer_copy_info.source_offset,
                buffer_copy_info.destination_offset,
                buffer_copy_info.size,
            ),
    {
        let source = buffer_copy_info.source;
        let destination = buffer_copy_info.destination;
        if buffer_copy_info.source_offset <= 0 || buffer_copy_info.destination_offset <= 0 {
            Err(BufferError::NonPositiveOffset)
        } else if buffer_copy_info.size <= 0 {
            Err(BufferError::NonPositiveSize)
        } else if !fits(buffer_copy_info.source_offset, buffer_copy_info.size, source.size) || !fits(
            buffer_copy_info.destination_offset,
            buffer_copy_info.size,
            destination.size,
        ) {
            Err(BufferError::OutOfRange)
        } else if source.id == destination.id && !(fits(
            buffer_copy_info.source_offset,
            buffer_copy_info.size,
            buffer_copy_info.destination_offset,
        ) || fits(buffer_copy_info.destination_offset, buffer_copy_info.size, buffer_copy_info.source_offset)) {
            Err(BufferError::OverlappingRanges)
        } else if (source.mapped && !source.storage_flags.intersects(BufferStorageFlags::map_persistent())) || (
        destination.mapped && !destination.storage_flags.intersects(BufferStorageFlags::map_persistent())) {
            Err(BufferError::MappedNotPersistent)
        } else {
            Ok(())
        }
    }
}

} // verus!
