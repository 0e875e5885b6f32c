use vstd::prelude::*;
use vstd::slice::slice_to_vec;
use crate::error::BootError;

verus! {

/// The kind of firmware memory a region is taken from.
#[derive(Clone, Copy, Debug, PartialEq, Eq, Structural)]
pub enum MemoryClass {
    /// Executable memory that outlives boot services.
    RuntimeServicesCode,
    /// General data that lives as long as boot services.
    BootServicesData,
    /// Memory that the operating system may reclaim after reading its tables.
    AcpiReclaim,
    /// Data that outlives boot services.
    RuntimeServicesData,
}

/// A contiguous region of fixed size with an append-only write cursor.
#[derive(Debug)]
pub struct FastbootBuffer {
    memory_class: MemoryClass,
    data: Vec<u8>,
    offset: usize,
}

/// What a region is to whoever receives it: where it lives and what it holds.
pub struct Region {
    pub class: MemoryClass,
    pub bytes: Seq<u8>,
}

/// `base` with the bytes of `data` laid over it from position `at` on.
pub open spec fn overlay(base: Seq<u8>, at: int, data: Seq<u8>) -> Seq<u8> {
    Seq::new(
        base.len(),
        |i: int|
            if at <= i < at + data.len() {
                data[i - at]
            } else {
                base[i]
            },
    )
}

impl FastbootBuffer {
    /// Every byte of the region, written or not.
    pub closed spec fn bytes(&self) -> Seq<u8> {
        self.data@
    }

    /// How many bytes have been appended so far.
    pub closed spec fn write_offset(&self) -> nat {
        self.offset as nat
    }

    /// The memory class the region was taken from.
    pub closed spec fn class(&self) -> MemoryClass {
        self.memory_class
    }

    /// The memory class and the contents together.
    pub open spec fn region(&self) -> Region {
        Region { class: self.class(), bytes: self.bytes() }
    }

    /// The size of the region.
    pub open spec fn capacity(&self) -> nat {
        self.bytes().len()
    }

    /// The cursor never leaves the region.
    #[verifier::type_invariant]
    spec fn cursor_inside(&self) -> bool {
        self.offset <= self.data@.len()
    }

    /// A fresh region of `size` zero bytes with the cursor at its start.
    pub fn allocate(memory_class: MemoryClass, size: usize) -> (buffer: Self)
        ensures
            buffer.class() == memory_class,
            buffer.write_offset() == 0,
            buffer.bytes() == Seq::new(size as nat, |i: int| 0u8),
    {
        let data = vec![0u8; size];
        assert(data@ =~= Seq::new(size as nat, |i: int| 0u8));
        FastbootBuffer { memory_class, data, offset: 0 }
    }

    /// A region that holds exactly `data`, with the cursor at its end.
    pub fn holding(memory_class: MemoryClass, data: Vec<u8>) -> (buffer: Self)
        ensures
            buffer.class() == memory_class,
            buffer.write_offset() == data@.len(),
            buffer.bytes() == data@,
    {
        let offset = data.len();
        FastbootBuffer { memory_class, data, offset }
    }

    /// A region of the size of `data` that holds a copy of it, with the
    /// cursor at its end.
    pub fn filled(memory_class: MemoryClass, data: &[u8]) -> (buffer: Self)
        ensures
            buffer.class() == memory_class,
            buffer.write_offset() == data@.len(),
            buffer.bytes() == data@,
    {
        FastbootBuffer { memory_class, data: slice_to_vec(data), offset: data.len() }
    }

    /// The size of the region in bytes.
    pub fn len(&self) -> (n: usize)
        ensures
            n == self.capacity(),
    {
        self.data.len()
    }

    /// The position of the write cursor, which never leaves the region.
    pub fn offset(&self) -> (n: usize)
        ensures
            n == self.write_offset(),
            n <= self.capacity(),
    {
        proof {
            use_type_invariant(self);
        }
        self.offset
    }

    /// The memory class the region was taken from.
    pub fn memory_class(&self) -> (c: MemoryClass)
        ensures
            c == self.class(),
    {
        self.memory_class
    }

    /// The whole region as a readable slice.
    pub fn as_slice(&self) -> (s: &[u8])
        ensures
            s@ == self.bytes(),
    {
        self.data.as_slice()
    }

    /// Appends `data` at the cursor and moves the cursor past it. A write that
    /// would not fit is refused and leaves the region untouched.
    pub fn write(&mut self, data: &[u8]) -> (r: Result<(), BootError>)
        ensures
            final(self).class() == old(self).class(),
            old(self).write_offset() <= old(self).capacity(),
            old(self).write_offset() + data@.len() > old(self).capacity() ==> {
                &&& r == Err::<(), BootError>(BootError::OutOfBounds)
                &&& *final(self) == *old(self)
            },
            old(self).write_offset() + data@.len() <= old(self).capacity() ==> {
                &&& r is Ok
                &&& final(self).bytes() == overlay(
                    old(self).bytes(),
                    old(self).write_offset() as int,
                    data@,
                )
                &&& final(self).write_offset() == old(self).write_offset() + data@.len()
            },
    {
        proof {
            use_type_invariant(&*self);
        }
        let start: usize = self.offset;
        let count: usize = data.len();
        if count > self.data.len() - start {
            return Err(BootError::OutOfBounds);
        }
        let mut i: usize = 0;
        while i < count
            invariant
                i <= count,
                count == data@.len(),
                start + count <= self.data@.len() <= usize::MAX,
                self.offset == start,
                self.memory_class == old(self).memory_class,
                self.data@.len() == old(self).data@.len(),
                forall|j: int|
                    0 <= j < self.data@.len() ==> #[trigger] self.data@[j] == if start <= j < start
                        + i {
                        data@[j - start]
                    } else {
                        old(self).data@[j]
                    },
            decreases count - i,
        {
            self.data[start + i] = data[i];
            i += 1;
        }
        self.offset = start + count;
        assert(self.data@ =~= overlay(old(self).data@, start as int, data@));
        Ok(())
    }
}

} // verus!
