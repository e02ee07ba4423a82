//! Writing structures as the x86_64 C ABI lays them out.

use vstd::prelude::*;

verus! {

/// The size of a `u16` on x86_64.
pub const INTEL_U16_SIZE: usize = 2;

/// The size of a `u32` on x86_64.
pub const INTEL_U32_SIZE: usize = 4;

/// A structure with a layout on x86_64.
pub trait IntelLayout {
    /// The number of bytes that the structure takes in the x86_64 C ABI.
    spec fn x86_64_csize() -> usize;

    /// The number of bytes that writing this value takes.
    fn intel_size(&self) -> (n: usize)
        ensures
            n == Self::x86_64_csize(),
    ;
}

/// A structure that can be read from its x86_64 bytes.
pub trait FromX64: IntelLayout + Sized {
    /// Why bytes may not read as a value.
    type Error;

    /// What `from_x64_bytes` makes of given bytes.
    spec fn read_x64(src: Seq<u8>) -> Result<Self, Self::Error>;

    /// Reads a value from bytes.
    fn from_x64_bytes(src: &[u8]) -> (r: Result<Self, Self::Error>)
        ensures
            r == Self::read_x64(src@),
    ;
}

/// A structure that can be written as its x86_64 bytes.
pub trait ToX64: IntelLayout + Sized {
    /// The bytes of the value.
    spec fn x64_bytes(&self) -> Seq<u8>;

    /// The bytes of a value fit its layout's size.
    proof fn lemma_x64_bytes_fit(&self)
        ensures
            self.x64_bytes().len() <= Self::x86_64_csize(),
    ;

    /// Writes the value to the front of `dest` and returns how many bytes it
    /// wrote, or, where `dest` is too short, leaves `dest` as it is and
    /// returns how many bytes are needed.
    fn to_x64_bytes(&self, dest: &mut [u8]) -> (r: Result<usize, usize>)
        ensures
            final(dest)@.len() == old(dest)@.len(),
            old(dest)@.len() >= self.x64_bytes().len() ==> r == Ok::<usize, usize>(
                self.x64_bytes().len() as usize,
            ) && final(dest)@.take(self.x64_bytes().len() as int) == self.x64_bytes()
                && final(dest)@.skip(self.x64_bytes().len() as int) == old(dest)@.skip(
                self.x64_bytes().len() as int,
            ),
            old(dest)@.len() < self.x64_bytes().len() ==> r == Err::<usize, usize>(
                self.x64_bytes().len() as usize,
            ) && final(dest)@ == old(dest)@,
    ;

    /// The bytes of the value in a vector of their own.
    fn to_x64_vec(&self) -> (v: Vec<u8>)
        ensures
            v@ == self.x64_bytes(),
    {
        proof {
            self.lemma_x64_bytes_fit();
        }
        let mut retval: Vec<u8> = vec![0u8; self.intel_size()];
        let written = self.to_x64_bytes(retval.as_mut_slice());
        match written {
            Ok(len) => {
                retval.truncate(len);
                retval
            },
            Err(_) => retval,
        }
    }
}

impl IntelLayout for u16 {
    open spec fn x86_64_csize() -> usize {
        INTEL_U16_SIZE
    }

    fn intel_size(&self) -> (n: usize) {
        INTEL_U16_SIZE
    }
}

impl ToX64 for u16 {
    /// Low byte first.
    open spec fn x64_bytes(&self) -> Seq<u8> {
        seq![(*self % 256) as u8, (*self / 256) as u8]
    }

    proof fn lemma_x64_bytes_fit(&self) {
    }

    fn to_x64_bytes(&self, dest: &mut [u8]) -> (r: Result<usize, usize>) {
        if dest.len() < INTEL_U16_SIZE {
            return Err(INTEL_U16_SIZE);
        }
        dest[0] = (*self % 256) as u8;
        dest[1] = (*self / 256) as u8;
        proof {
            assert(dest@.take(2) =~= self.x64_bytes());
            assert(dest@.skip(2) =~= old(dest)@.skip(2));
        }
        Ok(INTEL_U16_SIZE)
    }
}

impl FromX64 for u16 {
    /// The number of bytes that are needed.
    type Error = usize;

    /// The two bytes at the front, low byte first.
    open spec fn read_x64(src: Seq<u8>) -> Result<u16, usize> {
        if src.len() < INTEL_U16_SIZE {
            Err(INTEL_U16_SIZE)
        } else {
            Ok((src[0] as int + 256 * src[1] as int) as u16)
        }
    }

    fn from_x64_bytes(src: &[u8]) -> (r: Result<u16, usize>) {
        if src.len() < INTEL_U16_SIZE {
            return Err(INTEL_U16_SIZE);
        }
        let low: u16 = src[0] as u16;
        let high: u16 = src[1] as u16;
        Ok(low + 256 * high)
    }
}

impl IntelLayout for u32 {
    open spec fn x86_64_csize() -> usize {
        INTEL_U32_SIZE
    }

    fn intel_size(&self) -> (n: usize) {
        INTEL_U32_SIZE
    }
}

impl ToX64 for u32 {
    /// Lowest byte first.
    open spec fn x64_bytes(&self) -> Seq<u8> {
        seq![
            (*self % 256) as u8,
            (*self / 256 % 256) as u8,
            (*self / 65536 % 256) as u8,
            (*self / 16777216) as u8,
        ]
    }

    proof fn lemma_x64_bytes_fit(&self) {
    }

    fn to_x64_bytes(&self, dest: &mut [u8]) -> (r: Result<usize, usize>) {
        if dest.len() < INTEL_U32_SIZE {
            return Err(INTEL_U32_SIZE);
        }
        dest[0] = (*self % 256) as u8;
        dest[1] = (*self / 256 % 256) as u8;
        dest[2] = (*self / 65536 % 256) as u8;
        dest[3] = (*self / 16777216) as u8;
        proof {
            assert(dest@.take(4) =~= self.x64_bytes());
            assert(dest@.skip(4) =~= old(dest)@.skip(4));
        }
        Ok(INTEL_U32_SIZE)
    }
}

impl FromX64 for u32 {
    /// The number of bytes that are needed.
    type Error = usize;

    /// The four bytes at the front, lowest byte first.
    open spec fn read_x64(src: Seq<u8>) -> Result<u32, usize> {
        if src.len() < INTEL_U32_SIZE {
            Err(INTEL_U32_SIZE)
        } else {
            Ok(
                (src[0] as int + 256 * src[1] as int + 65536 * src[2] as int + 16777216
                    * src[3] as int) as u32,
            )
        }
    }

    fn from_x64_bytes(src: &[u8]) -> (r: Result<u32, usize>) {
        if src.len() < INTEL_U32_SIZE {
            return Err(INTEL_U32_SIZE);
        }
        let b0: u32 = src[0] as u32;
        let b1: u32 = src[1] as u32;
        let b2: u32 = src[2] as u32;
        let b3: u32 = src[3] as u32;
        Ok(b0 + 256 * b1 + 65536 * b2 + 16777216 * b3)
    }
}

/// What is written of a 16-bit number reads as that number.
pub proof fn lemma_u16_reads_as_written(x: u16)
    ensures
        <u16 as FromX64>::read_x64(x.x64_bytes()) == Ok::<u16, usize>(x),
{
}

/// What is written of a 32-bit number reads as that number.
pub proof fn lemma_u32_reads_as_written(x: u32)
    ensures
        <u32 as FromX64>::read_x64(x.x64_bytes()) == Ok::<u32, usize>(x),
{
}

} // verus!
