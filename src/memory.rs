use vstd::prelude::*;

use crate::types::{Address, Error};

verus! {

/// What a read of `address` returns from memory whose contents are `cells`.
pub open spec fn read_outcome(cells: Map<Address, u8>, address: Address) -> Result<u8, Error> {
    if cells.contains_key(address) {
        Ok(cells[address])
    } else {
        Err(Error::BadAddress)
    }
}

/// What a write of `address` returns from memory with contents `cells` and
/// writable addresses `writable`.
pub open spec fn write_outcome(
    cells: Map<Address, u8>,
    writable: Set<Address>,
    address: Address,
) -> Result<(), Error> {
    if !cells.contains_key(address) {
        Err(Error::BadAddress)
    } else if !writable.contains(address) {
        Err(Error::ReadOnly)
    } else {
        Ok(())
    }
}

/// The memory subsystem that the core reads and writes bytes through.
///
/// An implementation is modelled by the bytes it holds (`cells`) and the
/// addresses it accepts writes to (`writable`); a read changes neither.
pub trait Memory {
    /// The implementation's own well-formedness.
    spec fn valid(&self) -> bool;

    /// The byte held at each address the memory backs.
    spec fn cells(&self) -> Map<Address, u8>;

    /// The addresses that accept writes.
    spec fn writable(&self) -> Set<Address>;

    fn read_memory(&mut self, address: Address) -> (r: Result<u8, Error>)
        requires
            old(self).valid(),
        ensures
            final(self).valid(),
            final(self).cells() == old(self).cells(),
            final(self).writable() == old(self).writable(),
            r == read_outcome(old(self).cells(), address),
    ;

    fn write_memory(&mut self, address: Address, data: u8) -> (r: Result<(), Error>)
        requires
            old(self).valid(),
        ensures
            final(self).valid(),
            final(self).writable() == old(self).writable(),
            r == write_outcome(old(self).cells(), old(self).writable(), address),
            r is Ok ==> final(self).cells() == old(self).cells().insert(address, data),
            r is Err ==> final(self).cells() == old(self).cells(),
    ;
}

/// A memory that backs every 8051 address space with plain arrays: 64 KiB of
/// read-only code, 64 KiB of external RAM, 256 bytes of internal RAM, the
/// 128-byte SFR page and the 128 SFR-overlay bits.
pub struct FlatMemory {
    code: Vec<u8>,
    external: Vec<u8>,
    internal: Vec<u8>,
    sfr: Vec<u8>,
    bits: Vec<u8>,
}

/// Whether a `FlatMemory` backs `address`.
pub open spec fn flat_backs(address: Address) -> bool {
    match address {
        Address::SpecialFunctionRegister(a) => a >= 0x80,
        Address::Bit(b) => b >= 0x80,
        _ => true,
    }
}

/// Whether a `FlatMemory` accepts writes to `address`.
pub open spec fn flat_writable(address: Address) -> bool {
    flat_backs(address) && !(address is Code)
}

impl FlatMemory {
    /// The byte stored for `address`, for an address the memory backs.
    pub closed spec fn value(&self, address: Address) -> u8 {
        match address {
            Address::Code(a) => self.code@[a as int],
            Address::ExternalData(a) => self.external@[a as int],
            Address::InternalData(a) => self.internal@[a as int],
            Address::SpecialFunctionRegister(a) => self.sfr@[a - 0x80],
            Address::Bit(b) => self.bits@[b - 0x80],
        }
    }

    /// A memory with every byte zero.
    pub fn new() -> (m: FlatMemory)
        ensures
            m.valid(),
            m.cells().dom() == Set::new(|a: Address| flat_backs(a)),
            forall|a: Address| flat_backs(a) ==> #[trigger] m.cells()[a] == 0,
    {
        let m = FlatMemory {
            code: vec![0u8; 65536],
            external: vec![0u8; 65536],
            internal: vec![0u8; 256],
            sfr: vec![0u8; 128],
            bits: vec![0u8; 128],
        };
        proof {
            assert(m.cells().dom() =~= Set::new(|a: Address| flat_backs(a)));
            assert forall|a: Address| flat_backs(a) implies #[trigger] m.cells()[a] == 0 by {
                match a {
                    Address::Code(x) => assert(cloned(0u8, m.code@[x as int])),
                    Address::ExternalData(x) => assert(cloned(0u8, m.external@[x as int])),
                    Address::InternalData(x) => assert(cloned(0u8, m.internal@[x as int])),
                    Address::SpecialFunctionRegister(x) => assert(cloned(0u8, m.sfr@[x - 0x80])),
                    Address::Bit(x) => assert(cloned(0u8, m.bits@[x - 0x80])),
                }
            }
        }
        m
    }

    /// Places `data` in code memory at `address`, as a program loader does.
    pub fn set_code(&mut self, address: u16, data: u8)
        requires
            old(self).valid(),
        ensures
            final(self).valid(),
            final(self).cells() == old(self).cells().insert(Address::Code(address), data),
    {
        self.code.set(address as usize, data);
        proof {
            assert(final(self).cells() =~= old(self).cells().insert(Address::Code(address), data));
        }
    }

    /// The byte at `address`, or `None` where the memory does not back it.
    pub fn get(&self, address: Address) -> (r: Option<u8>)
        requires
            self.valid(),
        ensures
            r == (if self.cells().contains_key(address) { Some(self.cells()[address]) } else { None }),
    {
        match address {
            Address::Code(a) => Some(self.code[a as usize]),
            Address::ExternalData(a) => Some(self.external[a as usize]),
            Address::InternalData(a) => Some(self.internal[a as usize]),
            Address::SpecialFunctionRegister(a) => if a >= 0x80 {
                Some(self.sfr[(a - 0x80) as usize])
            } else {
                None
            },
            Address::Bit(b) => if b >= 0x80 {
                Some(self.bits[(b - 0x80) as usize])
            } else {
                None
            },
        }
    }
}

impl Memory for FlatMemory {
    closed spec fn valid(&self) -> bool {
        &&& self.code@.len() == 65536
        &&& self.external@.len() == 65536
        &&& self.internal@.len() == 256
        &&& self.sfr@.len() == 128
        &&& self.bits@.len() == 128
    }

    closed spec fn cells(&self) -> Map<Address, u8> {
        Map::new(|a: Address| flat_backs(a), |a: Address| self.value(a))
    }

    open spec fn writable(&self) -> Set<Address> {
        Set::new(|a: Address| flat_writable(a))
    }

    fn read_memory(&mut self, address: Address) -> (r: Result<u8, Error>) {
        match self.get(address) {
            Some(v) => Ok(v),
            None => Err(Error::BadAddress),
        }
    }

    fn write_memory(&mut self, address: Address, data: u8) -> (r: Result<(), Error>) {
        match address {
            Address::Code(_) => {
                return Err(Error::ReadOnly);
            },
            Address::ExternalData(a) => self.external.set(a as usize, data),
            Address::InternalData(a) => self.internal.set(a as usize, data),
            Address::SpecialFunctionRegister(a) => {
                if a < 0x80 {
                    return Err(Error::BadAddress);
                }
                self.sfr.set((a - 0x80) as usize, data);
            },
            Address::Bit(b) => {
                if b < 0x80 {
                    return Err(Error::BadAddress);
                }
                self.bits.set((b - 0x80) as usize, data);
            },
        }
        proof {
            assert(final(self).cells() =~= old(self).cells().insert(address, data));
        }
        Ok(())
    }
}

} // verus!
