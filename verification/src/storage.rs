//! The bytes in which a bond with a host is kept.
//!
//! A bond is stored as a key and a value. The key is the address of the host,
//! six bytes. The value is the long term key of the bond, sixteen bytes with
//! the lowest first, and one byte for the security level.

use vstd::prelude::*;

verus! {

/// Number of bytes of a stored address.
pub const ADDR_BYTES: usize = 6;

/// Number of bytes of a long term key.
pub const LTK_BYTES: usize = 16;

/// Number of bytes of a stored bond.
pub const BOND_BYTES: usize = 17;

/// Why bytes could not be written or read.
#[derive(PartialEq, Eq, Structural, Debug, Clone, Copy)]
pub enum SerializationError {
    /// The buffer is shorter than what is stored.
    BufferTooSmall,
    /// The bytes stand for no value.
    InvalidData,
}

/// How well a link to a host is protected.
#[derive(PartialEq, Eq, Structural, Debug, Clone, Copy)]
pub enum SecurityLevel {
    NoEncryption,
    Encrypted,
    EncryptedAuthenticated,
}

impl SecurityLevel {
    /// The byte that stands for the level.
    pub open spec fn code(self) -> u8 {
        match self {
            SecurityLevel::NoEncryption => 0,
            SecurityLevel::Encrypted => 1,
            SecurityLevel::EncryptedAuthenticated => 2,
        }
    }

    /// The level that a byte stands for, if it stands for one.
    pub open spec fn of_code(code: u8) -> Option<SecurityLevel> {
        if code == 0 {
            Some(SecurityLevel::NoEncryption)
        } else if code == 1 {
            Some(SecurityLevel::Encrypted)
        } else if code == 2 {
            Some(SecurityLevel::EncryptedAuthenticated)
        } else {
            None
        }
    }
}

/// The address of a bonded host, as the key under which its bond is stored.
#[derive(Debug, Clone, Copy, PartialEq, Eq)]
pub struct StoredAddr(pub [u8; ADDR_BYTES]);

/// What is stored of a bond.
#[derive(Debug, Clone, Copy, PartialEq, Eq)]
pub struct StoredBondInformation {
    /// The long term key, the lowest byte first.
    pub ltk: [u8; LTK_BYTES],
    pub security_level: SecurityLevel,
}

impl StoredBondInformation {
    /// The bytes that stand for the bond: the key, then the level.
    pub open spec fn bytes(self) -> Seq<u8> {
        self.ltk@.push(self.security_level.code())
    }
}

/// Copies `source` to the front of `buffer`.
fn copy_to_front(buffer: &mut [u8], source: &[u8])
    requires
        source@.len() <= old(buffer)@.len(),
    ensures
        final(buffer)@ == source@ + old(buffer)@.subrange(
            source@.len() as int,
            old(buffer)@.len() as int,
        ),
{
    let mut i: usize = 0;
    while i < source.len()
        invariant
            i <= source@.len(),
            source@.len() <= buffer@.len(),
            buffer@.len() == old(buffer)@.len(),
            forall|j: int| 0 <= j < i ==> buffer@[j] == source@[j],
            forall|j: int| i <= j < buffer@.len() ==> buffer@[j] == old(buffer)@[j],
        decreases source@.len() - i,
    {
        buffer[i] = source[i];
        i += 1;
    }
    assert(buffer@ =~= source@ + old(buffer)@.subrange(
        source@.len() as int,
        old(buffer)@.len() as int,
    ));
}

impl StoredAddr {
    /// Writes the address to the front of `buffer` and returns the number of
    /// bytes written. A buffer of fewer than six bytes is too small and stays
    /// as it is.
    pub fn serialize_into(&self, buffer: &mut [u8]) -> (written: Result<usize, SerializationError>)
        ensures
            old(buffer)@.len() >= ADDR_BYTES ==> written == Ok::<usize, SerializationError>(
                ADDR_BYTES,
            ) && final(buffer)@ == self.0@ + old(buffer)@.subrange(
                ADDR_BYTES as int,
                old(buffer)@.len() as int,
            ),
            old(buffer)@.len() < ADDR_BYTES ==> written == Err::<usize, SerializationError>(
                SerializationError::BufferTooSmall,
            ) && final(buffer)@ == old(buffer)@,
    {
        if buffer.len() < ADDR_BYTES {
            Err(SerializationError::BufferTooSmall)
        } else {
            copy_to_front(buffer, &self.0);
            Ok(ADDR_BYTES)
        }
    }

    /// Reads an address from the front of `buffer` and returns it with the
    /// number of bytes read. A buffer of fewer than six bytes is too small.
    pub fn deserialize_from(buffer: &[u8]) -> (read: Result<(Self, usize), SerializationError>)
        ensures
            match read {
                Ok((addr, used)) => buffer@.len() >= ADDR_BYTES && used == ADDR_BYTES && addr.0@
                    == buffer@.subrange(0, ADDR_BYTES as int),
                Err(error) => buffer@.len() < ADDR_BYTES && error
                    == SerializationError::BufferTooSmall,
            },
    {
        if buffer.len() < ADDR_BYTES {
            Err(SerializationError::BufferTooSmall)
        } else {
            let mut addr = [0u8; ADDR_BYTES];
            let mut i: usize = 0;
            while i < ADDR_BYTES
                invariant
                    i <= ADDR_BYTES,
                    buffer@.len() >= ADDR_BYTES,
                    forall|j: int| 0 <= j < i ==> addr@[j] == buffer@[j],
                decreases ADDR_BYTES - i,
            {
                addr[i] = buffer[i];
                i += 1;
            }
            assert(addr@ =~= buffer@.subrange(0, ADDR_BYTES as int));
            Ok((StoredAddr(addr), ADDR_BYTES))
        }
    }
}

impl StoredBondInformation {
    /// Writes the bond to the front of `buffer` and returns the number of
    /// bytes written. A buffer of fewer than seventeen bytes is too small and
    /// stays as it is.
    pub fn serialize_into(&self, buffer: &mut [u8]) -> (written: Result<usize, SerializationError>)
        ensures
            old(buffer)@.len() >= BOND_BYTES ==> written == Ok::<usize, SerializationError>(
                BOND_BYTES,
            ) && final(buffer)@ == self.bytes() + old(buffer)@.subrange(
                BOND_BYTES as int,
                old(buffer)@.len() as int,
            ),
            old(buffer)@.len() < BOND_BYTES ==> written == Err::<usize, SerializationError>(
                SerializationError::BufferTooSmall,
            ) && final(buffer)@ == old(buffer)@,
    {
        if buffer.len() < BOND_BYTES {
            return Err(SerializationError::BufferTooSmall);
        }
        copy_to_front(buffer, &self.ltk);
        buffer[LTK_BYTES] = match self.security_level {
            SecurityLevel::NoEncryption => 0,
            SecurityLevel::Encrypted => 1,
            SecurityLevel::EncryptedAuthenticated => 2,
        };
        assert(buffer@ =~= self.bytes() + old(buffer)@.subrange(
            BOND_BYTES as int,
            old(buffer)@.len() as int,
        ));
        Ok(BOND_BYTES)
    }

    /// Reads a bond from the front of `buffer`. A buffer of fewer than
    /// seventeen bytes is too small. A byte other than 0, 1 or 2 in the place
    /// of the security level is invalid.
    pub fn deserialize_from(buffer: &[u8]) -> (read: Result<Self, SerializationError>)
        ensures
            match read {
                Ok(bond) => buffer@.len() >= BOND_BYTES && bond.bytes() == buffer@.subrange(
                    0,
                    BOND_BYTES as int,
                ),
                Err(error) => if buffer@.len() < BOND_BYTES {
                    error == SerializationError::BufferTooSmall
                } else {
                    error == SerializationError::InvalidData && SecurityLevel::of_code(
                        buffer@[LTK_BYTES as int],
                    ) == None::<SecurityLevel>
                },
            },
    {
        if buffer.len() < BOND_BYTES {
            Err(SerializationError::BufferTooSmall)
        } else {
            let mut ltk = [0u8; LTK_BYTES];
            let mut i: usize = 0;
            while i < LTK_BYTES
                invariant
                    i <= LTK_BYTES,
                    buffer@.len() >= BOND_BYTES,
                    forall|j: int| 0 <= j < i ==> ltk@[j] == buffer@[j],
                decreases LTK_BYTES - i,
            {
                ltk[i] = buffer[i];
                i += 1;
            }
            let code = buffer[LTK_BYTES];
            let security_level = if code == 0 {
                SecurityLevel::NoEncryption
            } else if code == 1 {
                SecurityLevel::Encrypted
            } else if code == 2 {
                SecurityLevel::EncryptedAuthenticated
            } else {
                return Err(SerializationError::InvalidData);
            };
            let bond = StoredBondInformation { ltk, security_level };
            assert(bond.bytes() =~= buffer@.subrange(0, BOND_BYTES as int));
            Ok(bond)
        }
    }
}

/// The byte of a security level stands for that level and for no other.
pub proof fn lemma_level_code(level: SecurityLevel)
    ensures
        SecurityLevel::of_code(level.code()) == Some(level),
{
}

/// What was written is read back: the bytes of a bond have the key in their
/// first sixteen places and a byte that stands for its level in the last.
pub proof fn lemma_bond_bytes(bond: StoredBondInformation)
    ensures
        bond.bytes().len() == BOND_BYTES,
        bond.bytes().subrange(0, LTK_BYTES as int) == bond.ltk@,
        SecurityLevel::of_code(bond.bytes()[LTK_BYTES as int]) == Some(bond.security_level),
{
    assert(bond.bytes().subrange(0, LTK_BYTES as int) =~= bond.ltk@);
}

/// Two bonds with the same bytes are the same bond.
pub proof fn lemma_bond_bytes_injective(a: StoredBondInformation, b: StoredBondInformation)
    requires
        a.bytes() == b.bytes(),
    ensures
        a.ltk@ == b.ltk@,
        a.security_level == b.security_level,
{
    lemma_bond_bytes(a);
    lemma_bond_bytes(b);
}

} // verus!
