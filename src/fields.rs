use vstd::prelude::*;

verus! {

broadcast use vstd::std_specs::hash::group_hash_axioms;

/// A decoded value held in an entity's key/value store. Floating-point values
/// are carried as their IEEE-754 bit pattern.
#[derive(Debug, Clone)]
pub enum FieldValue {
    Bool(bool),
    I8(i8),
    U8(u8),
    U16(u16),
    I32(i32),
    U32(u32),
    U64(u64),
    F32Bits(u32),
    Str(String),
}

/// One entity as the decoder exposes it: the hash of its schema name, its
/// index within the stream, and its fields addressed by field key. A key that
/// is absent means the field is unknown for this update, not zero.
pub struct EntityRecord {
    pub schema_hash: u64,
    pub index: i32,
    pub fields: std::collections::HashMap<u64, FieldValue>,
}

/// The `bool` stored under `k`, if the store holds a value of that kind there.
pub open spec fn bool_at(m: Map<u64, FieldValue>, k: u64) -> Option<bool> {
    if m.contains_key(k) {
        match m[k] {
            FieldValue::Bool(v) => Some(v),
            _ => None,
        }
    } else {
        None
    }
}

/// The `i8` stored under `k`, if the store holds a value of that kind there.
pub open spec fn i8_at(m: Map<u64, FieldValue>, k: u64) -> Option<i8> {
    if m.contains_key(k) {
        match m[k] {
            FieldValue::I8(v) => Some(v),
            _ => None,
        }
    } else {
        None
    }
}

/// The `u8` stored under `k`, if the store holds a value of that kind there.
pub open spec fn u8_at(m: Map<u64, FieldValue>, k: u64) -> Option<u8> {
    if m.contains_key(k) {
        match m[k] {
            FieldValue::U8(v) => Some(v),
            _ => None,
        }
    } else {
        None
    }
}

/// The `u16` stored under `k`, if the store holds a value of that kind there.
pub open spec fn u16_at(m: Map<u64, FieldValue>, k: u64) -> Option<u16> {
    if m.contains_key(k) {
        match m[k] {
            FieldValue::U16(v) => Some(v),
            _ => None,
        }
    } else {
        None
    }
}

/// The `i32` stored under `k`, if the store holds a value of that kind there.
pub open spec fn i32_at(m: Map<u64, FieldValue>, k: u64) -> Option<i32> {
    if m.contains_key(k) {
        match m[k] {
            FieldValue::I32(v) => Some(v),
            _ => None,
        }
    } else {
        None
    }
}

/// The `u32` stored under `k`, if the store holds a value of that kind there.
pub open spec fn u32_at(m: Map<u64, FieldValue>, k: u64) -> Option<u32> {
    if m.contains_key(k) {
        match m[k] {
            FieldValue::U32(v) => Some(v),
            _ => None,
        }
    } else {
        None
    }
}

/// The `u64` stored under `k`, if the store holds a value of that kind there.
pub open spec fn u64_at(m: Map<u64, FieldValue>, k: u64) -> Option<u64> {
    if m.contains_key(k) {
        match m[k] {
            FieldValue::U64(v) => Some(v),
            _ => None,
        }
    } else {
        None
    }
}

/// The `f32` bit pattern stored under `k`, if the store holds a float there.
pub open spec fn f32_bits_at(m: Map<u64, FieldValue>, k: u64) -> Option<u32> {
    if m.contains_key(k) {
        match m[k] {
            FieldValue::F32Bits(v) => Some(v),
            _ => None,
        }
    } else {
        None
    }
}

/// The string stored under `k`, if the store holds one there.
pub open spec fn str_at(m: Map<u64, FieldValue>, k: u64) -> Option<Seq<char>> {
    if m.contains_key(k) {
        match m[k] {
            FieldValue::Str(s) => Some(s@),
            _ => None,
        }
    } else {
        None
    }
}

impl EntityRecord {
    /// Looks up a `bool` field; absent or of another kind gives none.
    pub fn get_bool(&self, key: u64) -> (r: Option<bool>)
        ensures
            r == bool_at(self.fields@, key),
    {
        match self.fields.get(&key) {
            Some(FieldValue::Bool(v)) => Some(*v),
            _ => None,
        }
    }

    /// Looks up a `i8` field; absent or of another kind gives none.
    pub fn get_i8(&self, key: u64) -> (r: Option<i8>)
        ensures
            r == i8_at(self.fields@, key),
    {
        match self.fields.get(&key) {
            Some(FieldValue::I8(v)) => Some(*v),
            _ => None,
        }
    }

    /// Looks up a `u8` field; absent or of another kind gives none.
    pub fn get_u8(&self, key: u64) -> (r: Option<u8>)
        ensures
            r == u8_at(self.fields@, key),
    {
        match self.fields.get(&key) {
            Some(FieldValue::U8(v)) => Some(*v),
            _ => None,
        }
    }

    /// Looks up a `u16` field; absent or of another kind gives none.
    pub fn get_u16(&self, key: u64) -> (r: Option<u16>)
        ensures
            r == u16_at(self.fields@, key),
    {
        match self.fields.get(&key) {
            Some(FieldValue::U16(v)) => Some(*v),
            _ => None,
        }
    }

    /// Looks up a `i32` field; absent or of another kind gives none.
    pub fn get_i32(&self, key: u64) -> (r: Option<i32>)
        ensures
            r == i32_at(self.fields@, key),
    {
        match self.fields.get(&key) {
            Some(FieldValue::I32(v)) => Some(*v),
            _ => None,
        }
    }

    /// Looks up a `u32` field; absent or of another kind gives none.
    pub fn get_u32(&self, key: u64) -> (r: Option<u32>)
        ensures
            r == u32_at(self.fields@, key),
    {
        match self.fields.get(&key) {
            Some(FieldValue::U32(v)) => Some(*v),
            _ => None,
        }
    }

    /// Looks up a `u64` field; absent or of another kind gives none.
    pub fn get_u64(&self, key: u64) -> (r: Option<u64>)
        ensures
            r == u64_at(self.fields@, key),
    {
        match self.fields.get(&key) {
            Some(FieldValue::U64(v)) => Some(*v),
            _ => None,
        }
    }

    /// Looks up a float field as its `f32` bit pattern; absent or of another
    /// kind gives none.
    pub fn get_f32_bits(&self, key: u64) -> (r: Option<u32>)
        ensures
            r == f32_bits_at(self.fields@, key),
    {
        match self.fields.get(&key) {
            Some(FieldValue::F32Bits(v)) => Some(*v),
            _ => None,
        }
    }

    /// Looks up a string field; absent or of another kind gives none.
    pub fn get_str(&self, key: u64) -> (r: Option<String>)
        ensures
            r matches Some(s) ==> str_at(self.fields@, key) == Some(s@),
            r is None ==> str_at(self.fields@, key) is None,
    {
        match self.fields.get(&key) {
            Some(FieldValue::Str(s)) => Some(s.clone()),
            _ => None,
        }
    }
}

} // verus!
