//! Values in the host framework's own representation, assembled natively and
//! checked before they cross into the host API: text, numbers, arrays and
//! keyed containers.

use vstd::prelude::*;

use crate::error::{AudioError, ErrorKind};

verus! {

pub const KEYS_VALUES_LENGTHS_DIFFER: &'static str = "the lengths of keys and values are different";

/// The largest index or count the host framework represents.
pub const MAX_CFINDEX: i64 = 9223372036854775807;

/// A value for the host framework.
#[derive(Debug)]
pub enum ForeignValue {
    Text(String),
    Number(i32),
    Array(Vec<ForeignValue>),
    Dictionary(ForeignDictionary),
}

/// A keyed container for the host framework: its entries in order, each key
/// with its value.
#[derive(Debug)]
pub struct ForeignDictionary {
    pub entries: Vec<(String, ForeignValue)>,
}

impl ForeignDictionary {
    /// Pairs `keys[i]` with `values[i]`; fails, handing nothing on, when the
    /// two lists differ in length.
    pub fn try_new(keys: Vec<String>, values: Vec<ForeignValue>) -> (r: Result<
        ForeignDictionary,
        AudioError,
    >)
        ensures
            r is Ok <==> keys@.len() == values@.len(),
            r is Err ==> r->Err_0.kind == ErrorKind::Validation && r->Err_0.msg@
                == KEYS_VALUES_LENGTHS_DIFFER@,
            r is Ok ==> r->Ok_0.entries@.len() == keys@.len() && forall|i: int|
                0 <= i < keys@.len() ==> #[trigger] r->Ok_0.entries@[i] == (keys@[i], values@[i]),
    {
        if keys.len() != values.len() {
            return Err(AudioError::with_msg(ErrorKind::Validation, KEYS_VALUES_LENGTHS_DIFFER));
        }
        let mut keys = keys;
        let mut values = values;
        let ghost all_keys = keys@;
        let ghost all_values = values@;
        let mut entries: Vec<(String, ForeignValue)> = Vec::new();
        while keys.len() > 0
            invariant
                keys@.len() == values@.len(),
                entries@.len() + keys@.len() == all_keys.len(),
                all_keys.len() == all_values.len(),
                keys@ == all_keys.subrange(entries@.len() as int, all_keys.len() as int),
                values@ == all_values.subrange(entries@.len() as int, all_values.len() as int),
                forall|i: int|
                    0 <= i < entries@.len() ==> #[trigger] entries@[i] == (all_keys[i], all_values[i]),
            decreases keys@.len(),
        {
            let k = keys.remove(0);
            let v = values.remove(0);
            entries.push((k, v));
        }
        Ok(ForeignDictionary { entries })
    }
}

/// A length as an index of the host framework.
pub fn to_cfindex(n: usize) -> (r: i64)
    requires
        n <= MAX_CFINDEX,
    ensures
        r == n,
        r >= 0,
{
    n as i64
}

} // verus!
