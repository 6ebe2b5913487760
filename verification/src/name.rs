//! Interface names as a kernel structure holds them: in a field of sixteen
//! bytes, ended by a zero byte and padded with zeros.

use crate::error::Error;
use crate::wire::{push_zeros, zeros};
use vstd::prelude::*;
use vstd::string::StringSliceAdditionalSpecFns;

verus! {

/// The bytes of a name field, the terminator among them.
pub const NAME_SIZE: usize = 16;

/// Whether a name of these bytes fits a name field together with its
/// terminator.
pub open spec fn name_fits(name: Seq<u8>) -> bool {
    name.len() < NAME_SIZE
}

/// The name field of a name that fits: its bytes, then zeros up to the field's
/// size.
pub open spec fn name_field(name: Seq<u8>) -> Seq<u8>
    recommends
        name_fits(name),
{
    name + zeros((NAME_SIZE - name.len()) as nat)
}

/// Whether a name holds no zero byte, so that its terminator is the first
/// zero of its field.
pub open spec fn name_unbroken(name: Seq<u8>) -> bool {
    forall|at: int| 0 <= at < name.len() ==> name[at] != 0
}

/// The name field of a name that fits has the field's size, starts with the
/// name, and holds zero from the name's end on: the name is terminated.
pub proof fn lemma_name_field(name: Seq<u8>)
    requires
        name_fits(name),
    ensures
        name_field(name).len() == NAME_SIZE,
        name_field(name).subrange(0, name.len() as int) == name,
        forall|at: int| name.len() <= at < NAME_SIZE ==> name_field(name)[at] == 0,
{
}

/// Names that fit, hold no zero byte and fill their fields alike are the same
/// name.
pub proof fn lemma_name_field_injective(a: Seq<u8>, b: Seq<u8>)
    requires
        name_fits(a),
        name_fits(b),
        name_unbroken(a),
        name_unbroken(b),
        name_field(a) == name_field(b),
    ensures
        a == b,
{
    lemma_name_field(a);
    lemma_name_field(b);
    if a.len() < b.len() {
        // The shorter name ends where the longer one goes on.
        assert(name_field(b)[a.len() as int] == b[a.len() as int]);
    } else if b.len() < a.len() {
        assert(name_field(a)[b.len() as int] == a[b.len() as int]);
    }
}

/// `libc::IFNAMSIZ`: the size of an interface name field, terminator
/// included. libc defines it as 16 for Linux, the system whose tunnel drivers
/// read these fields.
#[verifier::external_body]
fn name_field_size() -> (size: usize)
    ensures
        size == NAME_SIZE,
{
    libc::IFNAMSIZ
}

/// The name field of `name`. A name of sixteen bytes or more leaves no room
/// for the terminator and is refused.
pub fn encode_name(name: &str) -> (result: Result<Vec<u8>, Error>)
    ensures
        result is Ok <==> name_fits(name.spec_bytes()),
        result matches Ok(field) ==> field@ == name_field(name.spec_bytes()),
        result matches Err(error) ==> error == Error::NameTooLong,
{
    let bytes = name.as_bytes();
    let size = name_field_size();
    if bytes.len() >= size {
        return Err(Error::NameTooLong);
    }
    let mut field: Vec<u8> = Vec::new();
    let mut at: usize = 0;
    while at < bytes.len()
        invariant
            at <= bytes.len(),
            field@ == bytes@.subrange(0, at as int),
        decreases bytes.len() - at,
    {
        field.push(bytes[at]);
        at = at + 1;
    }
    push_zeros(&mut field, size - bytes.len());
    Ok(field)
}

} // verus!
