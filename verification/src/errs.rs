use vstd::prelude::*;
use crate::addr::Addr;

verus! {

/// The adapter's error kinds.
///
/// `MalformedAccount`: the raw pool account handed to construction is shorter
/// than the fixed 8-byte discriminator header.
/// `MissingAccount(a)`: a declared dependency `a` was absent from an update
/// batch; the mirror is left unchanged.
/// `DecodeError`: account bytes could not be turned into usable pool state,
/// or no usable derived address exists; the mirror is left unchanged.
/// `UnknownMint`: a quote or swap request named a mint pair that is not the
/// pool's two reserves in some order.
#[derive(Clone, Copy, Debug, PartialEq, Eq)]
pub enum AdapterError {
    MalformedAccount,
    MissingAccount(Addr),
    DecodeError,
    UnknownMint,
}

impl AdapterError {
    /// A short human-readable description, in place of a `Display` impl.
    pub fn describe(&self) -> (r: &'static str)
        ensures
            r@ == self.describe_spec(),
    {
        match self {
            AdapterError::MalformedAccount => "account data too short",
            AdapterError::MissingAccount(_) => "required account not found",
            AdapterError::DecodeError => "account state could not be decoded",
            AdapterError::UnknownMint => "mint is not traded by this pool",
        }
    }

    pub open spec fn describe_spec(&self) -> Seq<char> {
        match self {
            AdapterError::MalformedAccount => "account data too short"@,
            AdapterError::MissingAccount(_) => "required account not found"@,
            AdapterError::DecodeError => "account state could not be decoded"@,
            AdapterError::UnknownMint => "mint is not traded by this pool"@,
        }
    }
}

} // verus!
