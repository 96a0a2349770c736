//! Account discriminators: the tag in the first byte of every program account.

use vstd::prelude::*;

verus! {

/// The kinds of accounts that the program owns.
#[derive(Debug, Clone, Copy, PartialEq, Eq, Structural)]
pub enum AccountDiscriminator {
    /// A reward bus.
    Bus,
    /// A miner's proof account.
    Proof,
    /// The treasury singleton.
    Treasury,
}

impl AccountDiscriminator {
    /// The tag byte that marks an account of this kind.
    pub open spec fn spec_code(self) -> u8 {
        match self {
            AccountDiscriminator::Bus => 100,
            AccountDiscriminator::Proof => 101,
            AccountDiscriminator::Treasury => 102,
        }
    }

    /// The tag byte that marks an account of this kind.
    pub fn code(self) -> (c: u8)
        ensures
            c == self.spec_code(),
    {
        match self {
            AccountDiscriminator::Bus => 100,
            AccountDiscriminator::Proof => 101,
            AccountDiscriminator::Treasury => 102,
        }
    }
}

/// Distinct kinds of accounts carry distinct tags, so the tag byte tells the
/// kind of an account.
pub proof fn lemma_discriminator_codes_distinct(a: AccountDiscriminator, b: AccountDiscriminator)
    ensures
        a.spec_code() == b.spec_code() <==> a == b,
{
}

/// A type of account data that is tagged with a discriminator.
pub trait Discriminator {
    /// The discriminator of this type of account.
    fn discriminator() -> AccountDiscriminator;
}

} // verus!
