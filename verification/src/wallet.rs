//! Wallet identities.

use vstd::prelude::*;

verus! {

/// The identity of a wallet: the text of its address. Two wallets are the same wallet
/// exactly when their texts are equal.
#[derive(Debug)]
pub struct Wallet {
    key: String,
}

impl View for Wallet {
    type V = Seq<char>;

    closed spec fn view(&self) -> Seq<char> {
        self.key@
    }
}

impl Wallet {
    /// The wallet whose address is `address`.
    pub fn new(address: &str) -> (wallet: Wallet)
        ensures
            wallet@ == address@,
    {
        Wallet { key: address.to_owned() }
    }

    /// The text of the wallet's address.
    pub fn address(&self) -> (address: &str)
        ensures
            address@ == self@,
    {
        self.key.as_str()
    }
}

impl Clone for Wallet {
    fn clone(&self) -> (copy: Wallet)
        ensures
            copy@ == self@,
    {
        Wallet { key: self.key.clone() }
    }
}

impl PartialEq for Wallet {
    fn eq(&self, other: &Wallet) -> (same: bool) {
        self.key == other.key
    }
}

impl Eq for Wallet {

}

impl vstd::std_specs::cmp::PartialEqSpecImpl for Wallet {
    open spec fn obeys_eq_spec() -> bool {
        true
    }

    open spec fn eq_spec(&self, other: &Wallet) -> bool {
        self@ == other@
    }
}

} // verus!
