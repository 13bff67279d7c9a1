//! Account-side wire enumerations.

use crate::text::str_eq;
use vstd::prelude::*;

verus! {

/// The wallet kind a wire string names, if any.
pub open spec fn wallet_kind_of(s: Seq<char>) -> Option<WalletKind> {
    if s == "exchange"@ {
        Some(WalletKind::Exchange)
    } else if s == "margin"@ {
        Some(WalletKind::Margin)
    } else if s == "funding"@ {
        Some(WalletKind::Funding)
    } else {
        None
    }
}

/// The kind of wallet a balance or transfer belongs to. A closed
/// enumeration: every wire string outside the mapping is a decode error,
/// never a default.
#[derive(Clone, Copy, Debug, PartialEq, Eq, Structural)]
pub enum WalletKind {
    Exchange,
    Margin,
    Funding,
}

impl WalletKind {
    /// The wire name of the wallet kind.
    pub open spec fn spec_wire(self) -> Seq<char> {
        match self {
            WalletKind::Exchange => "exchange"@,
            WalletKind::Margin => "margin"@,
            WalletKind::Funding => "funding"@,
        }
    }

    pub fn to_wire(&self) -> (r: String)
        ensures
            r@ == self.spec_wire(),
    {
        match self {
            WalletKind::Exchange => "exchange".to_owned(),
            WalletKind::Margin => "margin".to_owned(),
            WalletKind::Funding => "funding".to_owned(),
        }
    }

    /// The wallet kind a wire string names, exactly when it names one.
    pub fn from_wire(s: &str) -> (r: Option<WalletKind>)
        ensures
            r == wallet_kind_of(s@),
    {
        if str_eq(s, "exchange") {
            Some(WalletKind::Exchange)
        } else if str_eq(s, "margin") {
            Some(WalletKind::Margin)
        } else if str_eq(s, "funding") {
            Some(WalletKind::Funding)
        } else {
            None
        }
    }
}

/// The wire mapping is a bijection on its enumeration: reading back the
/// wire name of any wallet kind yields that same kind.
pub proof fn lemma_wallet_kind_round_trip(k: WalletKind)
    ensures
        wallet_kind_of(k.spec_wire()) == Some(k),
{
    reveal_strlit("exchange");
    reveal_strlit("margin");
    reveal_strlit("funding");
    assert("exchange"@.len() == 8);
    assert("margin"@.len() == 6);
    assert("funding"@.len() == 7);
}

} // verus!
