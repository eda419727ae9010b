//! The gas price carried by one attempt at a transaction.

use vstd::prelude::*;
use crate::u256::U256;

verus! {

/// The gas price of a transaction. A transaction keeps its pricing scheme for
/// its whole life: either one price, or a fee cap together with a priority fee.
#[derive(Clone, Copy, Debug, PartialEq, Eq, Structural)]
pub enum GasPrice {
    /// No price has been set.
    Absent,
    /// One price per unit of gas.
    NonEip1559 { gas_price: U256 },
    /// A cap on the fee per unit of gas and the priority fee within it.
    Eip1559 { max_fee: U256, max_priority_fee: U256 },
}

/// What a [`GasPrice`] stands for: the same three cases, over the numbers
/// that the prices spell.
pub enum GasPriceView {
    Absent,
    NonEip1559 { gas_price: nat },
    Eip1559 { max_fee: nat, max_priority_fee: nat },
}

impl View for GasPrice {
    type V = GasPriceView;

    open spec fn view(&self) -> GasPriceView {
        match *self {
            GasPrice::Absent => GasPriceView::Absent,
            GasPrice::NonEip1559 { gas_price } => GasPriceView::NonEip1559 {
                gas_price: gas_price@,
            },
            GasPrice::Eip1559 { max_fee, max_priority_fee } => GasPriceView::Eip1559 {
                max_fee: max_fee@,
                max_priority_fee: max_priority_fee@,
            },
        }
    }
}

impl GasPrice {
    /// Two prices with the same view are the same price.
    pub proof fn lemma_view_injective(self, other: GasPrice)
        requires
            self@ == other@,
        ensures
            self == other,
    {
        match (self, other) {
            (GasPrice::NonEip1559 { gas_price: a }, GasPrice::NonEip1559 { gas_price: b }) => {
                a.lemma_view_injective(b);
            },
            (
                GasPrice::Eip1559 { max_fee: a, max_priority_fee: c },
                GasPrice::Eip1559 { max_fee: b, max_priority_fee: d },
            ) => {
                a.lemma_view_injective(b);
                c.lemma_view_injective(d);
            },
            _ => {},
        }
    }
}

} // verus!
